//! The commands that pages call: who may call them, and what they come to.

use crate::state::{known_tabs, tab_views, AppState, TabState, WindowView};
use crate::tab_controller::{op_of, window_op, LotionAction, WindowOp, NOTION_URL};
use crate::text::{
    first_index, joined, lemma_first_index, lemma_has_first, position_of, same_text, text_opt, texts,
};
use vstd::prelude::*;
use vstd::string::*;
use vstd::utf8::{decode_utf8, encode_utf8, is_ascii_chars, is_char_boundary};

verus! {

/// How many bytes of a network event are logged.
pub const MAX_EVENT_BYTES: usize = 512;

/// Lets a call from a trusted origin pass, and tells others why it does not.
pub fn authorize(trusted: bool) -> (out: Result<(), String>)
    ensures
        match out {
            Ok(_) => trusted,
            Err(message) => !trusted && message@ == "Untrusted origin"@,
        },
{
    if trusted {
        Ok(())
    } else {
        Err("Untrusted origin".to_owned())
    }
}

/// The tabs of the window `window_id`, in their order, for a caller of a trusted
/// origin; none for others.
pub fn get_window_tabs(state: &AppState, trusted: bool, window_id: &str) -> (out: Vec<TabState>)
    ensures
        tab_views(out@) == (if trusted && state@.windows.contains_key(window_id@) {
            known_tabs(state@.tabs, state@.windows[window_id@].tab_ids)
        } else {
            Seq::empty()
        }),
{
    if trusted {
        state.window_tabs(window_id)
    } else {
        let out: Vec<TabState> = Vec::new();
        assert(tab_views(out@) =~= Seq::empty());
        out
    }
}

/// The place in a window from which tabs are counted: that of the active tab,
/// or the first.
pub open spec fn current_place(window: WindowView) -> int {
    match window.active_tab_id {
        Some(id) => if window.tab_ids.contains(id) {
            first_index(window.tab_ids, id)
        } else {
            0
        },
        None => 0,
    }
}

/// The place `direction` tabs after the current one, counted in a circle.
pub open spec fn relative_place(window: WindowView, direction: int) -> int {
    (current_place(window) + direction) % (window.tab_ids.len() as int)
}

/// The place in a window from which tabs are counted.
pub fn current_index(state: &AppState, window_id: &str) -> (place: usize)
    ensures
        state@.windows.contains_key(window_id@) ==> place == current_place(
            state@.windows[window_id@],
        ),
        !state@.windows.contains_key(window_id@) ==> place == 0,
{
    match state.windows.get(window_id) {
        Some(window) => match &window.active_tab_id {
            Some(id) => match position_of(&window.tab_ids, id.as_str()) {
                Some(i) => {
                    proof {
                        lemma_first_index(window@.tab_ids, id@, i as int);
                    }
                    i
                },
                None => 0,
            },
            None => 0,
        },
        None => 0,
    }
}

/// `(a + d) mod n`, for a sum that may be negative.
fn step_in_circle(a: u64, d: i32, n: u64) -> (r: u64)
    requires
        0 < n <= 0x7fff_ffff,
        a < n,
    ensures
        r == (a + d) % (n as int),
        r < n,
{
    if d >= 0 {
        (a + d as u64) % n
    } else {
        let back: u64 = (-(d as i64)) as u64;
        let m: u64 = back % n;
        let r: u64 = (a + (n - m)) % n;
        proof {
            let q = back as int / n as int;
            assert(back == n * q + m) by {
                vstd::arithmetic::div_mod::lemma_fundamental_div_mod(back as int, n as int);
            }
            assert(a + (n - m) == (q + 1) * n + (a + d)) by (nonlinear_arith)
                requires
                    back == n * q + m,
                    d == -(back as int),
            ;
            vstd::arithmetic::div_mod::lemma_mod_multiples_vanish(q + 1, a + d, n as int);
        }
        r
    }
}

/// The tab `direction` places after the active tab of the window `window_id`,
/// counted in a circle. There is none in a window without tabs, or where there
/// is no such window.
pub fn relative_tab(state: &AppState, window_id: &str, direction: i32) -> (tab_id: Option<String>)
    requires
        state@.windows.contains_key(window_id@) ==> {
            let window = state@.windows[window_id@];
            &&& window.tab_ids.len() <= i32::MAX
            &&& i32::MIN <= current_place(window) + direction <= i32::MAX
        },
    ensures
        match tab_id {
            Some(id) => {
                let window = state@.windows[window_id@];
                &&& state@.windows.contains_key(window_id@)
                &&& window.tab_ids.len() > 0
                &&& id@ == window.tab_ids[relative_place(window, direction as int)]
            },
            None => !state@.windows.contains_key(window_id@)
                || state@.windows[window_id@].tab_ids.len() == 0,
        },
{
    match state.windows.get(window_id) {
        Some(window) => {
            if window.tab_ids.len() == 0 {
                return None;
            }
            let current: usize = current_index(state, window_id);
            proof {
                match window@.active_tab_id {
                    Some(id) => {
                        if window@.tab_ids.contains(id) {
                            lemma_has_first(window@.tab_ids, id);
                        }
                    },
                    None => {},
                }
            }
            let next: u64 = step_in_circle(current as u64, direction, window.tab_ids.len() as u64);
            assert(texts(window.tab_ids@)[next as int] == window.tab_ids@[next as int]@);
            Some(window.tab_ids[next as usize].clone())
        },
        None => None,
    }
}

/// What is to be done once a tab has been closed.
#[derive(Debug)]
pub enum AfterClose {
    /// Nothing: no window had it.
    Nothing,
    /// Show this tab.
    Show(String),
    /// Open a tab in this window, at this address, and show it.
    Open { window_id: String, url: String },
}

/// Decides what is to be done once a tab has been closed, given the window it
/// was taken out of and the tab that is active there: a window is not left
/// without a tab.
pub fn after_close(removed: Option<(String, Option<String>)>) -> (out: AfterClose)
    ensures
        match removed {
            None => out is Nothing,
            Some((_, Some(next))) => out matches AfterClose::Show(id) && id@ == next@,
            Some((window, None)) => out matches AfterClose::Open { window_id, url } && window_id@
                == window@ && url@ == NOTION_URL@,
        },
{
    match removed {
        None => AfterClose::Nothing,
        Some((window_id, next)) => match next {
            Some(id) => AfterClose::Show(id),
            None => AfterClose::Open { window_id, url: NOTION_URL.to_owned() },
        },
    }
}

/// Takes over the title and the address that a page tells of its tab, if the
/// caller is trusted and the address is the one that the page is at. Tells
/// whether it did.
pub fn update_tab_state(
    state: &mut AppState,
    trusted: bool,
    webview_url: &Option<String>,
    tab_id: &str,
    title: String,
    url: String,
) -> (accepted: bool)
    ensures
        accepted == (trusted && text_opt(*webview_url) == Some(url@)),
        final(state)@ == (if accepted {
            old(state)@.with_page(tab_id@, title@, url@)
        } else {
            old(state)@
        }),
{
    if !trusted {
        return false;
    }
    match webview_url {
        Some(actual) => {
            if !same_text(actual.as_str(), url.as_str()) {
                return false;
            }
        },
        None => {
            return false;
        },
    }
    state.update_tab(tab_id, title, url);
    true
}

/// Decides what a window command does, given whether its caller is trusted,
/// whether the window is there, and whether it is known to be maximized.
pub fn window_command(
    trusted: bool,
    action: &LotionAction,
    window_found: bool,
    maximized: Option<bool>,
) -> (op: WindowOp)
    ensures
        op == op_of(action@, trusted && window_found, maximized),
        !trusted ==> op is Nothing,
{
    window_op(action, trusted && window_found, maximized)
}

/// Whether `k` is the last place at or before [`MAX_EVENT_BYTES`] at which a
/// character begins or the text ends.
pub open spec fn last_boundary(bytes: Seq<u8>, k: int) -> bool {
    &&& 0 <= k <= MAX_EVENT_BYTES
    &&& is_char_boundary(bytes, k)
    &&& forall|j: int| k < j <= MAX_EVENT_BYTES ==> !#[trigger] is_char_boundary(bytes, j)
}

/// Where a longer text is cut.
pub open spec fn cut_place(bytes: Seq<u8>) -> int {
    choose|k: int| last_boundary(bytes, k)
}

/// What is kept of a network event that is cut: as many whole characters as its
/// first [`MAX_EVENT_BYTES`] bytes hold.
pub open spec fn event_head(event: Seq<char>) -> Seq<char> {
    decode_utf8(encode_utf8(event).subrange(0, cut_place(encode_utf8(event))))
}

/// What is logged of a network event: all of it, or its head and three dots
/// where it is longer.
pub open spec fn logged_event(event: Seq<char>) -> Seq<char> {
    if encode_utf8(event).len() > MAX_EVENT_BYTES {
        event_head(event) + "..."@
    } else {
        event
    }
}

/// A last boundary is the only one.
proof fn lemma_cut_place(bytes: Seq<u8>, k: int)
    requires
        last_boundary(bytes, k),
    ensures
        cut_place(bytes) == k,
{
    let c = cut_place(bytes);
    assert(last_boundary(bytes, c));
    if c < k {
        assert(!is_char_boundary(bytes, k));
    } else if k < c {
        assert(!is_char_boundary(bytes, c));
    }
}

/// The last boundary at or before `n`, where there is none between `n` and
/// [`MAX_EVENT_BYTES`].
pub proof fn lemma_has_last_boundary(bytes: Seq<u8>, n: int)
    requires
        vstd::utf8::valid_utf8(bytes),
        0 <= n <= MAX_EVENT_BYTES,
        forall|j: int| n < j <= MAX_EVENT_BYTES ==> !#[trigger] is_char_boundary(bytes, j),
    ensures
        last_boundary(bytes, cut_place(bytes)),
    decreases n,
{
    if is_char_boundary(bytes, n) {
        assert(last_boundary(bytes, n));
    } else {
        vstd::utf8::is_char_boundary_start_end_of_seq(bytes);
        lemma_has_last_boundary(bytes, n - 1);
    }
}

/// The head of an event that is cut is where the event begins. It has no more
/// than [`MAX_EVENT_BYTES`] bytes, and of an event in ASCII exactly as many.
pub proof fn lemma_event_head(event: Seq<char>)
    requires
        encode_utf8(event).len() > MAX_EVENT_BYTES,
    ensures
        event_head(event).is_prefix_of(event),
        encode_utf8(event_head(event)).len() == cut_place(encode_utf8(event)),
        encode_utf8(event_head(event)).len() <= MAX_EVENT_BYTES,
        is_ascii_chars(event) ==> event_head(event) == event.take(MAX_EVENT_BYTES as int)
            && encode_utf8(event_head(event)).len() == MAX_EVENT_BYTES,
{
    let bytes = encode_utf8(event);
    let k = cut_place(bytes);
    vstd::utf8::encode_utf8_valid_utf8(event);
    vstd::utf8::encode_utf8_decode_utf8(event);
    lemma_has_last_boundary(bytes, MAX_EVENT_BYTES as int);
    let head = bytes.subrange(0, k);
    let tail = bytes.subrange(k, bytes.len() as int);
    vstd::utf8::valid_utf8_split(bytes, k);
    vstd::utf8::decode_utf8_split(bytes, k);
    vstd::utf8::decode_utf8_encode_utf8(head);
    assert(event =~= decode_utf8(head) + decode_utf8(tail));
    assert(event_head(event) =~= event.subrange(0, event_head(event).len() as int));
    if is_ascii_chars(event) {
        vstd::utf8::is_ascii_chars_encode_utf8(event);
        assert(event[MAX_EVENT_BYTES as int] as u8 == bytes[MAX_EVENT_BYTES as int]);
        vstd::utf8::is_char_boundary_iff_not_is_continuation_byte(bytes, MAX_EVENT_BYTES as int);
        assert(last_boundary(bytes, MAX_EVENT_BYTES as int));
        lemma_cut_place(bytes, MAX_EVENT_BYTES as int);
        vstd::utf8::is_ascii_chars_encode_utf8(event_head(event));
        assert(event_head(event) =~= event.take(MAX_EVENT_BYTES as int));
    }
}

/// Cuts a network event to the length that is logged.
pub fn truncate_event(event: String) -> (out: String)
    ensures
        out@ == logged_event(event@),
        encode_utf8(event@).len() <= MAX_EVENT_BYTES ==> out@ == event@,
        encode_utf8(event@).len() > MAX_EVENT_BYTES ==> {
            &&& out@ == event_head(event@) + "..."@
            &&& event_head(event@).is_prefix_of(event@)
            &&& encode_utf8(event_head(event@)).len() <= MAX_EVENT_BYTES
            &&& is_ascii_chars(event@) ==> event_head(event@) == event@.take(
                MAX_EVENT_BYTES as int,
            ) && encode_utf8(event_head(event@)).len() == MAX_EVENT_BYTES
        },
        encode_utf8(out@).len() <= MAX_EVENT_BYTES + 3,
{
    if event.as_str().as_bytes().len() <= MAX_EVENT_BYTES {
        return event;
    }
    let ghost bytes = encode_utf8(event@);
    proof {
        vstd::utf8::encode_utf8_valid_utf8(event@);
        vstd::utf8::is_char_boundary_start_end_of_seq(bytes);
    }
    let mut k: usize = MAX_EVENT_BYTES;
    while !event.as_str().is_char_boundary(k)
        invariant
            bytes == encode_utf8(event@),
            is_char_boundary(bytes, 0),
            k <= MAX_EVENT_BYTES,
            forall|j: int| k < j <= MAX_EVENT_BYTES ==> !#[trigger] is_char_boundary(bytes, j),
        decreases k,
    {
        k -= 1;
    }
    let (head, _) = event.as_str().split_at(k);
    proof {
        assert(last_boundary(bytes, k as int));
        lemma_cut_place(bytes, k as int);
        vstd::utf8::encode_utf8_decode_utf8(head@);
        lemma_event_head(event@);
        lemma_encoded_with_dots(head@);
    }
    joined(head, "...")
}

/// Three dots take three bytes behind any text.
proof fn lemma_encoded_with_dots(head: Seq<char>)
    ensures
        encode_utf8(head + "..."@).len() == encode_utf8(head).len() + 3,
{
    let dots = "..."@;
    reveal_strlit("...");
    let a = encode_utf8(head);
    let b = encode_utf8(dots);
    vstd::utf8::is_ascii_chars_encode_utf8(dots);
    vstd::utf8::encode_utf8_valid_utf8(head);
    vstd::utf8::encode_utf8_valid_utf8(dots);
    vstd::utf8::encode_utf8_decode_utf8(head);
    vstd::utf8::encode_utf8_decode_utf8(dots);
    vstd::utf8::valid_utf8_concat(a, b);
    assert((a + b).subrange(0, a.len() as int) =~= a);
    assert((a + b).subrange(a.len() as int, (a + b).len() as int) =~= b);
    assert((a + b)[a.len() as int] == dots[0] as u8);
    vstd::utf8::is_char_boundary_iff_not_is_continuation_byte(a + b, a.len() as int);
    vstd::utf8::decode_utf8_split(a + b, a.len() as int);
    vstd::utf8::decode_utf8_encode_utf8(a + b);
}

/// The line that is logged of a network event that a page tells, if the caller
/// is trusted.
pub fn log_network_event(trusted: bool, event: String) -> (line: Option<String>)
    ensures
        line is Some <==> trusted,
        line matches Some(text) ==> {
            &&& text@ == "[lotion-net] "@ + logged_event(event@)
            &&& encode_utf8(event@).len() <= MAX_EVENT_BYTES ==> text@ == "[lotion-net] "@ + event@
            &&& encode_utf8(event@).len() > MAX_EVENT_BYTES ==> {
                &&& text@ == "[lotion-net] "@ + (event_head(event@) + "..."@)
                &&& event_head(event@).is_prefix_of(event@)
                &&& encode_utf8(event_head(event@)).len() <= MAX_EVENT_BYTES
                &&& is_ascii_chars(event@) ==> event_head(event@) == event@.take(
                    MAX_EVENT_BYTES as int,
                ) && encode_utf8(event_head(event@)).len() == MAX_EVENT_BYTES
            }
        },
{
    if !trusted {
        return None;
    }
    let cut = truncate_event(event);
    Some(joined("[lotion-net] ", cut.as_str()))
}

} // verus!
