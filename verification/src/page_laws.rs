//! What pages may do and what is told of them, said of their addresses, of the
//! answers of the policy and of what they tell.

use crate::commands::{
    cut_place, event_head, last_boundary, lemma_event_head, lemma_has_last_boundary, logged_event,
};
use crate::origin::{
    from_application, from_notion, notion_host, notion_url, parsed_url, parts_view, trusted,
    UrlParts, UrlView,
};
use crate::tab_controller::{
    action_of, navigation_next, navigation_start, op_of, popup_next, refusal, shortcuts_script,
    url_error, ActionView, LotionAction, NavigationStep, NavigationView, PopupStep,
    SHORTCUTS_CLOSE, SHORTCUTS_HEAD, SHORTCUTS_SWITCH, SHORTCUTS_TAIL,
};
use crate::text::text_opt;
use vstd::prelude::*;
use vstd::utf8::{decode_utf8, encode_utf8, is_char_boundary};

verus! {

/// The hosts of Notion are its two domains and all that lies below them: a host
/// is one exactly where it is a domain or something with a dot and a domain
/// behind it.
pub proof fn law_hosts_of_notion(host: Seq<char>, below: Seq<char>)
    ensures
        notion_host("notion.so"@),
        notion_host("notion.com"@),
        notion_host(below + ".notion.so"@),
        notion_host(below + ".notion.com"@),
        notion_host(host) ==> {
            ||| host == "notion.so"@
            ||| host == "notion.com"@
            ||| exists|p: Seq<char>| host == #[trigger] (p + ".notion.so"@)
            ||| exists|p: Seq<char>| host == #[trigger] (p + ".notion.com"@)
        },
{
    let so = ".notion.so"@;
    let com = ".notion.com"@;
    let a = below + so;
    let b = below + com;
    assert(so =~= a.subrange(a.len() - so.len(), a.len() as int));
    assert(com =~= b.subrange(b.len() - com.len(), b.len() as int));
    if so.is_suffix_of(host) {
        assert(host =~= host.take(host.len() - so.len()) + so);
    }
    if com.is_suffix_of(host) {
        assert(host =~= host.take(host.len() - com.len()) + com);
    }
}

/// What lies below a host of Notion is a host of Notion.
pub proof fn law_hosts_below_hosts_of_notion(host: Seq<char>, below: Seq<char>)
    requires
        notion_host(host),
    ensures
        notion_host(below + "."@ + host),
{
    let so = ".notion.so"@;
    let com = ".notion.com"@;
    let whole = below + "."@ + host;
    reveal_strlit(".notion.so");
    reveal_strlit("notion.so");
    reveal_strlit(".notion.com");
    reveal_strlit("notion.com");
    reveal_strlit(".");
    let n = whole.len();
    if host == "notion.so"@ || so.is_suffix_of(host) {
        assert(so =~= whole.subrange(n - so.len(), n as int));
    } else {
        assert(com =~= whole.subrange(n - com.len(), n as int));
    }
}

/// A page over https from a host of Notion is trusted, whichever host of Notion it
/// is: the two domains, and everything below them.
pub proof fn law_notion_is_trusted(below: Seq<char>)
    ensures
        trusted(Some(UrlView { scheme: "https"@, host: Some("notion.so"@) })),
        trusted(Some(UrlView { scheme: "https"@, host: Some("notion.com"@) })),
        trusted(Some(UrlView { scheme: "https"@, host: Some(below + ".notion.so"@) })),
        trusted(Some(UrlView { scheme: "https"@, host: Some(below + ".notion.com"@) })),
{
    law_hosts_of_notion(Seq::empty(), below);
}

/// The application's own pages are trusted, at each of their addresses.
pub proof fn law_application_is_trusted()
    ensures
        trusted(Some(UrlView { scheme: "tauri"@, host: Some("localhost"@) })),
        trusted(Some(UrlView { scheme: "wry"@, host: Some("localhost"@) })),
        trusted(Some(UrlView { scheme: "http"@, host: Some("tauri.localhost"@) })),
        trusted(Some(UrlView { scheme: "https"@, host: Some("tauri.localhost"@) })),
{
}

/// No other page is trusted, and none whose address or host is not known: a
/// trusted page comes over https from a domain of Notion or from below one, or is
/// the application's own.
pub proof fn law_nothing_else_is_trusted(url: UrlView)
    ensures
        !trusted(None),
        url.host is None ==> !trusted(Some(url)),
        trusted(Some(url)) && url.scheme != "https"@ ==> {
            ||| (url.scheme == "tauri"@ || url.scheme == "wry"@) && url.host == Some("localhost"@)
            ||| url.scheme == "http"@ && url.host == Some("tauri.localhost"@)
        },
        trusted(Some(url)) && url.scheme == "https"@ ==> {
            ||| url.host == Some("tauri.localhost"@)
            ||| url.host == Some("notion.so"@)
            ||| url.host == Some("notion.com"@)
            ||| exists|p: Seq<char>| url.host->0 == #[trigger] (p + ".notion.so"@)
            ||| exists|p: Seq<char>| url.host->0 == #[trigger] (p + ".notion.com"@)
        },
{
    reveal_strlit("https");
    reveal_strlit("http");
    reveal_strlit("tauri");
    reveal_strlit("wry");
    assert("tauri"@[0] == 't');
    assert("https"@[0] == 'h');
    if url.host is Some {
        law_hosts_of_notion(url.host->0, Seq::empty());
    }
}

/// A page that counts as one from Notion is one over https from a host of Notion,
/// and each of these counts as one; it is trusted.
pub proof fn law_pages_from_notion(url: Seq<char>, scheme: Seq<char>, host: Option<Seq<char>>)
    ensures
        parsed_url(url) == Ok::<(Seq<char>, Option<Seq<char>>), Seq<char>>((scheme, host)) ==> {
            &&& notion_url(url) <==> scheme == "https"@ && host is Some && notion_host(host->0)
            &&& notion_url(url) <==> from_notion((UrlView { scheme, host }))
            &&& notion_url(url) ==> trusted(Some(UrlView { scheme, host }))
        },
        parsed_url(url) is Err ==> !notion_url(url),
{
}

/// A page is either from Notion or from the application, never from both.
pub proof fn law_origins_are_apart(url: UrlView)
    ensures
        !(from_notion(url) && from_application(url)),
        trusted(Some(url)) <==> from_notion(url) || from_application(url),
{
    if from_notion(url) && from_application(url) {
        let host = url.host->0;
        reveal_strlit("https");
        reveal_strlit("tauri");
        reveal_strlit("wry");
        reveal_strlit("tauri.localhost");
        reveal_strlit("localhost");
        reveal_strlit("notion.so");
        reveal_strlit("notion.com");
        reveal_strlit(".notion.so");
        reveal_strlit(".notion.com");
        assert("https"@[0] == 'h');
        assert("tauri"@[0] == 't');
        assert("wry"@.len() == 3);
        assert(host == "tauri.localhost"@);
        assert(host[14] == 't');
        assert(host.len() == 15);
        if ".notion.so"@.is_suffix_of(host) {
            assert(host.subrange(5, 15)[9] == 'o');
        }
        if ".notion.com"@.is_suffix_of(host) {
            assert(host.subrange(4, 15)[10] == 'm');
        }
    }
}

/// A tab is made exactly where the policy allows its address, its window is there
/// and its address can be read. Where the policy does not allow the address, that
/// is what is told, with the address; else, where the window is missing, that is,
/// with its id; else the error in the address.
pub proof fn law_why_a_tab_is_refused(
    allowed: bool,
    found: bool,
    window: Seq<char>,
    url: Seq<char>,
    unreadable: Option<Seq<char>>,
)
    ensures
        refusal(allowed, found, window, url, unreadable) is None <==> allowed && found
            && unreadable is None,
        !allowed ==> {
            let message = refusal(allowed, found, window, url, unreadable)->0;
            &&& "Zero-Trust Policy Blocked: "@.is_prefix_of(message)
            &&& url.is_suffix_of(message)
            &&& message.len() == "Zero-Trust Policy Blocked: "@.len() + url.len()
        },
        allowed && !found ==> refusal(allowed, found, window, url, unreadable) == Some(
            "Window "@ + window + " not found"@,
        ),
        allowed && found ==> refusal(allowed, found, window, url, unreadable) == unreadable,
{
    let head = "Zero-Trust Policy Blocked: "@;
    let message = head + url;
    assert(head =~= message.subrange(0, head.len() as int));
    assert(url =~= message.subrange(message.len() - url.len(), message.len() as int));
}

/// An address is in error exactly where it cannot be parsed, with what the parser
/// tells.
pub proof fn law_address_errors(url: Seq<char>)
    ensures
        url_error(url) is None <==> parsed_url(url) is Ok,
        parsed_url(url) matches Err(message) ==> url_error(url) == Some(message),
{
}

/// An address of the action scheme asks for the action of the name behind the
/// scheme, whatever the name; no other address asks for one.
pub proof fn law_actions_go_by_name(name: Seq<char>, url: Seq<char>)
    ensures
        action_of("lotion-action://"@ + "window:close"@) == Some(ActionView::Close),
        action_of("lotion-action://"@ + "window:minimize"@) == Some(ActionView::Minimize),
        action_of("lotion-action://"@ + "window:maximize"@) == Some(ActionView::Maximize),
        action_of("lotion-action://"@ + "tab:new"@) == Some(ActionView::NewTab),
        name != "window:close"@ && name != "window:minimize"@ && name != "window:maximize"@ && name
            != "tab:new"@ ==> action_of("lotion-action://"@ + name) == Some(
            ActionView::Unknown(name),
        ),
        action_of(url) is Some ==> exists|n: Seq<char>| url == #[trigger] ("lotion-action://"@ + n),
{
    let scheme = "lotion-action://"@;
    assert forall|n: Seq<char>| scheme.is_prefix_of(#[trigger] (scheme + n)) && (scheme + n).skip(
        scheme.len() as int,
    ) == n by {
        assert(scheme =~= (scheme + n).subrange(0, scheme.len() as int));
        assert((scheme + n).skip(scheme.len() as int) =~= n);
    }
    let close = "window:close"@;
    let minimize = "window:minimize"@;
    let maximize = "window:maximize"@;
    let tab = "tab:new"@;
    reveal_strlit("window:close");
    reveal_strlit("window:minimize");
    reveal_strlit("window:maximize");
    reveal_strlit("tab:new");
    assert(close.len() == 12 && minimize.len() == 15 && maximize.len() == 15 && tab.len() == 7);
    assert(minimize[8] == 'i' && maximize[8] == 'a');
    assert(scheme.is_prefix_of(scheme + close));
    assert(scheme.is_prefix_of(scheme + minimize));
    assert(scheme.is_prefix_of(scheme + maximize));
    assert(scheme.is_prefix_of(scheme + tab));
    assert(scheme.is_prefix_of(scheme + name));
    if action_of(url) is Some {
        assert(url =~= scheme + url.skip(scheme.len() as int));
    }
}

/// Where a page goes is decided by two questions at most, the one on the inside
/// first: a page goes where it asks exactly where it asks for no action and is
/// allowed inside; where it is not, it is opened outside exactly where it is
/// allowed there. An action is run whatever the policy says. What is decided
/// stays decided.
pub proof fn law_policy_is_asked_in_order(
    url: Seq<char>,
    inside: bool,
    outside: bool,
    more: bool,
)
    ensures
        ({
            let start = navigation_start(url);
            let second = navigation_next(start, inside);
            let end = navigation_next(second, outside);
            &&& action_of(url) is None ==> start is AskInternal
            &&& action_of(url) is None ==> (second is Allow <==> inside)
            &&& action_of(url) is None ==> (second is AskExternal <==> !inside)
            &&& end is Allow <==> action_of(url) is None && inside
            &&& end is OpenExternal <==> action_of(url) is None && !inside && outside
            &&& end is Block <==> action_of(url) is None && !inside && !outside
            &&& action_of(url) is Some ==> start == NavigationView::Action(action_of(url)->0)
                && end == start
            &&& navigation_next(end, more) == end
        }),
{
}

/// What becomes of a popup is decided by two questions at most. One that does not
/// belong into the system browser becomes a tab, without a second question; one
/// that does is opened there exactly where that is allowed. What is decided stays
/// decided.
pub proof fn law_popups_are_decided(route: bool, outside: bool, more: bool)
    ensures
        ({
            let second = popup_next(PopupStep::AskRoute, route);
            let end = popup_next(second, outside);
            &&& second is OpenTab <==> !route
            &&& second is AskExternal <==> route
            &&& end is OpenTab <==> !route
            &&& end is OpenExternal <==> route && outside
            &&& end is Block <==> route && !outside
            &&& popup_next(end, more) == end
        }),
{
}

/// An action does to a window what it is called, a window that is maximized is
/// made smaller again, and nothing is done to a window that is not there or by an
/// action that is not known, whatever its name.
pub proof fn law_actions_do_what_they_are_called(
    action: ActionView,
    maximized: Option<bool>,
    name: Seq<char>,
)
    ensures
        op_of(action, false, maximized) is Nothing,
        op_of(ActionView::Unknown(name), true, maximized) is Nothing,
        op_of(ActionView::Close, true, maximized) is Close,
        op_of(ActionView::Minimize, true, maximized) is Minimize,
        op_of(ActionView::NewTab, true, maximized) is NewTab,
        op_of(ActionView::Maximize, true, maximized) is Unmaximize <==> maximized == Some(true),
        op_of(ActionView::Maximize, true, maximized) is Maximize <==> maximized != Some(true),
{
}

/// The shortcut script names the window where it opens a tab, the tab where it
/// closes one, and the window again where it switches, each of them whole,
/// whatever they are; the rest of it is the same for all.
pub proof fn law_shortcuts_name_tab_and_window(tab: Seq<char>, window: Seq<char>)
    ensures
        ({
            let script = shortcuts_script(tab, window);
            let opens = SHORTCUTS_HEAD@.len() as int;
            let closes = opens + window.len() + SHORTCUTS_CLOSE@.len();
            let switches = closes + tab.len() + SHORTCUTS_SWITCH@.len();
            &&& script.len() == shortcuts_script(Seq::empty(), Seq::empty()).len() + tab.len() + 2
                * window.len()
            &&& script.subrange(0, opens) == SHORTCUTS_HEAD@
            &&& script.subrange(opens, opens + window.len()) == window
            &&& script.subrange(opens + window.len(), closes) == SHORTCUTS_CLOSE@
            &&& script.subrange(closes, closes + tab.len()) == tab
            &&& script.subrange(closes + tab.len(), switches) == SHORTCUTS_SWITCH@
            &&& script.subrange(switches, switches + window.len()) == window
            &&& script.skip(switches + window.len()) == SHORTCUTS_TAIL@
        }),
{
    let script = shortcuts_script(tab, window);
    let opens = SHORTCUTS_HEAD@.len() as int;
    let closes = opens + window.len() + SHORTCUTS_CLOSE@.len();
    let switches = closes + tab.len() + SHORTCUTS_SWITCH@.len();
    assert(script.subrange(0, opens) =~= SHORTCUTS_HEAD@);
    assert(script.subrange(opens, opens + window.len()) =~= window);
    assert(script.subrange(opens + window.len(), closes) =~= SHORTCUTS_CLOSE@);
    assert(script.subrange(closes, closes + tab.len()) =~= tab);
    assert(script.subrange(closes + tab.len(), switches) =~= SHORTCUTS_SWITCH@);
    assert(script.subrange(switches, switches + window.len()) =~= window);
    assert(script.skip(switches + window.len()) =~= SHORTCUTS_TAIL@);
}

/// Text is encoded piece by piece, and where one piece ends the next character
/// begins.
proof fn lemma_encoded_in_pieces(a: Seq<char>, b: Seq<char>)
    ensures
        encode_utf8(a + b) == encode_utf8(a) + encode_utf8(b),
        is_char_boundary(encode_utf8(a + b), encode_utf8(a).len() as int),
{
    let x = encode_utf8(a);
    let y = encode_utf8(b);
    vstd::utf8::encode_utf8_valid_utf8(a);
    vstd::utf8::encode_utf8_valid_utf8(b);
    vstd::utf8::encode_utf8_decode_utf8(a);
    vstd::utf8::encode_utf8_decode_utf8(b);
    vstd::utf8::valid_utf8_concat(x, y);
    assert((x + y).subrange(0, x.len() as int) =~= x);
    assert((x + y).subrange(x.len() as int, (x + y).len() as int) =~= y);
    vstd::utf8::is_char_boundary_start_end_of_seq(x + y);
    if y.len() > 0 {
        vstd::utf8::is_char_boundary_start_end_of_seq(y);
        vstd::utf8::is_char_boundary_iff_not_is_continuation_byte(y, 0);
        assert((x + y)[x.len() as int] == y[0]);
        vstd::utf8::is_char_boundary_iff_not_is_continuation_byte(x + y, x.len() as int);
    }
    vstd::utf8::decode_utf8_split(x + y, x.len() as int);
    vstd::utf8::decode_utf8_encode_utf8(x + y);
}

/// An event of up to 512 bytes is logged whole. Of a longer one, its beginning is
/// logged, followed by three dots: a beginning of up to 512 bytes, and no longer
/// one has so few.
pub proof fn law_events_are_cut_no_shorter_than_needed(event: Seq<char>, n: int)
    requires
        0 <= n <= event.len(),
    ensures
        encode_utf8(event).len() <= 512 ==> logged_event(event) == event,
        encode_utf8(event).len() > 512 ==> {
            let kept = logged_event(event).len() - 3;
            &&& 0 <= kept < event.len()
            &&& logged_event(event) == event.take(kept) + "..."@
            &&& encode_utf8(event.take(kept)).len() <= 512
            &&& encode_utf8(event.take(n)).len() <= 512 ==> n <= kept
        },
{
    if encode_utf8(event).len() > 512 {
        reveal_strlit("...");
        let bytes = encode_utf8(event);
        let head = event_head(event);
        lemma_event_head(event);
        let kept = logged_event(event).len() - 3;
        assert(kept == head.len());
        assert(head =~= event.take(kept));
        if kept >= event.len() {
            assert(head =~= event);
        }
        let p = event.take(n);
        assert(p + event.skip(n) =~= event);
        lemma_encoded_in_pieces(p, event.skip(n));
        if encode_utf8(p).len() <= 512 && n > kept {
            vstd::utf8::encode_utf8_valid_utf8(event);
            lemma_has_last_boundary(bytes, 512);
            let k = cut_place(bytes);
            assert(last_boundary(bytes, k));
            assert(encode_utf8(p).len() <= k);
            let q = event.subrange(kept, n);
            assert(head + q =~= p);
            lemma_encoded_in_pieces(head, q);
            assert(encode_utf8(q).len() == 0);
            vstd::utf8::encode_utf8_decode_utf8(q);
            assert(encode_utf8(q) =~= Seq::empty());
            assert(decode_utf8(Seq::<u8>::empty()).len() == 0);
            assert(q.len() == 0);
        }
    }
}

/// What is said of the view of an address, an action or a step is said of all that
/// it holds.
pub proof fn law_page_views_hold_every_part(
    a: (UrlParts, LotionAction, NavigationStep),
    b: (UrlParts, LotionAction, NavigationStep),
    o: Option<UrlParts>,
)
    ensures
        a.0@ == b.0@ <==> a.0.scheme@ == b.0.scheme@ && text_opt(a.0.host) == text_opt(b.0.host),
        o matches Some(u) ==> parts_view(o) == Some(u@),
        o is None ==> parts_view(o) is None,
        a.1@ == b.1@ <==> {
            &&& a.1 is Close <==> b.1 is Close
            &&& a.1 is Minimize <==> b.1 is Minimize
            &&& a.1 is Maximize <==> b.1 is Maximize
            &&& a.1 is NewTab <==> b.1 is NewTab
            &&& a.1 is Unknown && b.1 is Unknown ==> a.1->Unknown_0@ == b.1->Unknown_0@
        },
        a.2@ == b.2@ <==> {
            &&& a.2 is Action <==> b.2 is Action
            &&& a.2 is AskInternal <==> b.2 is AskInternal
            &&& a.2 is AskExternal <==> b.2 is AskExternal
            &&& a.2 is Allow <==> b.2 is Allow
            &&& a.2 is OpenExternal <==> b.2 is OpenExternal
            &&& a.2 is Action && b.2 is Action ==> a.2->Action_0@ == b.2->Action_0@
        },
        a.1 is Close <==> a.1@ is Close,
        a.1 is Minimize <==> a.1@ is Minimize,
        a.1 is Maximize <==> a.1@ is Maximize,
        a.1 is NewTab <==> a.1@ is NewTab,
        a.2 is Allow <==> a.2@ is Allow,
        a.2 is OpenExternal <==> a.2@ is OpenExternal,
        a.2 is Block <==> a.2@ is Block,
        a.2 is AskInternal <==> a.2@ is AskInternal,
        a.2 is AskExternal <==> a.2@ is AskExternal,
{
}

} // verus!
