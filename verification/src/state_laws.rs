//! What the operations on windows and tabs come to, said of the lists, the tabs
//! and the windows before and after.

use crate::commands::{current_place, relative_place};
use crate::state::{
    known_pages, known_tabs, page_views, successor, tab_views, AppState, AppView, TabState,
    TabView, WindowState, WindowView,
};
use crate::tab_controller::{after_page, TabController};
use crate::tab_manager::{new_tab_view, planned_ids};
use crate::text::{
    blank, first_index, lemma_first_index, lemma_has_first, text_opt, texts, white_space,
};
use crate::window_controller::{
    active_again, after_event, reaction_to, seen_after_restore, with_main_window, WindowEvent,
};
use vstd::prelude::*;

verus! {

/// How many of the tabs `ids` are known.
pub open spec fn known_count(tabs: Map<Seq<char>, TabView>, ids: Seq<Seq<char>>) -> int
    decreases ids.len(),
{
    if ids.len() == 0 {
        0
    } else if tabs.contains_key(ids.last()) {
        known_count(tabs, ids.drop_last()) + 1
    } else {
        known_count(tabs, ids.drop_last())
    }
}

/// No list has more known tabs than tabs, and a longer one has no fewer.
proof fn lemma_known_count(tabs: Map<Seq<char>, TabView>, ids: Seq<Seq<char>>, i: int)
    requires
        0 <= i <= ids.len(),
    ensures
        0 <= known_count(tabs, ids.take(i)) <= i,
        known_count(tabs, ids.take(i)) <= known_count(tabs, ids),
        i < ids.len() && tabs.contains_key(ids[i]) ==> known_count(tabs, ids.take(i))
            < known_count(tabs, ids),
        (forall|j: int| 0 <= j < i ==> tabs.contains_key(#[trigger] ids[j])) ==> known_count(
            tabs,
            ids.take(i),
        ) == i,
    decreases ids.len(),
{
    if ids.len() == 0 {
        assert(ids.take(i) =~= ids);
    } else if i < ids.len() {
        let less = ids.drop_last();
        assert(less.take(i) =~= ids.take(i));
        lemma_known_count(tabs, less, i);
        assert forall|j: int| 0 <= j < i implies #[trigger] less[j] == ids[j] by {}
        if i == less.len() {
            assert(ids.take(i) =~= less);
        } else {
            assert(less[i] == ids[i]);
        }
    } else {
        let less = ids.drop_last();
        assert(ids.take(i) =~= ids);
        lemma_known_count(tabs, less, less.len() as int);
        assert(less.take(less.len() as int) =~= less);
        assert forall|j: int| 0 <= j < less.len() implies #[trigger] less[j] == ids[j] by {}
        if forall|j: int| 0 <= j < i ==> tabs.contains_key(#[trigger] ids[j]) {
            assert forall|j: int| 0 <= j < less.len() implies tabs.contains_key(
                #[trigger] less[j],
            ) by {
                assert(tabs.contains_key(ids[j]));
            }
            assert(tabs.contains_key(ids[ids.len() - 1]));
        }
    }
}

/// The pages of a list of tabs are those of all its known tabs and no others:
/// each known tab has its id and its address at the place that is left to it by
/// the known tabs before it. Where all are known, there is a page at each place.
pub proof fn law_every_known_tab_has_its_page(
    tabs: Map<Seq<char>, TabView>,
    ids: Seq<Seq<char>>,
)
    ensures
        known_pages(tabs, ids).len() == known_count(tabs, ids),
        forall|i: int|
            #![trigger ids[i]]
            0 <= i < ids.len() && tabs.contains_key(ids[i]) ==> {
                &&& 0 <= known_count(tabs, ids.take(i)) < known_pages(tabs, ids).len()
                &&& known_pages(tabs, ids)[known_count(tabs, ids.take(i))] == (
                    ids[i],
                    tabs[ids[i]].url,
                )
                &&& known_pages(tabs, ids).contains((ids[i], tabs[ids[i]].url))
            },
        (forall|i: int| 0 <= i < ids.len() ==> tabs.contains_key(#[trigger] ids[i])) ==> {
            &&& known_pages(tabs, ids).len() == ids.len()
            &&& forall|i: int|
                0 <= i < ids.len() ==> #[trigger] known_pages(tabs, ids)[i] == (
                    ids[i],
                    tabs[ids[i]].url,
                )
        },
    decreases ids.len(),
{
    reveal(Seq::filter_map);
    let pages = known_pages(tabs, ids);
    if ids.len() > 0 {
        let less = ids.drop_last();
        let before = known_pages(tabs, less);
        law_every_known_tab_has_its_page(tabs, less);
        assert forall|i: int|
            #![trigger ids[i]]
            0 <= i < ids.len() && tabs.contains_key(ids[i]) implies {
            &&& 0 <= known_count(tabs, ids.take(i)) < pages.len()
            &&& pages[known_count(tabs, ids.take(i))] == (ids[i], tabs[ids[i]].url)
            &&& pages.contains((ids[i], tabs[ids[i]].url))
        } by {
            lemma_known_count(tabs, ids, i);
            if i < less.len() {
                assert(less[i] == ids[i]);
                assert(less.take(i) =~= ids.take(i));
            } else {
                assert(ids.take(i) =~= less);
            }
        }
    }
    if forall|i: int| 0 <= i < ids.len() ==> tabs.contains_key(#[trigger] ids[i]) {
        lemma_known_count(tabs, ids, ids.len() as int);
        assert(ids.take(ids.len() as int) =~= ids);
        assert forall|i: int| 0 <= i < ids.len() implies #[trigger] pages[i] == (
            ids[i],
            tabs[ids[i]].url,
        ) by {
            lemma_known_count(tabs, ids, i);
            assert(tabs.contains_key(ids[i]));
        }
    }
}

/// The tabs that are told of a list are all its known tabs and no others, each at
/// the place that is left to it by the known tabs before it. Where all are known,
/// there is a tab at each place.
pub proof fn law_every_known_tab_is_told(tabs: Map<Seq<char>, TabView>, ids: Seq<Seq<char>>)
    ensures
        known_tabs(tabs, ids).len() == known_count(tabs, ids),
        forall|i: int|
            #![trigger ids[i]]
            0 <= i < ids.len() && tabs.contains_key(ids[i]) ==> {
                &&& 0 <= known_count(tabs, ids.take(i)) < known_tabs(tabs, ids).len()
                &&& known_tabs(tabs, ids)[known_count(tabs, ids.take(i))] == tabs[ids[i]]
                &&& known_tabs(tabs, ids).contains(tabs[ids[i]])
            },
        (forall|i: int| 0 <= i < ids.len() ==> tabs.contains_key(#[trigger] ids[i])) ==> {
            &&& known_tabs(tabs, ids).len() == ids.len()
            &&& forall|i: int|
                0 <= i < ids.len() ==> #[trigger] known_tabs(tabs, ids)[i] == tabs[ids[i]]
        },
    decreases ids.len(),
{
    reveal(Seq::filter_map);
    let told = known_tabs(tabs, ids);
    if ids.len() > 0 {
        let less = ids.drop_last();
        law_every_known_tab_is_told(tabs, less);
        assert forall|i: int|
            #![trigger ids[i]]
            0 <= i < ids.len() && tabs.contains_key(ids[i]) implies {
            &&& 0 <= known_count(tabs, ids.take(i)) < told.len()
            &&& told[known_count(tabs, ids.take(i))] == tabs[ids[i]]
            &&& told.contains(tabs[ids[i]])
        } by {
            lemma_known_count(tabs, ids, i);
            if i < less.len() {
                assert(less[i] == ids[i]);
                assert(less.take(i) =~= ids.take(i));
            } else {
                assert(ids.take(i) =~= less);
            }
        }
    }
    if forall|i: int| 0 <= i < ids.len() ==> tabs.contains_key(#[trigger] ids[i]) {
        lemma_known_count(tabs, ids, ids.len() as int);
        assert(ids.take(ids.len() as int) =~= ids);
        assert forall|i: int| 0 <= i < ids.len() implies #[trigger] told[i] == tabs[ids[i]] by {
            lemma_known_count(tabs, ids, i);
            assert(tabs.contains_key(ids[i]));
        }
    }
}

/// Where the active tab of a window is taken out, the tab behind it becomes the
/// active one; where there is none behind it, the tab before it; and where it was
/// the only one, none. The tab that becomes active is marked.
pub proof fn law_closing_moves_on_to_the_neighbour(s: AppView, w: Seq<char>, i: int)
    requires
        s.windows.contains_key(w),
        0 <= i < s.windows[w].tab_ids.len(),
        s.windows[w].active_tab_id == Some(s.windows[w].tab_ids[i]),
    ensures
        ({
            let ids = s.windows[w].tab_ids;
            let t = s.without_tab_at(w, i);
            let next = t.windows[w].active_tab_id;
            &&& successor(s.windows[w], i) == next
            &&& i + 1 < ids.len() ==> next == Some(ids[i + 1])
            &&& i + 1 == ids.len() && i > 0 ==> next == Some(ids[i - 1])
            &&& ids.len() == 1 ==> next is None
            &&& next is Some && next != Some(ids[i]) && s.tabs.contains_key(next->0)
                ==> t.tabs.contains_key(next->0) && t.tabs[next->0].is_active
        }),
{
    let ids = s.windows[w].tab_ids;
    let rest = ids.remove(i);
    if rest.len() > 0 {
        assert(rest.contains(rest.last()));
        if i < rest.len() {
            assert(rest.contains(rest[i]));
        }
    }
}

/// Where a tab that is not the active one is taken out, the active one stays.
pub proof fn law_closing_another_tab_keeps_the_active_one(s: AppView, w: Seq<char>, i: int)
    requires
        s.windows.contains_key(w),
        0 <= i < s.windows[w].tab_ids.len(),
        s.windows[w].active_tab_id != Some(s.windows[w].tab_ids[i]),
    ensures
        successor(s.windows[w], i) == s.windows[w].active_tab_id,
        s.without_tab_at(w, i).windows[w].active_tab_id == s.windows[w].active_tab_id,
{
}

/// Taking out the tab at place `i` of a window moves the tabs behind it up by one
/// and leaves those before it where they are. The tab is known no more; of the
/// other tabs of the window only the marks change, to those of the active tab;
/// all other tabs, all other windows, the rest of the window and the focus stay.
pub proof fn law_taking_out_closes_the_gap(s: AppView, w: Seq<char>, i: int)
    requires
        s.windows.contains_key(w),
        0 <= i < s.windows[w].tab_ids.len(),
    ensures
        ({
            let ids = s.windows[w].tab_ids;
            let t = s.without_tab_at(w, i);
            let rest = t.windows[w].tab_ids;
            &&& rest.len() + 1 == ids.len()
            &&& forall|j: int| 0 <= j < i ==> #[trigger] rest[j] == ids[j]
            &&& forall|j: int| i <= j < rest.len() ==> #[trigger] rest[j] == ids[j + 1]
            &&& t.windows[w] == (WindowView {
                tab_ids: rest,
                active_tab_id: t.windows[w].active_tab_id,
                ..s.windows[w]
            })
            &&& t.windows.dom() == s.windows.dom()
            &&& forall|v: Seq<char>| v != w ==> #[trigger] t.windows[v] == s.windows[v]
            &&& t.focused_window_id == s.focused_window_id
            &&& forall|x: Seq<char>| #[trigger]
                t.tabs.contains_key(x) <==> s.tabs.contains_key(x) && x != ids[i]
            &&& forall|x: Seq<char>| #[trigger]
                t.tabs.contains_key(x) ==> t.tabs[x] == (TabView {
                    is_active: t.tabs[x].is_active,
                    ..s.tabs[x]
                })
            &&& forall|x: Seq<char>| #[trigger]
                t.tabs.contains_key(x) && rest.contains(x) ==> (t.tabs[x].is_active
                    <==> t.windows[w].active_tab_id == Some(x))
            &&& forall|x: Seq<char>| #[trigger]
                t.tabs.contains_key(x) && !ids.contains(x) ==> t.tabs[x] == s.tabs[x]
        }),
{
    let ids = s.windows[w].tab_ids;
    let t = s.without_tab_at(w, i);
    let rest = ids.remove(i);
    assert(t.windows.dom() =~= s.windows.dom());
    assert forall|x: Seq<char>| #[trigger]
        t.tabs.contains_key(x) && !ids.contains(x) implies t.tabs[x] == s.tabs[x] by {
        if rest.contains(x) {
            let j = rest.index_of(x);
            assert(rest[j] == x);
            assert(ids[if j < i { j } else { j + 1 }] == x);
        }
    }
}

/// A tab is taken out at the first place at which its window lists it, and the
/// tab that is active next is the one that is active then.
pub proof fn law_a_tab_is_taken_out_at_its_first_place(
    s: AppView,
    w: Seq<char>,
    id: Seq<char>,
    i: int,
)
    requires
        s.windows.contains_key(w),
        0 <= i < s.windows[w].tab_ids.len(),
        s.windows[w].tab_ids[i] == id,
        forall|k: int| 0 <= k < i ==> #[trigger] s.windows[w].tab_ids[k] != id,
    ensures
        first_index(s.windows[w].tab_ids, id) == i,
        s.without_tab(w, id) == s.without_tab_at(w, i),
        s.next_active(w, id) == s.without_tab_at(w, i).windows[w].active_tab_id,
{
    lemma_first_index(s.windows[w].tab_ids, id, i);
}

/// Adding a tab puts a new id behind the others and leaves a list that has the id
/// as it is. The tab is kept as it was given, but active, and is the active one;
/// the other tabs of the window are not. All other tabs, all other windows, the
/// rest of the window and the focus stay.
pub proof fn law_adding_a_tab_changes_no_more(s: AppView, w: Seq<char>, tab: TabView)
    requires
        s.windows.contains_key(w),
    ensures
        ({
            let ids = s.windows[w].tab_ids;
            let t = s.with_tab(w, tab);
            let more = t.windows[w].tab_ids;
            &&& ids.contains(tab.id) ==> more == ids
            &&& !ids.contains(tab.id) ==> {
                &&& more.len() == ids.len() + 1
                &&& more.last() == tab.id
                &&& ids.is_prefix_of(more)
            }
            &&& t.windows[w] == (WindowView {
                tab_ids: more,
                active_tab_id: Some(tab.id),
                ..s.windows[w]
            })
            &&& t.windows.dom() == s.windows.dom()
            &&& forall|v: Seq<char>| v != w ==> #[trigger] t.windows[v] == s.windows[v]
            &&& t.focused_window_id == s.focused_window_id
            &&& forall|x: Seq<char>| #[trigger]
                t.tabs.contains_key(x) <==> s.tabs.contains_key(x) || x == tab.id
            &&& t.tabs[tab.id].id == tab.id
            &&& t.tabs[tab.id].title == tab.title
            &&& t.tabs[tab.id].url == tab.url
            &&& t.tabs[tab.id].is_pinned == tab.is_pinned
            &&& t.tabs[tab.id].is_active
            &&& forall|x: Seq<char>| #[trigger]
                s.tabs.contains_key(x) && x != tab.id ==> t.tabs[x] == (TabView {
                    is_active: s.tabs[x].is_active && !ids.contains(x),
                    ..s.tabs[x]
                })
        }),
{
    let ids = s.windows[w].tab_ids;
    let t = s.with_tab(w, tab);
    assert(t.windows.dom() =~= s.windows.dom());
    if !ids.contains(tab.id) {
        assert(ids =~= t.windows[w].tab_ids.subrange(0, ids.len() as int));
    }
}

/// Adding a tab to a window that is not there changes nothing.
pub proof fn law_no_tab_without_a_window(s: AppView, w: Seq<char>, tab: TabView)
    requires
        !s.windows.contains_key(w),
    ensures
        s.with_tab(w, tab) == s,
        s.with_window_cleared(w) == s,
{
}

/// Activating a tab makes it the active one of its window, and of the tabs of the
/// window it alone is marked. Nothing else of any tab or window changes.
pub proof fn law_activating_a_tab_changes_no_more(s: AppView, w: Seq<char>, id: Seq<char>)
    requires
        s.windows.contains_key(w),
    ensures
        ({
            let ids = s.windows[w].tab_ids;
            let t = s.with_active(w, id);
            &&& t.windows[w].tab_ids == ids
            &&& t.windows[w].active_tab_id == Some(id)
            &&& t.windows[w] == (WindowView { active_tab_id: Some(id), ..s.windows[w] })
            &&& t.windows.dom() == s.windows.dom()
            &&& forall|v: Seq<char>| v != w ==> #[trigger] t.windows[v] == s.windows[v]
            &&& t.focused_window_id == s.focused_window_id
            &&& t.tabs.dom() == s.tabs.dom()
            &&& forall|x: Seq<char>| #[trigger]
                s.tabs.contains_key(x) ==> t.tabs[x] == (TabView {
                    is_active: if ids.contains(x) {
                        x == id
                    } else {
                        s.tabs[x].is_active
                    },
                    ..s.tabs[x]
                })
        }),
{
    let t = s.with_active(w, id);
    assert(t.windows.dom() =~= s.windows.dom());
    assert(t.tabs.dom() =~= s.tabs.dom());
}

/// Taking all tabs out of a window leaves it without tabs and without an active
/// one, and leaves the rest of it. Its tabs are known no more; all other tabs, all
/// other windows and the focus stay.
pub proof fn law_clearing_changes_no_more(s: AppView, w: Seq<char>)
    requires
        s.windows.contains_key(w),
    ensures
        ({
            let ids = s.windows[w].tab_ids;
            let t = s.with_window_cleared(w);
            &&& t.windows[w].tab_ids.len() == 0
            &&& t.windows[w].active_tab_id is None
            &&& t.windows[w] == (WindowView {
                tab_ids: t.windows[w].tab_ids,
                active_tab_id: None,
                ..s.windows[w]
            })
            &&& t.windows.dom() == s.windows.dom()
            &&& forall|v: Seq<char>| v != w ==> #[trigger] t.windows[v] == s.windows[v]
            &&& t.focused_window_id == s.focused_window_id
            &&& forall|x: Seq<char>| #[trigger]
                t.tabs.contains_key(x) <==> s.tabs.contains_key(x) && !ids.contains(x)
            &&& forall|x: Seq<char>| #[trigger] t.tabs.contains_key(x) ==> t.tabs[x] == s.tabs[x]
        }),
{
    assert(s.with_window_cleared(w).windows.dom() =~= s.windows.dom());
}

/// A new title and address are taken over as they are given. Nothing else of the
/// tab, no other tab and no window changes; an unknown tab stays unknown.
pub proof fn law_update_is_taken_over(
    s: AppView,
    id: Seq<char>,
    title: Seq<char>,
    url: Seq<char>,
)
    ensures
        ({
            let t = s.with_page(id, title, url);
            &&& s.tabs.contains_key(id) ==> {
                &&& t.tabs[id].title == title
                &&& t.tabs[id].url == url
                &&& t.tabs[id].id == s.tabs[id].id
                &&& t.tabs[id].is_active == s.tabs[id].is_active
                &&& t.tabs[id].is_pinned == s.tabs[id].is_pinned
            }
            &&& t.tabs.dom() == s.tabs.dom()
            &&& forall|x: Seq<char>| #[trigger]
                s.tabs.contains_key(x) && x != id ==> t.tabs[x] == s.tabs[x]
            &&& t.windows == s.windows
            &&& t.focused_window_id == s.focused_window_id
        }),
{
    assert(s.with_page(id, title, url).tabs.dom() =~= s.tabs.dom());
}

/// Two updates of a tab come to the second one.
pub proof fn law_last_update_stands(
    s: AppView,
    id: Seq<char>,
    title: Seq<char>,
    url: Seq<char>,
    title2: Seq<char>,
    url2: Seq<char>,
)
    ensures
        s.with_page(id, title, url).with_page(id, title2, url2) == s.with_page(id, title2, url2),
{
    assert(s.with_page(id, title, url).with_page(id, title2, url2).tabs =~= s.with_page(
        id,
        title2,
        url2,
    ).tabs);
}

/// After a page from Notion in a known tab, the tab has the address of the page;
/// it has the title that was told where one was told that holds anything but
/// white space, whatever title it had, and the title that it had otherwise.
/// Nothing else of the tab changes.
pub proof fn law_page_from_notion_is_kept(
    s: AppView,
    id: Seq<char>,
    told: Option<Seq<char>>,
    url: Seq<char>,
)
    requires
        s.tabs.contains_key(id),
    ensures
        ({
            let t = after_page(s, id, told, url, true);
            &&& t.tabs.contains_key(id)
            &&& t.tabs[id].url == url
            &&& told is None ==> t.tabs[id].title == s.tabs[id].title
            &&& forall|k: int|
                told is Some && 0 <= k < told->0.len() && !white_space(#[trigger] told->0[k])
                    ==> t.tabs[id].title == told->0
            &&& (told is Some && forall|k: int|
                0 <= k < told->0.len() ==> white_space(#[trigger] told->0[k])) ==> t.tabs[id].title
                == s.tabs[id].title
            &&& t.tabs[id].id == s.tabs[id].id
            &&& t.tabs[id].is_active == s.tabs[id].is_active
            &&& t.tabs[id].is_pinned == s.tabs[id].is_pinned
        }),
{
}

/// The last title that two pages tell stands, and the address of the second page:
/// what the tab was before the first page does not matter where both tell a title
/// that is not blank.
pub proof fn law_the_last_page_stands(
    s: AppView,
    id: Seq<char>,
    first: Seq<char>,
    url: Seq<char>,
    second: Seq<char>,
    url2: Seq<char>,
)
    requires
        s.tabs.contains_key(id),
        !blank(second),
    ensures
        after_page(after_page(s, id, Some(first), url, true), id, Some(second), url2, true)
            == after_page(s, id, Some(second), url2, true),
        after_page(s, id, Some(second), url2, true) == s.with_page(id, second, url2),
{
    let a = after_page(after_page(s, id, Some(first), url, true), id, Some(second), url2, true);
    let b = after_page(s, id, Some(second), url2, true);
    assert(a.tabs =~= b.tabs);
}

/// A page that is not from Notion, and a page in a tab that is not known, change
/// nothing.
pub proof fn law_other_pages_change_nothing(
    s: AppView,
    id: Seq<char>,
    told: Option<Seq<char>>,
    url: Seq<char>,
    notion: bool,
)
    requires
        !notion || !s.tabs.contains_key(id),
    ensures
        after_page(s, id, told, url, notion) == s,
{
}

/// Text is blank exactly where each part of it is; no text at all is blank, and
/// one character is where it is white space.
pub proof fn law_blank_goes_by_characters(a: Seq<char>, b: Seq<char>, c: char)
    ensures
        blank(a + b) <==> blank(a) && blank(b),
        blank(Seq::empty()),
        blank(seq![c]) <==> white_space(c),
{
    if blank(a + b) {
        assert forall|i: int| 0 <= i < a.len() implies white_space(#[trigger] a[i]) by {
            assert((a + b)[i] == a[i]);
        }
        assert forall|i: int| 0 <= i < b.len() implies white_space(#[trigger] b[i]) by {
            assert((a + b)[a.len() + i] == b[i]);
        }
    }
    if blank(a) && blank(b) {
        assert forall|i: int| 0 <= i < (a + b).len() implies white_space(#[trigger] (a + b)[i]) by {
            if i < a.len() {
                assert((a + b)[i] == a[i]);
            } else {
                assert((a + b)[i] == b[i - a.len()]);
            }
        }
    }
    if blank(seq![c]) {
        assert(seq![c][0] == c);
    }
}

/// The place from which tabs are counted is the first one of the active tab where
/// the window lists it, and the first place of all otherwise.
pub proof fn law_counting_starts_at_the_active_tab(window: WindowView, id: Seq<char>)
    ensures
        window.active_tab_id == Some(id) && window.tab_ids.contains(id) ==> {
            let c = current_place(window);
            &&& 0 <= c < window.tab_ids.len()
            &&& window.tab_ids[c] == id
            &&& forall|k: int| 0 <= k < c ==> #[trigger] window.tab_ids[k] != id
        },
        window.active_tab_id == Some(id) && !window.tab_ids.contains(id) ==> current_place(window)
            == 0,
        window.active_tab_id is None ==> current_place(window) == 0,
{
    if window.tab_ids.contains(id) {
        lemma_has_first(window.tab_ids, id);
    }
}

/// One more tab on is one place on, or the first place behind the last; no tab on
/// is where counting starts.
pub proof fn law_counting_goes_place_by_place(window: WindowView, d: int)
    requires
        window.tab_ids.len() > 0,
    ensures
        ({
            let n = window.tab_ids.len() as int;
            let p = relative_place(window, d);
            &&& 0 <= p < n
            &&& relative_place(window, 0) == current_place(window)
            &&& p + 1 < n ==> relative_place(window, d + 1) == p + 1
            &&& p + 1 == n ==> relative_place(window, d + 1) == 0
        }),
{
    let n = window.tab_ids.len() as int;
    let c = current_place(window);
    match window.active_tab_id {
        Some(id) => {
            if window.tab_ids.contains(id) {
                lemma_has_first(window.tab_ids, id);
            }
        },
        None => {},
    }
    assert(0 <= c < n);
    vstd::arithmetic::div_mod::lemma_small_mod(c as nat, n as nat);
    vstd::arithmetic::div_mod::lemma_mod_bound(c + d, n);
    let p = (c + d) % n;
    let q = (c + d) / n;
    vstd::arithmetic::div_mod::lemma_fundamental_div_mod(c + d, n);
    assert(c + d == q * n + p) by (nonlinear_arith)
        requires
            c + d == n * q + p,
    ;
    assert(c + (d + 1) == q * n + (p + 1));
    vstd::arithmetic::div_mod::lemma_mod_multiples_vanish(q, p + 1, n);
    assert((c + (d + 1)) % n == (p + 1) % n) by {
        assert(n * q + (p + 1) == q * n + (p + 1)) by (nonlinear_arith);
    }
    if p + 1 < n {
        vstd::arithmetic::div_mod::lemma_small_mod((p + 1) as nat, n as nat);
    } else {
        vstd::arithmetic::div_mod::lemma_mod_self_0(n);
    }
}

/// A new tab has the id and the address that it was given, the title of a tab
/// that has not told one, and is active and not pinned.
pub proof fn law_new_tab_is_as_asked_for(id: Seq<char>, url: Seq<char>)
    ensures
        new_tab_view(id, url).id == id,
        new_tab_view(id, url).url == url,
        new_tab_view(id, url).title == "Notion"@,
        new_tab_view(id, url).is_active,
        !new_tab_view(id, url).is_pinned,
{
}

/// Entering the main window leaves an entry that there is, and every other window,
/// every tab and the focus. A new entry has no tabs and the focus.
pub proof fn law_main_window_changes_no_more(s: AppView)
    ensures
        ({
            let t = with_main_window(s);
            let main = "main"@;
            &&& t.windows.contains_key(main)
            &&& s.windows.contains_key(main) ==> t.windows[main] == s.windows[main]
            &&& !s.windows.contains_key(main) ==> {
                &&& t.windows[main].id == main
                &&& t.windows[main].tab_ids.len() == 0
                &&& t.windows[main].active_tab_id is None
                &&& t.windows[main].is_focused
                &&& !t.windows[main].is_maximized
                &&& !t.windows[main].is_minimized
                &&& !t.windows[main].is_full_screen
                &&& t.windows[main].bounds.x is None
                &&& t.windows[main].bounds.y is None
            }
            &&& forall|v: Seq<char>|
                v != main ==> (#[trigger] t.windows.contains_key(v) <==> s.windows.contains_key(v))
                    && t.windows[v] == s.windows[v]
            &&& t.tabs == s.tabs
            &&& t.focused_window_id == s.focused_window_id
        }),
{
}

/// The focus that a window reports is entered into its entry, and where it got the
/// focus it is the focused window.
pub proof fn law_focus_is_entered(s: AppView, w: Seq<char>, focused: bool)
    ensures
        ({
            let t = after_event(s, w, WindowEvent::Focused(focused));
            &&& focused ==> t.focused_window_id == Some(w)
            &&& !focused ==> t.focused_window_id == s.focused_window_id
            &&& s.windows.contains_key(w) ==> t.windows[w] == (WindowView {
                is_focused: focused,
                ..s.windows[w]
            })
            &&& reaction_to(WindowEvent::Focused(focused)) is Store
        }),
{
}

/// The size and the place that a window reports are entered into its entry as they
/// are reported, for every value, and neither changes the other.
pub proof fn law_size_and_place_are_entered(s: AppView, w: Seq<char>, a: u64, b: u64)
    ensures
        ({
            let t = after_event(s, w, WindowEvent::Resized { width: a, height: b });
            let u = after_event(s, w, WindowEvent::Moved { x: a, y: b });
            &&& s.windows.contains_key(w) ==> {
                &&& t.windows[w].bounds.width == a
                &&& t.windows[w].bounds.height == b
                &&& t.windows[w].bounds.x == s.windows[w].bounds.x
                &&& t.windows[w].bounds.y == s.windows[w].bounds.y
                &&& u.windows[w].bounds.x == Some(a)
                &&& u.windows[w].bounds.y == Some(b)
                &&& u.windows[w].bounds.width == s.windows[w].bounds.width
                &&& u.windows[w].bounds.height == s.windows[w].bounds.height
                &&& t.windows[w] == (WindowView { bounds: t.windows[w].bounds, ..s.windows[w] })
                &&& u.windows[w] == (WindowView { bounds: u.windows[w].bounds, ..s.windows[w] })
            }
            &&& t.focused_window_id == s.focused_window_id
            &&& u.focused_window_id == s.focused_window_id
            &&& reaction_to(WindowEvent::Resized { width: a, height: b }) is LayOutAndStore
            &&& reaction_to(WindowEvent::Moved { x: a, y: b }) is Store
        }),
{
}

/// No event changes another window, makes one or takes one away; a request to
/// close, and any other event, change nothing at all.
pub proof fn law_events_stay_in_their_window(s: AppView, w: Seq<char>, event: WindowEvent)
    ensures
        ({
            let t = after_event(s, w, event);
            &&& t.windows.dom() == s.windows.dom()
            &&& forall|v: Seq<char>| v != w ==> #[trigger] t.windows[v] == s.windows[v]
            &&& t.tabs == s.tabs
            &&& event is CloseRequested || event is Other ==> t == s
            &&& reaction_to(event) is Exit <==> event is CloseRequested
            &&& reaction_to(event) is Ignore <==> event is Other
        }),
{
    assert(after_event(s, w, event).windows.dom() =~= s.windows.dom());
}

/// The tab that is seen after tabs have been made again is one that was made. It
/// is one for a page that was the active one where such a page was made again,
/// and the last of these; otherwise it is the last that was made.
pub proof fn law_the_active_page_is_seen_again(
    saved: Seq<(Seq<char>, Seq<char>)>,
    saved_active: Option<Seq<char>>,
    made: Seq<Option<String>>,
    i: int,
    j: int,
)
    requires
        made.len() == saved.len(),
        seen_after_restore(saved, saved_active, made, i),
        0 <= j < made.len(),
        made[j] is Some,
    ensures
        0 <= i < made.len(),
        made[i] is Some,
        saved_active == Some(saved[j].0) ==> saved_active == Some(saved[i].0) && j <= i,
        saved_active != Some(saved[i].0) ==> j <= i,
{
    assert(active_again(saved, saved_active, made, j) == (saved_active == Some(saved[j].0)));
    assert(active_again(saved, saved_active, made, i) == (saved_active == Some(saved[i].0)));
}

/// Whichever tabs have been made again, one of them is seen, and only one.
pub proof fn law_one_restored_tab_is_seen(
    saved: Seq<(Seq<char>, Seq<char>)>,
    saved_active: Option<Seq<char>>,
    made: Seq<Option<String>>,
    i: int,
    j: int,
)
    requires
        made.len() == saved.len(),
        seen_after_restore(saved, saved_active, made, i),
        seen_after_restore(saved, saved_active, made, j),
    ensures
        i == j,
{
    law_the_active_page_is_seen_again(saved, saved_active, made, i, j);
    law_the_active_page_is_seen_again(saved, saved_active, made, j, i);
}

/// A list of strings has the text of each of them, and nothing else; an optional
/// string has its text.
pub proof fn law_texts_are_those_of_the_strings(list: Seq<String>, o: Option<String>, i: int)
    ensures
        texts(list).len() == list.len(),
        0 <= i < list.len() ==> texts(list)[i] == list[i]@,
        o matches Some(s) ==> text_opt(o) == Some(s@),
        o is None ==> text_opt(o) is None,
{
}

/// The entries of lists of pages, tabs and plans are those that the lists hold.
pub proof fn law_lists_are_seen_whole(
    pages: Seq<(String, String)>,
    tabs: Seq<TabState>,
    plan: Seq<(String, bool)>,
    i: int,
)
    ensures
        page_views(pages).len() == pages.len(),
        0 <= i < pages.len() ==> page_views(pages)[i] == (pages[i].0@, pages[i].1@),
        tab_views(tabs).len() == tabs.len(),
        0 <= i < tabs.len() ==> tab_views(tabs)[i] == tabs[i]@,
        planned_ids(plan).len() == plan.len(),
        0 <= i < plan.len() ==> planned_ids(plan)[i] == plan[i].0@,
{
}

/// What is said of the view of a tab, a window, a state or a controller is said of
/// all that it holds: where two have the same view, all their parts are the same.
pub proof fn law_views_hold_every_part(
    a: (TabState, WindowState, AppState, TabController),
    b: (TabState, WindowState, AppState, TabController),
)
    ensures
        a.0@ == b.0@ <==> {
            &&& a.0.id@ == b.0.id@
            &&& a.0.title@ == b.0.title@
            &&& a.0.url@ == b.0.url@
            &&& a.0.is_active == b.0.is_active
            &&& a.0.is_pinned == b.0.is_pinned
        },
        a.1@ == b.1@ <==> {
            &&& a.1.id@ == b.1.id@
            &&& a.1.bounds == b.1.bounds
            &&& a.1.is_focused == b.1.is_focused
            &&& a.1.is_maximized == b.1.is_maximized
            &&& a.1.is_minimized == b.1.is_minimized
            &&& a.1.is_full_screen == b.1.is_full_screen
            &&& texts(a.1.tab_ids@) == texts(b.1.tab_ids@)
            &&& text_opt(a.1.active_tab_id) == text_opt(b.1.active_tab_id)
        },
        a.2@ == b.2@ <==> {
            &&& a.2.windows@ == b.2.windows@
            &&& a.2.tabs@ == b.2.tabs@
            &&& text_opt(a.2.focused_window_id) == text_opt(b.2.focused_window_id)
        },
        a.3@ == b.3@ <==> a.3.tab_id@ == b.3.tab_id@ && a.3.window_id@ == b.3.window_id@,
{
}

/// A window lists what stands at the places of its list, whatever the place, and
/// nothing else; what a window lists is listed, and what is listed, a window lists.
pub proof fn law_windows_list_their_tabs(s: AppView, w: Seq<char>, id: Seq<char>, i: int)
    ensures
        s.windows.contains_key(w) && 0 <= i < s.windows[w].tab_ids.len() ==> {
            &&& s.lists(w, s.windows[w].tab_ids[i])
            &&& s.listed(s.windows[w].tab_ids[i])
        },
        s.lists(w, id) ==> s.windows.contains_key(w) && exists|j: int|
            0 <= j < s.windows[w].tab_ids.len() && #[trigger] s.windows[w].tab_ids[j] == id,
        s.listed(id) <==> exists|v: Seq<char>| s.lists(v, id),
{
    if s.windows.contains_key(w) && 0 <= i < s.windows[w].tab_ids.len() {
        assert(s.windows[w].tab_ids.contains(s.windows[w].tab_ids[i]));
        assert(s.lists(w, s.windows[w].tab_ids[i]));
    }
}

/// Where the windows are in order, no tab stands at two places, in one window or
/// in two; every tab that a window lists is known, and marked exactly where it is
/// the active one.
pub proof fn law_what_order_means(s: AppView, v: Seq<char>, i: int, w: Seq<char>, j: int)
    requires
        s.windows_in_order(),
        s.windows.contains_key(v),
        s.windows.contains_key(w),
        0 <= i < s.windows[v].tab_ids.len(),
        0 <= j < s.windows[w].tab_ids.len(),
    ensures
        s.windows[v].tab_ids[i] == s.windows[w].tab_ids[j] ==> v == w && i == j,
        s.tabs.contains_key(s.windows[v].tab_ids[i]),
        s.tabs[s.windows[v].tab_ids[i]].is_active <==> s.windows[v].active_tab_id == Some(
            s.windows[v].tab_ids[i],
        ),
        s.windows[v].active_tab_id is Some,
{
    assert(s.window_ok(v));
    assert(s.window_ok(w));
    assert(s.windows[v].tab_ids.contains(s.windows[v].tab_ids[i]));
    assert(s.lists(v, s.windows[v].tab_ids[i]));
    assert(s.lists(w, s.windows[w].tab_ids[j]));
}

/// Windows that have no tabs are in order, and so is one window with one known tab
/// that is active and marked.
pub proof fn law_plain_windows_are_in_order(s: AppView, w: Seq<char>, id: Seq<char>)
    ensures
        (forall|v: Seq<char>| #[trigger]
            s.windows.contains_key(v) ==> s.windows[v].tab_ids.len() == 0
                && s.windows[v].active_tab_id is None) ==> s.windows_in_order(),
        (forall|v: Seq<char>| #[trigger]
            s.windows.contains_key(v) && v != w ==> s.windows[v].tab_ids.len() == 0
                && s.windows[v].active_tab_id is None) && s.windows.contains_key(w)
            && s.windows[w].tab_ids == seq![id] && s.windows[w].active_tab_id == Some(id)
            && s.tabs.contains_key(id) && s.tabs[id].is_active ==> s.windows_in_order(),
{
    assert(seq![id][0] == id);
    assert(seq![id].contains(id));
}

} // verus!
