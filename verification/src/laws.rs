//! What holds of tabs, windows and the configuration across operations.

use crate::commands::{current_place, relative_place};
use crate::config::{config_in_force, css_path, migration_steps, ConfigFile};
use crate::path::PathPartView;
use crate::state::{known_tabs, AppView, TabView, WindowView};
use crate::tab_controller::{
    action_of, after_page, navigation_end, popup_next, ControllerView, NavigationView, PopupStep,
};
use crate::tab_manager::{new_tab_view, planned_ids};
use crate::text::{first_at, first_index, lemma_first_index, lemma_has_first};
use crate::window_controller::{after_event, with_main_window, WindowEvent};
use vstd::prelude::*;

verus! {

/// A list into which `id` is entered, unless it holds it already, holds `id` and
/// what it held.
proof fn lemma_entered(ids: Seq<Seq<char>>, id: Seq<char>, more: Seq<Seq<char>>)
    requires
        more == (if ids.contains(id) {
            ids
        } else {
            ids.push(id)
        }),
    ensures
        forall|x: Seq<char>| #[trigger] more.contains(x) <==> ids.contains(x) || x == id,
{
    if !ids.contains(id) {
        assert forall|x: Seq<char>| #[trigger] more.contains(x) <==> ids.contains(x) || x == id by {
            if ids.contains(x) {
                assert(more[ids.index_of(x)] == x);
            }
            assert(more[ids.len() as int] == id);
        }
    }
}

/// What a list holds once the first place of `id` is taken out: nothing new, and
/// everything but `id`. A list without duplicates then holds `id` no more, and
/// still no duplicates.
proof fn lemma_rest(ids: Seq<Seq<char>>, id: Seq<char>)
    requires
        ids.contains(id),
    ensures
        ({
            let rest = ids.remove(first_index(ids, id));
            &&& rest.len() == ids.len() - 1
            &&& forall|x: Seq<char>| #[trigger] rest.contains(x) ==> ids.contains(x)
            &&& forall|x: Seq<char>| #[trigger] ids.contains(x) && x != id ==> rest.contains(x)
            &&& ids.no_duplicates() ==> rest.no_duplicates() && !rest.contains(id)
        }),
{
    let i = first_index(ids, id);
    lemma_has_first(ids, id);
    let rest = ids.remove(i);
    assert forall|x: Seq<char>| #[trigger] rest.contains(x) implies ids.contains(x) by {
        let j = rest.index_of(x);
        assert(rest[j] == x);
        assert(ids[if j < i { j } else { j + 1 }] == x);
    }
    assert forall|x: Seq<char>| #[trigger] ids.contains(x) && x != id implies rest.contains(x) by {
        let j = ids.index_of(x);
        assert(ids[j] == x);
        assert(rest[if j < i { j } else { j - 1 }] == x);
    }
    if ids.no_duplicates() && rest.contains(id) {
        let j = rest.index_of(id);
        assert(rest[j] == id);
        assert(ids[if j < i { j } else { j + 1 }] == id);
    }
}

/// Where a state knows no tab that another did not know, under the same id, and
/// still lists those that it knows, every known tab is still listed.
proof fn lemma_still_listed(s: AppView, t: AppView)
    requires
        s.tabs_listed(),
        forall|id: Seq<char>| #[trigger]
            t.tabs.contains_key(id) ==> s.tabs.contains_key(id) && t.tabs[id].id == s.tabs[id].id,
        forall|v: Seq<char>, id: Seq<char>| #[trigger]
            s.lists(v, id) && t.tabs.contains_key(id) ==> t.lists(v, id),
    ensures
        t.tabs_listed(),
{
    assert forall|id: Seq<char>| #[trigger] t.tabs.contains_key(id) implies t.listed(id)
        && t.tabs[id].id == id by {
        assert(s.tabs.contains_key(id));
        let v = choose|v: Seq<char>| s.lists(v, id);
        assert(t.lists(v, id));
    }
}

/// Where the windows are in order, the active tab of a window is the one among
/// its tabs that is marked active; a window with tabs has one.
pub proof fn law_one_active_tab(s: AppView, w: Seq<char>)
    requires
        s.windows_in_order(),
        s.windows.contains_key(w),
        s.windows[w].tab_ids.len() > 0,
    ensures
        exists|a: Seq<char>|
            {
                &&& #[trigger] s.lists(w, a)
                &&& s.windows[w].active_tab_id == Some(a)
                &&& s.tabs[a].is_active
                &&& forall|b: Seq<char>| #[trigger]
                    s.lists(w, b) && s.tabs[b].is_active ==> b == a
            },
{
    let a = s.windows[w].active_tab_id->0;
    assert(s.window_ok(w));
    assert(s.lists(w, a));
}

/// Adding a tab to a window keeps the windows in order, unless another window
/// already lists a tab of that id.
pub proof fn law_register_keeps_order(s: AppView, w: Seq<char>, tab: TabView)
    requires
        s.windows_in_order(),
        forall|other: Seq<char>| #[trigger] s.lists(other, tab.id) ==> other == w,
    ensures
        s.with_tab(w, tab).windows_in_order(),
        forall|v: Seq<char>, id: Seq<char>| #[trigger]
            s.with_tab(w, tab).lists(v, id) ==> s.lists(v, id) || (v == w && id == tab.id),
        s.windows.contains_key(w) ==> s.with_tab(w, tab).lists(w, tab.id),
{
    let t = s.with_tab(w, tab);
    if s.windows.contains_key(w) {
        let ids = s.windows[w].tab_ids;
        let more = t.windows[w].tab_ids;
        assert(s.window_ok(w));
        lemma_entered(ids, tab.id, more);
        assert(more.contains(tab.id));
        assert(t.lists(w, tab.id));
        assert forall|v: Seq<char>| #[trigger] t.windows.contains_key(v) implies t.window_ok(v) by {
            assert(s.windows.contains_key(v));
            assert(s.window_ok(v));
            if v != w {
                assert forall|id: Seq<char>| #[trigger]
                    t.windows[v].tab_ids.contains(id) implies t.tabs[id] == s.tabs[id] by {
                    assert(s.lists(v, id));
                    if ids.contains(id) {
                        assert(s.lists(w, id));
                    }
                }
            }
        }
        assert forall|v: Seq<char>, id: Seq<char>| #[trigger]
            t.lists(v, id) implies s.lists(v, id) || (v == w && id == tab.id) by {}
    }
}

/// Activating a tab keeps the windows in order.
pub proof fn law_activate_keeps_order(s: AppView, w: Seq<char>, id: Seq<char>)
    requires
        s.windows_in_order(),
        s.lists(w, id),
    ensures
        s.with_active(w, id).windows_in_order(),
        s.with_active(w, id).tabs[id].is_active,
{
    let t = s.with_active(w, id);
    assert(s.window_ok(w));
    assert forall|v: Seq<char>, x: Seq<char>| #[trigger] t.lists(v, x) == s.lists(v, x) by {}
    assert forall|v: Seq<char>| #[trigger] t.windows.contains_key(v) implies t.window_ok(v) by {
        assert(s.window_ok(v));
        if v != w {
            assert forall|x: Seq<char>| #[trigger]
                t.windows[v].tab_ids.contains(x) implies t.tabs[x] == s.tabs[x] by {
                assert(s.lists(v, x));
                if s.windows[w].tab_ids.contains(x) {
                    assert(s.lists(w, x));
                }
            }
        }
    }
}

/// Taking a tab out keeps the windows in order. The tab is then neither known nor
/// listed, and the window's next active tab, which there is unless the tab was
/// its only one, is one that it lists.
pub proof fn law_remove_keeps_order(s: AppView, w: Seq<char>, id: Seq<char>)
    requires
        s.windows_in_order(),
        s.lists(w, id),
    ensures
        s.without_tab(w, id).windows_in_order(),
        !s.without_tab(w, id).tabs.contains_key(id),
        !s.without_tab(w, id).listed(id),
        forall|v: Seq<char>, x: Seq<char>| #[trigger]
            s.without_tab(w, id).lists(v, x) <==> s.lists(v, x) && x != id,
        s.without_tab(w, id).windows[w].active_tab_id == s.next_active(w, id),
        s.next_active(w, id) is None <==> s.windows[w].tab_ids.len() == 1,
        s.next_active(w, id) matches Some(next) ==> s.without_tab(w, id).lists(w, next),
{
    let t = s.without_tab(w, id);
    assert(s.window_ok(w));
    let ids = s.windows[w].tab_ids;
    let i = first_index(ids, id);
    lemma_has_first(ids, id);
    lemma_rest(ids, id);
    let rest = ids.remove(i);
    assert forall|v: Seq<char>, x: Seq<char>| #[trigger]
        t.lists(v, x) <==> s.lists(v, x) && x != id by {
        if s.lists(v, id) {
            assert(v == w);
        }
    }
    assert forall|v: Seq<char>| #[trigger] t.windows.contains_key(v) implies t.window_ok(v) by {
        assert(s.window_ok(v));
        if v != w {
            assert forall|x: Seq<char>| #[trigger]
                t.windows[v].tab_ids.contains(x) implies t.tabs.contains_key(x) && t.tabs[x]
                == s.tabs[x] by {
                assert(s.lists(v, x));
                if x == id || rest.contains(x) {
                    assert(s.lists(w, x));
                }
            }
        } else {
            if rest.len() > 0 {
                assert(rest.contains(rest.last()));
                if i < rest.len() {
                    assert(rest.contains(rest[i]));
                }
            }
            if s.windows[w].active_tab_id is Some && s.windows[w].active_tab_id != Some(id) {
                assert(rest.contains(s.windows[w].active_tab_id->0));
            }
        }
    }
}

/// A new title or address keeps the windows in order, and leaves every window as
/// it is.
pub proof fn law_update_keeps_order(s: AppView, id: Seq<char>, title: Seq<char>, url: Seq<char>)
    requires
        s.windows_in_order(),
    ensures
        s.with_page(id, title, url).windows_in_order(),
        s.with_page(id, title, url).windows == s.windows,
{
    let t = s.with_page(id, title, url);
    assert forall|v: Seq<char>, x: Seq<char>| #[trigger] t.lists(v, x) == s.lists(v, x) by {}
    assert forall|v: Seq<char>| #[trigger] t.windows.contains_key(v) implies t.window_ok(v) by {
        assert(s.window_ok(v));
    }
}

/// Adding a tab leaves every known tab listed under its own id.
pub proof fn law_register_keeps_tabs_listed(s: AppView, w: Seq<char>, tab: TabView)
    requires
        s.tabs_listed(),
    ensures
        s.with_tab(w, tab).tabs_listed(),
{
    let t = s.with_tab(w, tab);
    if s.windows.contains_key(w) {
        let ids = s.windows[w].tab_ids;
        lemma_entered(ids, tab.id, t.windows[w].tab_ids);
        assert forall|id: Seq<char>| #[trigger] t.tabs.contains_key(id) implies t.listed(id)
            && t.tabs[id].id == id by {
            if id == tab.id {
                assert(t.windows[w].tab_ids.contains(id));
                assert(t.lists(w, id));
            } else {
                assert(s.tabs.contains_key(id));
                let v = choose|v: Seq<char>| s.lists(v, id);
                assert(t.lists(v, id));
            }
        }
    }
}

/// Activating a tab leaves every known tab listed under its own id.
pub proof fn law_activate_keeps_tabs_listed(s: AppView, w: Seq<char>, id: Seq<char>)
    requires
        s.tabs_listed(),
        s.lists(w, id),
    ensures
        s.with_active(w, id).tabs_listed(),
{
    lemma_still_listed(s, s.with_active(w, id));
}

/// Taking a tab out leaves every known tab listed under its own id.
pub proof fn law_remove_keeps_tabs_listed(s: AppView, w: Seq<char>, id: Seq<char>)
    requires
        s.tabs_listed(),
        s.lists(w, id),
    ensures
        s.without_tab(w, id).tabs_listed(),
{
    lemma_has_first(s.windows[w].tab_ids, id);
    lemma_rest(s.windows[w].tab_ids, id);
    lemma_still_listed(s, s.without_tab(w, id));
}

/// A new title or address, whether told by the page or kept of a page that is
/// shown, leaves every known tab listed under its own id.
pub proof fn law_update_keeps_tabs_listed(
    s: AppView,
    id: Seq<char>,
    title: Seq<char>,
    told: Option<Seq<char>>,
    url: Seq<char>,
    notion: bool,
)
    requires
        s.tabs_listed(),
    ensures
        s.with_page(id, title, url).tabs_listed(),
        after_page(s, id, told, url, notion).tabs_listed(),
{
    lemma_still_listed(s, s.with_page(id, title, url));
    lemma_still_listed(s, after_page(s, id, told, url, notion));
}

/// Taking all tabs out of a window leaves every known tab listed under its own
/// id.
pub proof fn law_clearing_keeps_tabs_listed(s: AppView, w: Seq<char>)
    requires
        s.tabs_listed(),
    ensures
        s.with_window_cleared(w).tabs_listed(),
{
    lemma_still_listed(s, s.with_window_cleared(w));
}

/// Entering the main window, and an event of a window, leave every known tab
/// listed under its own id.
pub proof fn law_windows_keep_tabs_listed(s: AppView, label: Seq<char>, event: WindowEvent)
    requires
        s.tabs_listed(),
    ensures
        with_main_window(s).tabs_listed(),
        after_event(s, label, event).tabs_listed(),
{
    lemma_still_listed(s, with_main_window(s));
    lemma_still_listed(s, after_event(s, label, event));
}

/// Taking out a tab that is not the active one leaves the active tab of the
/// window as it is, and where the windows are in order every other tab too.
pub proof fn law_removing_inactive_tab_keeps_active_tab(s: AppView, w: Seq<char>, id: Seq<char>)
    requires
        s.windows_in_order(),
        s.lists(w, id),
        s.windows[w].active_tab_id != Some(id),
    ensures
        s.without_tab(w, id).windows[w].active_tab_id == s.windows[w].active_tab_id,
        s.without_tab(w, id).tabs == s.tabs.remove(id),
{
    assert(s.window_ok(w));
    lemma_has_first(s.windows[w].tab_ids, id);
    lemma_rest(s.windows[w].tab_ids, id);
    assert(s.without_tab(w, id).tabs =~= s.tabs.remove(id));
}

/// Activating a tab of one window leaves the other windows and their tabs as
/// they are.
pub proof fn law_activation_stays_in_its_window(
    s: AppView,
    w: Seq<char>,
    id: Seq<char>,
    other: Seq<char>,
)
    requires
        s.windows_in_order(),
        s.lists(w, id),
        other != w,
        s.windows.contains_key(other),
    ensures
        s.with_active(w, id).windows[other] == s.windows[other],
        forall|x: Seq<char>| #[trigger]
            s.lists(other, x) ==> s.with_active(w, id).tabs[x] == s.tabs[x],
{
    assert forall|x: Seq<char>| #[trigger] s.lists(other, x) implies s.with_active(w, id).tabs[x]
        == s.tabs[x] by {
        assert(s.window_ok(other));
        if s.windows[w].tab_ids.contains(x) {
            assert(s.lists(w, x));
        }
    }
}

/// Activating the same tab again changes nothing more.
pub proof fn law_activation_is_idempotent(s: AppView, w: Seq<char>, id: Seq<char>)
    requires
        s.lists(w, id),
    ensures
        s.with_active(w, id).with_active(w, id) == s.with_active(w, id),
{
    let t = s.with_active(w, id);
    assert(t.with_active(w, id).tabs =~= t.tabs);
    assert(t.with_active(w, id).windows =~= t.windows);
}

/// A tab that was added under a new id and is taken out again leaves the list
/// of its window, the other windows, and the page of every tab as they were.
/// The window's last tab is then the active one.
pub proof fn law_new_tab_taken_out_again(s: AppView, w: Seq<char>, tab: TabView)
    requires
        s.windows.contains_key(w),
        !s.windows[w].tab_ids.contains(tab.id),
        !s.tabs.contains_key(tab.id),
    ensures
        ({
            let t = s.with_tab(w, tab).without_tab(w, tab.id);
            &&& t.windows[w].tab_ids == s.windows[w].tab_ids
            &&& t.windows[w].active_tab_id == (if s.windows[w].tab_ids.len() == 0 {
                None
            } else {
                Some(s.windows[w].tab_ids.last())
            })
            &&& t.windows.dom() == s.windows.dom()
            &&& forall|v: Seq<char>| v != w ==> #[trigger] t.windows[v] == s.windows[v]
            &&& t.tabs.dom() == s.tabs.dom()
            &&& forall|x: Seq<char>| #[trigger]
                s.tabs.contains_key(x) ==> t.tabs[x] == (TabView {
                    is_active: t.tabs[x].is_active,
                    ..s.tabs[x]
                })
            &&& t.focused_window_id == s.focused_window_id
        }),
{
    let ids = s.windows[w].tab_ids;
    let more = ids.push(tab.id);
    let n = ids.len() as int;
    let u = s.with_tab(w, tab);
    assert(u.windows[w].tab_ids == more);
    assert(first_at(more, tab.id, n)) by {
        assert forall|k: int| 0 <= k < n implies #[trigger] more[k] != tab.id by {
            assert(ids.contains(ids[k]));
        }
    }
    lemma_first_index(more, tab.id, n);
    assert(more.remove(n) =~= ids);
    let t = u.without_tab(w, tab.id);
    assert(t.windows.dom() =~= s.windows.dom());
    assert(t.tabs.dom() =~= s.tabs.dom());
}

/// A tab that is added under a new id is read back as the last tab of its
/// window, as it was given and active, behind the tabs that the window had, none
/// of which is active any more.
pub proof fn law_added_tab_is_read_back(s: AppView, w: Seq<char>, tab: TabView)
    requires
        s.windows.contains_key(w),
        !s.windows[w].tab_ids.contains(tab.id),
    ensures
        ({
            let t = s.with_tab(w, tab);
            let ids = s.windows[w].tab_ids;
            &&& known_tabs(t.tabs, t.windows[w].tab_ids) == known_tabs(t.tabs, ids).push(
                TabView { is_active: true, ..tab },
            )
            &&& forall|id: Seq<char>| #[trigger]
                ids.contains(id) && s.tabs.contains_key(id) ==> t.tabs.contains_key(id)
                    && t.tabs[id] == (TabView { is_active: false, ..s.tabs[id] })
        }),
{
    let t = s.with_tab(w, tab);
    let ids = s.windows[w].tab_ids;
    let more = t.windows[w].tab_ids;
    assert(more.drop_last() =~= ids);
    reveal(Seq::filter_map);
    assert(known_tabs(t.tabs, more) =~= known_tabs(t.tabs, ids).push(
        TabView { is_active: true, ..tab },
    ));
}

/// Taking all tabs out of a window keeps the windows in order, and leaves the
/// tabs of the other windows as they are.
pub proof fn law_clearing_keeps_order(s: AppView, w: Seq<char>)
    requires
        s.windows_in_order(),
    ensures
        s.with_window_cleared(w).windows_in_order(),
        forall|v: Seq<char>, id: Seq<char>| #[trigger]
            s.lists(v, id) && v != w ==> s.with_window_cleared(w).lists(v, id)
                && s.with_window_cleared(w).tabs[id] == s.tabs[id],
        forall|v: Seq<char>, id: Seq<char>| #[trigger]
            s.with_window_cleared(w).lists(v, id) ==> s.lists(v, id) && v != w,
{
    let t = s.with_window_cleared(w);
    if s.windows.contains_key(w) {
        let ids = s.windows[w].tab_ids;
        assert forall|v: Seq<char>, id: Seq<char>| #[trigger] t.lists(v, id) <==> s.lists(v, id)
            && v != w by {}
        assert forall|v: Seq<char>, id: Seq<char>| #[trigger]
            s.lists(v, id) && v != w implies t.tabs.contains_key(id) && t.tabs[id] == s.tabs[id] by {
            assert(s.window_ok(v));
            assert(s.windows[v].tab_ids.contains(id));
            if ids.contains(id) {
                assert(s.lists(w, id));
            }
        }
        assert forall|v: Seq<char>| #[trigger] t.windows.contains_key(v) implies t.window_ok(v) by {
            assert(s.window_ok(v));
            if v != w {
                assert forall|id: Seq<char>| #[trigger]
                    t.windows[v].tab_ids.contains(id) implies t.tabs.contains_key(id) && t.tabs[id]
                    == s.tabs[id] by {
                    assert(s.lists(v, id));
                }
            }
        }
    }
}

/// The state after an attempt to make a tab of the id `id` for the address `url`
/// in the window `w`: the tab is entered, and taken out again where it could not
/// be made.
pub open spec fn attempted(
    s: AppView,
    w: Seq<char>,
    url: Seq<char>,
    id: Seq<char>,
    made: bool,
) -> AppView {
    let entered = s.with_tab(w, new_tab_view(id, url));
    if made {
        entered
    } else {
        entered.without_tab(w, id)
    }
}

/// The state after attempts to make tabs in the window `w`, one after the other:
/// for each page one under the id beside it, of which `made` tells whether it
/// could be made.
pub open spec fn reopened(
    s: AppView,
    w: Seq<char>,
    pages: Seq<(Seq<char>, Seq<char>)>,
    ids: Seq<Seq<char>>,
    made: Seq<bool>,
) -> AppView
    decreases pages.len(),
{
    if pages.len() == 0 {
        s
    } else {
        attempted(
            reopened(s, w, pages.drop_last(), ids.drop_last(), made.drop_last()),
            w,
            pages.last().1,
            ids.last(),
            made.last(),
        )
    }
}

/// The ids among `ids` of the tabs that could be made, in their order.
pub open spec fn made_ids(ids: Seq<Seq<char>>, made: Seq<bool>) -> Seq<Seq<char>>
    decreases ids.len(),
{
    if ids.len() == 0 {
        Seq::empty()
    } else {
        let before = made_ids(ids.drop_last(), made.drop_last());
        if made.last() {
            before.push(ids.last())
        } else {
            before
        }
    }
}

/// Every id of a tab that could be made is one of the ids.
proof fn lemma_made_ids(ids: Seq<Seq<char>>, made: Seq<bool>)
    requires
        ids.len() == made.len(),
    ensures
        forall|x: Seq<char>| #[trigger] made_ids(ids, made).contains(x) ==> ids.contains(x),
    decreases ids.len(),
{
    if ids.len() > 0 {
        let before = made_ids(ids.drop_last(), made.drop_last());
        lemma_made_ids(ids.drop_last(), made.drop_last());
        assert forall|x: Seq<char>| #[trigger] made_ids(ids, made).contains(x) implies ids.contains(
            x,
        ) by {
            let k = made_ids(ids, made).index_of(x);
            if k < before.len() {
                assert(before[k] == x);
                assert(before.contains(x));
                let j = ids.drop_last().index_of(x);
                assert(ids[j] == x);
            } else {
                assert(ids[ids.len() - 1] == x);
            }
        }
    }
}

/// Tabs that are made again for saved pages, under ids that differ from each
/// other, leave the window with exactly those that could be made, in the order of
/// the pages, each with the address of its page. The last one is the active one.
/// Those that could not be made are not known.
pub proof fn law_reopened_tabs_show_the_saved_pages(
    s: AppView,
    w: Seq<char>,
    pages: Seq<(Seq<char>, Seq<char>)>,
    ids: Seq<Seq<char>>,
    made: Seq<bool>,
)
    requires
        s.windows.contains_key(w),
        ids.len() == pages.len(),
        made.len() == pages.len(),
        ids.no_duplicates(),
    ensures
        ({
            let t = reopened(s.with_window_cleared(w), w, pages, ids, made);
            &&& t.windows.contains_key(w)
            &&& t.windows[w].tab_ids == made_ids(ids, made)
            &&& t.windows[w].active_tab_id == (if made_ids(ids, made).len() == 0 {
                None
            } else {
                Some(made_ids(ids, made).last())
            })
            &&& forall|i: int|
                #![trigger ids[i]]
                0 <= i < ids.len() ==> if made[i] {
                    t.tabs.contains_key(ids[i]) && t.tabs[ids[i]].url == pages[i].1
                } else {
                    !t.tabs.contains_key(ids[i])
                }
        }),
    decreases pages.len(),
{
    if pages.len() > 0 {
        let ids0 = ids.drop_last();
        let made0 = made.drop_last();
        let id = ids.last();
        law_reopened_tabs_show_the_saved_pages(s, w, pages.drop_last(), ids0, made0);
        lemma_made_ids(ids0, made0);
        let before = made_ids(ids0, made0);
        let u = reopened(s.with_window_cleared(w), w, pages.drop_last(), ids0, made0);
        let t = reopened(s.with_window_cleared(w), w, pages, ids, made);
        assert(!before.contains(id)) by {
            if before.contains(id) {
                let j = ids0.index_of(id);
                assert(ids[j] == ids[ids.len() - 1]);
            }
        }
        let entered = u.with_tab(w, new_tab_view(id, pages.last().1));
        let more = before.push(id);
        assert(entered.windows[w].tab_ids == more);
        let n = before.len() as int;
        assert(first_at(more, id, n)) by {
            assert forall|k: int| 0 <= k < n implies #[trigger] more[k] != id by {
                assert(before.contains(before[k]));
            }
        }
        lemma_first_index(more, id, n);
        assert(more.remove(n) =~= before);
        assert forall|i: int| #![trigger ids[i]] 0 <= i < ids.len() implies if made[i] {
            t.tabs.contains_key(ids[i]) && t.tabs[ids[i]].url == pages[i].1
        } else {
            !t.tabs.contains_key(ids[i])
        } by {
            if i < ids0.len() {
                assert(ids0[i] == ids[i]);
                assert(made0[i] == made[i]);
                assert(ids[i] != id);
            }
        }
    }
}

/// Making tabs again keeps the windows in order, unless another window already
/// lists a tab of one of their ids. The other windows list nothing new.
pub proof fn law_reopening_keeps_order(
    s: AppView,
    w: Seq<char>,
    pages: Seq<(Seq<char>, Seq<char>)>,
    ids: Seq<Seq<char>>,
    made: Seq<bool>,
)
    requires
        s.windows_in_order(),
        s.windows.contains_key(w),
        ids.len() == pages.len(),
        made.len() == pages.len(),
        forall|v: Seq<char>, i: int|
            0 <= i < ids.len() && #[trigger] s.lists(v, #[trigger] ids[i]) ==> v == w,
    ensures
        reopened(s.with_window_cleared(w), w, pages, ids, made).windows_in_order(),
        reopened(s.with_window_cleared(w), w, pages, ids, made).windows.contains_key(w),
        forall|v: Seq<char>, id: Seq<char>| #[trigger]
            reopened(s.with_window_cleared(w), w, pages, ids, made).lists(v, id) && v != w
                ==> s.lists(v, id),
    decreases pages.len(),
{
    law_clearing_keeps_order(s, w);
    if pages.len() > 0 {
        let ids0 = ids.drop_last();
        let made0 = made.drop_last();
        assert forall|v: Seq<char>, i: int|
            0 <= i < ids0.len() && #[trigger] s.lists(v, #[trigger] ids0[i]) implies v == w by {
            assert(s.lists(v, ids[i]));
        }
        law_reopening_keeps_order(s, w, pages.drop_last(), ids0, made0);
        let u = reopened(s.with_window_cleared(w), w, pages.drop_last(), ids0, made0);
        let tab = new_tab_view(ids.last(), pages.last().1);
        assert forall|v: Seq<char>| #[trigger] u.lists(v, tab.id) implies v == w by {
            if v != w {
                assert(s.lists(v, ids[ids.len() - 1]));
            }
        }
        law_register_keeps_order(u, w, tab);
        if !made.last() {
            law_remove_keeps_order(u.with_tab(w, tab), w, tab.id);
        }
    }
}

/// Making tabs again leaves every known tab listed under its own id.
pub proof fn law_reopening_keeps_tabs_listed(
    s: AppView,
    w: Seq<char>,
    pages: Seq<(Seq<char>, Seq<char>)>,
    ids: Seq<Seq<char>>,
    made: Seq<bool>,
)
    requires
        s.tabs_listed(),
        s.windows.contains_key(w),
        ids.len() == pages.len(),
        made.len() == pages.len(),
    ensures
        reopened(s.with_window_cleared(w), w, pages, ids, made).tabs_listed(),
        reopened(s.with_window_cleared(w), w, pages, ids, made).windows.contains_key(w),
    decreases pages.len(),
{
    law_clearing_keeps_tabs_listed(s, w);
    if pages.len() > 0 {
        law_reopening_keeps_tabs_listed(
            s,
            w,
            pages.drop_last(),
            ids.drop_last(),
            made.drop_last(),
        );
        let u = reopened(
            s.with_window_cleared(w),
            w,
            pages.drop_last(),
            ids.drop_last(),
            made.drop_last(),
        );
        let tab = new_tab_view(ids.last(), pages.last().1);
        law_register_keeps_tabs_listed(u, w, tab);
        if !made.last() {
            let entered = u.with_tab(w, tab);
            assert(entered.lists(w, tab.id)) by {
                lemma_entered(u.windows[w].tab_ids, tab.id, entered.windows[w].tab_ids);
                assert(entered.windows[w].tab_ids.contains(tab.id));
            }
            law_remove_keeps_tabs_listed(entered, w, tab.id);
        }
    }
}

/// Where two states have the same tabs, and every window of the one lists in the
/// other what it lists there, with the same tab active, and new windows list
/// nothing, the order of the windows passes from the one to the other.
proof fn lemma_same_lists_keep_order(s: AppView, t: AppView)
    requires
        s.windows_in_order(),
        t.tabs == s.tabs,
        forall|v: Seq<char>| #[trigger]
            s.windows.contains_key(v) ==> t.windows.contains_key(v) && t.windows[v].tab_ids
                == s.windows[v].tab_ids && t.windows[v].active_tab_id
                == s.windows[v].active_tab_id,
        forall|v: Seq<char>| #[trigger]
            t.windows.contains_key(v) && !s.windows.contains_key(v) ==> t.windows[v].tab_ids
                == Seq::<Seq<char>>::empty() && t.windows[v].active_tab_id is None,
    ensures
        t.windows_in_order(),
{
    assert forall|v: Seq<char>, id: Seq<char>| #[trigger] t.lists(v, id) <==> s.lists(v, id) by {
        assert(s.windows.contains_key(v) ==> t.windows[v].tab_ids == s.windows[v].tab_ids);
        assert(t.windows.contains_key(v) && !s.windows.contains_key(v)
            ==> t.windows[v].tab_ids.len() == 0);
    }
    assert forall|v: Seq<char>| #[trigger] t.windows.contains_key(v) implies t.window_ok(v) by {
        if s.windows.contains_key(v) {
            assert(s.window_ok(v));
        }
    }
}

/// Entering the main window keeps the windows in order, and changes nothing the
/// second time.
pub proof fn law_main_window_keeps_order(s: AppView)
    requires
        s.windows_in_order(),
    ensures
        with_main_window(s).windows_in_order(),
        with_main_window(with_main_window(s)) == with_main_window(s),
{
    lemma_same_lists_keep_order(s, with_main_window(s));
}

/// An event of a window keeps the windows in order, and leaves all tabs as they
/// are.
pub proof fn law_event_keeps_order(s: AppView, label: Seq<char>, event: WindowEvent)
    requires
        s.windows_in_order(),
    ensures
        after_event(s, label, event).windows_in_order(),
        after_event(s, label, event).tabs == s.tabs,
{
    lemma_same_lists_keep_order(s, after_event(s, label, event));
}

/// A page that a tab shows keeps the windows in order, and changes no tab but
/// that one, and of that one no more than its title and address.
pub proof fn law_page_keeps_order(
    s: AppView,
    id: Seq<char>,
    title: Option<Seq<char>>,
    url: Seq<char>,
    notion: bool,
)
    requires
        s.windows_in_order(),
    ensures
        after_page(s, id, title, url, notion).windows_in_order(),
        !notion ==> after_page(s, id, title, url, notion) == s,
        forall|x: Seq<char>| #[trigger]
            s.tabs.contains_key(x) ==> {
                let t = after_page(s, id, title, url, notion);
                &&& t.tabs.contains_key(x)
                &&& x != id ==> t.tabs[x] == s.tabs[x]
                &&& t.tabs[x] == (TabView {
                    title: t.tabs[x].title,
                    url: t.tabs[x].url,
                    ..s.tabs[x]
                })
            },
{
    let t = after_page(s, id, title, url, notion);
    if notion && s.tabs.contains_key(id) {
        law_update_keeps_order(s, id, t.tabs[id].title, url);
        assert(t == s.with_page(id, t.tabs[id].title, url));
    }
}

/// A style sheet that is in force is the one that the file names. Its path lies
/// in the directory of themes and has the extension of a style sheet, and the
/// file is there.
pub proof fn law_style_sheet_in_force_is_a_theme(
    file: ConfigFile,
    themes: Seq<PathPartView>,
    css_exists: bool,
)
    ensures
        config_in_force(file, themes, css_exists).custom_css_path matches Some(path) ==> {
            &&& file matches ConfigFile::Parsed(config) && config@.custom_css_path == Some(path)
            &&& themes.is_prefix_of(path.parts)
            &&& css_path(path.parts)
            &&& css_exists
        },
{
}

/// Once there is a new directory nothing is moved any more, and nothing is moved
/// before it has been made.
pub proof fn law_migration_happens_once(old_dir: bool, new_dir: bool, config: bool, state: bool)
    ensures
        new_dir ==> migration_steps(old_dir, new_dir, config, state).len() == 0,
        migration_steps(old_dir, new_dir, config, state).len() > 0 ==> migration_steps(
            old_dir,
            new_dir,
            config,
            state,
        )[0] is CreateDir,
{
}

/// A page goes where it asks to exactly where it asks for no action and the
/// policy allows the address inside the application. Of the other addresses that
/// ask for no action, those that the policy allows outside are opened outside,
/// and the rest are blocked.
pub proof fn law_only_allowed_addresses_are_entered(
    url: Seq<char>,
    internal: bool,
    external: bool,
)
    ensures
        navigation_end(url, internal, external) is Allow <==> action_of(url) is None && internal,
        navigation_end(url, internal, external) is OpenExternal <==> action_of(url) is None
            && !internal && external,
        navigation_end(url, internal, external) is Block <==> action_of(url) is None && !internal
            && !external,
        action_of(url) matches Some(action) ==> navigation_end(url, internal, external)
            == NavigationView::Action(action),
{
}

/// Two answers end the decision on a new window, and what it comes to is what
/// they say.
pub proof fn law_popups_go_where_the_policy_says(route: bool, external: bool)
    ensures
        popup_next(popup_next(PopupStep::AskRoute, route), external) == (if !route {
            PopupStep::OpenTab
        } else if external {
            PopupStep::OpenExternal
        } else {
            PopupStep::Block
        }),
{
}

/// Of the tabs in a plan at most one is to be seen, and one is where the tab
/// that is asked for is among them.
pub proof fn law_one_tab_is_seen(plan: Seq<(String, bool)>, tab_id: Seq<char>)
    requires
        planned_ids(plan).no_duplicates(),
        forall|i: int| 0 <= i < plan.len() ==> (#[trigger] plan[i]).1 == (plan[i].0@ == tab_id),
    ensures
        forall|i: int, j: int|
            0 <= i < plan.len() && 0 <= j < plan.len() && (#[trigger] plan[i]).1 && (
            #[trigger] plan[j]).1 ==> i == j,
        planned_ids(plan).contains(tab_id) ==> exists|i: int|
            0 <= i < plan.len() && (#[trigger] plan[i]).1,
{
    if planned_ids(plan).contains(tab_id) {
        let k = planned_ids(plan).index_of(tab_id);
        assert(plan[k].0@ == tab_id);
        assert(plan[k].1);
    }
    assert forall|i: int, j: int|
        0 <= i < plan.len() && 0 <= j < plan.len() && (#[trigger] plan[i]).1 && (
        #[trigger] plan[j]).1 implies i == j by {
        assert(planned_ids(plan)[i] == plan[i].0@);
        assert(planned_ids(plan)[j] == plan[j].0@);
    }
}

/// Whether every tab stands under its own id.
pub open spec fn keyed_by_id(tabs: Map<Seq<char>, ControllerView>) -> bool {
    forall|id: Seq<char>| #[trigger] tabs.contains_key(id) ==> tabs[id].tab_id == id
}

/// Keeping a tab under its id, and giving a tab up, leave every tab under its
/// own id.
pub proof fn law_tabs_stay_under_their_ids(
    tabs: Map<Seq<char>, ControllerView>,
    id: Seq<char>,
    tab: ControllerView,
)
    requires
        keyed_by_id(tabs),
        tab.tab_id == id,
    ensures
        keyed_by_id(tabs.insert(id, tab)),
        keyed_by_id(tabs.remove(id)),
{
}

/// Going `d` tabs on and then `d` tabs back leads to the tab where it began.
pub proof fn law_switching_back(window: WindowView, d: int)
    requires
        window.tab_ids.no_duplicates(),
        window.active_tab_id matches Some(id) && window.tab_ids.contains(id),
    ensures
        ({
            let there = WindowView {
                active_tab_id: Some(window.tab_ids[relative_place(window, d)]),
                ..window
            };
            &&& 0 <= relative_place(window, d) < window.tab_ids.len()
            &&& current_place(there) == relative_place(window, d)
            &&& window.tab_ids[relative_place(there, -d)] == window.active_tab_id->0
        }),
{
    let ids = window.tab_ids;
    let n = ids.len() as int;
    let here = window.active_tab_id->0;
    lemma_has_first(ids, here);
    let c = current_place(window);
    assert(0 <= c < n && ids[c] == here);
    let p = relative_place(window, d);
    assert(0 <= p < n) by {
        vstd::arithmetic::div_mod::lemma_mod_bound(c + d, n);
    }
    assert(ids.contains(ids[p]));
    lemma_has_first(ids, ids[p]);
    assert(first_index(ids, ids[p]) == p);
    assert((p - d) % n == c) by {
        vstd::arithmetic::div_mod::lemma_fundamental_div_mod(c + d, n);
        let q = (c + d) / n;
        assert(p - d == (-q) * n + c) by (nonlinear_arith)
            requires
                c + d == n * q + p,
        ;
        vstd::arithmetic::div_mod::lemma_mod_multiples_vanish(-q, c, n);
        vstd::arithmetic::div_mod::lemma_small_mod(c as nat, n as nat);
    }
}

} // verus!
