//! The windows of the application, their tabs, and the operations that keep
//! one tab of each window active.

use crate::string_map::StringMap;
use crate::text::{
    copy_text_opt, copy_texts, first_index, holds_text, lemma_first_index, position_of, text_opt,
    texts,
};
use vstd::prelude::*;

verus! {

/// The bit pattern of a 64-bit floating-point number.
pub type FloatBits = u64;

/// The place and the size of a window, in floating-point bit patterns.
#[derive(Debug, Clone, Copy)]
pub struct Bounds {
    pub x: Option<FloatBits>,
    pub y: Option<FloatBits>,
    pub width: FloatBits,
    pub height: FloatBits,
}

/// One tab.
#[derive(Debug)]
pub struct TabState {
    pub id: String,
    pub title: String,
    pub url: String,
    pub is_active: bool,
    pub is_pinned: bool,
}

/// One window and the tabs it shows, in their order.
#[derive(Debug)]
pub struct WindowState {
    pub id: String,
    pub bounds: Bounds,
    pub is_focused: bool,
    pub is_maximized: bool,
    pub is_minimized: bool,
    pub is_full_screen: bool,
    pub tab_ids: Vec<String>,
    pub active_tab_id: Option<String>,
}

/// All windows and tabs.
#[derive(Debug)]
pub struct AppState {
    pub windows: StringMap<WindowState>,
    pub tabs: StringMap<TabState>,
    pub focused_window_id: Option<String>,
}

/// What a [`TabState`] holds.
#[verifier::ext_equal]
pub struct TabView {
    pub id: Seq<char>,
    pub title: Seq<char>,
    pub url: Seq<char>,
    pub is_active: bool,
    pub is_pinned: bool,
}

/// What a [`WindowState`] holds.
#[verifier::ext_equal]
pub struct WindowView {
    pub id: Seq<char>,
    pub bounds: Bounds,
    pub is_focused: bool,
    pub is_maximized: bool,
    pub is_minimized: bool,
    pub is_full_screen: bool,
    pub tab_ids: Seq<Seq<char>>,
    pub active_tab_id: Option<Seq<char>>,
}

/// What an [`AppState`] holds.
#[verifier::ext_equal]
pub struct AppView {
    pub windows: Map<Seq<char>, WindowView>,
    pub tabs: Map<Seq<char>, TabView>,
    pub focused_window_id: Option<Seq<char>>,
}

impl View for TabState {
    type V = TabView;

    open spec fn view(&self) -> TabView {
        TabView {
            id: self.id@,
            title: self.title@,
            url: self.url@,
            is_active: self.is_active,
            is_pinned: self.is_pinned,
        }
    }
}

impl View for WindowState {
    type V = WindowView;

    open spec fn view(&self) -> WindowView {
        WindowView {
            id: self.id@,
            bounds: self.bounds,
            is_focused: self.is_focused,
            is_maximized: self.is_maximized,
            is_minimized: self.is_minimized,
            is_full_screen: self.is_full_screen,
            tab_ids: texts(self.tab_ids@),
            active_tab_id: text_opt(self.active_tab_id),
        }
    }
}

impl View for AppState {
    type V = AppView;

    open spec fn view(&self) -> AppView {
        AppView {
            windows: self.windows@,
            tabs: self.tabs@,
            focused_window_id: text_opt(self.focused_window_id),
        }
    }
}

impl Clone for TabState {
    fn clone(&self) -> (copy: Self)
        ensures
            copy@ == self@,
    {
        TabState {
            id: self.id.clone(),
            title: self.title.clone(),
            url: self.url.clone(),
            is_active: self.is_active,
            is_pinned: self.is_pinned,
        }
    }
}

impl Clone for WindowState {
    fn clone(&self) -> (copy: Self)
        ensures
            copy@ == self@,
    {
        WindowState {
            id: self.id.clone(),
            bounds: self.bounds,
            is_focused: self.is_focused,
            is_maximized: self.is_maximized,
            is_minimized: self.is_minimized,
            is_full_screen: self.is_full_screen,
            tab_ids: copy_texts(&self.tab_ids),
            active_tab_id: copy_text_opt(&self.active_tab_id),
        }
    }
}

impl Clone for AppState {
    fn clone(&self) -> (copy: Self)
        ensures
            copy@ == self@,
    {
        AppState {
            windows: self.windows.clone(),
            tabs: self.tabs.clone(),
            focused_window_id: copy_text_opt(&self.focused_window_id),
        }
    }
}

/// `tabs` with each tab among `ids` active exactly where it is `pick`; the
/// other tabs are as they were.
pub open spec fn marked(
    tabs: Map<Seq<char>, TabView>,
    ids: Seq<Seq<char>>,
    pick: Option<Seq<char>>,
) -> Map<Seq<char>, TabView> {
    Map::new(
        |k: Seq<char>| tabs.contains_key(k),
        |k: Seq<char>|
            if ids.contains(k) {
                TabView { is_active: pick == Some(k), ..tabs[k] }
            } else {
                tabs[k]
            },
    )
}

/// The tabs of the ids `ids`, in their order, as far as they are known.
pub open spec fn known_tabs(tabs: Map<Seq<char>, TabView>, ids: Seq<Seq<char>>) -> Seq<TabView> {
    ids.filter_map(
        |id: Seq<char>|
            if tabs.contains_key(id) {
                Some(tabs[id])
            } else {
                None
            },
    )
}

/// The id and the address of each of the tabs `ids`, in their order, as far as
/// they are known.
pub open spec fn known_pages(
    tabs: Map<Seq<char>, TabView>,
    ids: Seq<Seq<char>>,
) -> Seq<(Seq<char>, Seq<char>)> {
    ids.filter_map(
        |id: Seq<char>|
            if tabs.contains_key(id) {
                Some((id, tabs[id].url))
            } else {
                None
            },
    )
}

/// What a list of tabs holds.
pub open spec fn tab_views(tabs: Seq<TabState>) -> Seq<TabView> {
    tabs.map_values(|tab: TabState| tab@)
}

/// What a list of ids and addresses holds.
pub open spec fn page_views(pages: Seq<(String, String)>) -> Seq<(Seq<char>, Seq<char>)> {
    pages.map_values(|page: (String, String)| (page.0@, page.1@))
}

/// The tab that is active once the tab at place `i` of `window` is gone: the
/// one that was, unless that is the tab taken out; then the tab that moves into
/// its place, or the last one, or none.
pub open spec fn successor(window: WindowView, i: int) -> Option<Seq<char>> {
    let rest = window.tab_ids.remove(i);
    if window.active_tab_id != Some(window.tab_ids[i]) {
        window.active_tab_id
    } else if rest.len() == 0 {
        None
    } else if i < rest.len() {
        Some(rest[i])
    } else {
        Some(rest.last())
    }
}

impl AppView {
    /// Whether the window `window_id` is there and lists the tab `tab_id`.
    pub open spec fn lists(self, window_id: Seq<char>, tab_id: Seq<char>) -> bool {
        self.windows.contains_key(window_id) && self.windows[window_id].tab_ids.contains(tab_id)
    }

    /// Whether some window lists the tab `tab_id`.
    pub open spec fn listed(self, tab_id: Seq<char>) -> bool {
        exists|window_id: Seq<char>| self.lists(window_id, tab_id)
    }

    /// Whether the window `window_id` lists its tabs once each, all of them
    /// known, with one of them active if there are any, and that one marked.
    pub open spec fn window_ok(self, window_id: Seq<char>) -> bool {
        let window = self.windows[window_id];
        &&& window.tab_ids.no_duplicates()
        &&& forall|id: Seq<char>| #[trigger]
            window.tab_ids.contains(id) ==> self.tabs.contains_key(id) && (
            self.tabs[id].is_active <==> window.active_tab_id == Some(id))
        &&& match window.active_tab_id {
            Some(id) => window.tab_ids.contains(id),
            None => window.tab_ids.len() == 0,
        }
    }

    /// Whether every window is in order, and no two windows list the same tab.
    pub open spec fn windows_in_order(self) -> bool {
        &&& forall|w: Seq<char>| #[trigger] self.windows.contains_key(w) ==> self.window_ok(w)
        &&& forall|w1: Seq<char>, w2: Seq<char>, id: Seq<char>| #[trigger]
            self.lists(w1, id) && #[trigger] self.lists(w2, id) ==> w1 == w2
    }

    /// Whether every known tab stands under its own id, in some window.
    pub open spec fn tabs_listed(self) -> bool {
        forall|id: Seq<char>| #[trigger]
            self.tabs.contains_key(id) ==> self.listed(id) && self.tabs[id].id == id
    }

    /// Whether the windows are in order and every known tab is listed.
    pub open spec fn well_formed(self) -> bool {
        self.windows_in_order() && self.tabs_listed()
    }

    /// The state with `tab` added to the window `window_id` as its active tab.
    pub open spec fn with_tab(self, window_id: Seq<char>, tab: TabView) -> AppView {
        if self.windows.contains_key(window_id) {
            let window = self.windows[window_id];
            AppView {
                windows: self.windows.insert(
                    window_id,
                    WindowView {
                        tab_ids: if window.tab_ids.contains(tab.id) {
                            window.tab_ids
                        } else {
                            window.tab_ids.push(tab.id)
                        },
                        active_tab_id: Some(tab.id),
                        ..window
                    },
                ),
                tabs: marked(self.tabs, window.tab_ids, None).insert(
                    tab.id,
                    TabView { is_active: true, ..tab },
                ),
                focused_window_id: self.focused_window_id,
            }
        } else {
            self
        }
    }

    /// The state with `tab_id` as the active tab of the window `window_id`.
    pub open spec fn with_active(self, window_id: Seq<char>, tab_id: Seq<char>) -> AppView {
        let window = self.windows[window_id];
        AppView {
            windows: self.windows.insert(
                window_id,
                WindowView { active_tab_id: Some(tab_id), ..window },
            ),
            tabs: marked(self.tabs, window.tab_ids, Some(tab_id)),
            focused_window_id: self.focused_window_id,
        }
    }

    /// The state without the tab at place `i` of the window `window_id`.
    pub open spec fn without_tab_at(self, window_id: Seq<char>, i: int) -> AppView {
        let window = self.windows[window_id];
        let rest = window.tab_ids.remove(i);
        let next = successor(window, i);
        AppView {
            windows: self.windows.insert(
                window_id,
                WindowView { tab_ids: rest, active_tab_id: next, ..window },
            ),
            tabs: marked(self.tabs.remove(window.tab_ids[i]), rest, next),
            focused_window_id: self.focused_window_id,
        }
    }

    /// The state without the first place at which the window `window_id` lists
    /// the tab `tab_id`.
    pub open spec fn without_tab(self, window_id: Seq<char>, tab_id: Seq<char>) -> AppView {
        self.without_tab_at(window_id, first_index(self.windows[window_id].tab_ids, tab_id))
    }

    /// The tab that is active in the window `window_id` once `tab_id` is gone.
    pub open spec fn next_active(
        self,
        window_id: Seq<char>,
        tab_id: Seq<char>,
    ) -> Option<Seq<char>> {
        let window = self.windows[window_id];
        successor(window, first_index(window.tab_ids, tab_id))
    }

    /// The state without the tabs of the window `window_id`, which stays.
    pub open spec fn with_window_cleared(self, window_id: Seq<char>) -> AppView {
        if self.windows.contains_key(window_id) {
            let window = self.windows[window_id];
            AppView {
                windows: self.windows.insert(
                    window_id,
                    WindowView { tab_ids: Seq::empty(), active_tab_id: None, ..window },
                ),
                tabs: self.tabs.remove_keys(window.tab_ids.to_set()),
                focused_window_id: self.focused_window_id,
            }
        } else {
            self
        }
    }

    /// The state with a new title and address for the tab `tab_id`.
    pub open spec fn with_page(
        self,
        tab_id: Seq<char>,
        title: Seq<char>,
        url: Seq<char>,
    ) -> AppView {
        if self.tabs.contains_key(tab_id) {
            AppView {
                tabs: self.tabs.insert(tab_id, TabView { title, url, ..self.tabs[tab_id] }),
                ..self
            }
        } else {
            self
        }
    }
}

/// Marks each tab among `ids` as active exactly where it is `pick`.
fn mark_tabs(tabs: &mut StringMap<TabState>, ids: &Vec<String>, pick: &Option<String>)
    ensures
        final(tabs)@ == marked(old(tabs)@, texts(ids@), text_opt(*pick)),
{
    let ghost before = tabs@;
    let mut i: usize = 0;
    assert(tabs@ =~= marked(before, texts(ids@).take(0), text_opt(*pick)));
    while i < ids.len()
        invariant
            i <= ids.len(),
            tabs@ == marked(before, texts(ids@).take(i as int), text_opt(*pick)),
        decreases ids.len() - i,
    {
        let ghost now = tabs@;
        let ghost done = texts(ids@).take(i as int);
        let ghost more = texts(ids@).take(i + 1);
        let active = holds_text(pick, ids[i].as_str());
        match tabs.get_mut(ids[i].as_str()) {
            Some(tab) => {
                tab.is_active = active;
            },
            None => {},
        }
        proof {
            let id = ids@[i as int]@;
            assert(more =~= done.push(id));
            assert forall|k: Seq<char>| more.contains(k) <==> done.contains(k) || k == id by {
                if done.contains(k) {
                    assert(more[done.index_of(k)] == k);
                }
                assert(more[i as int] == id);
            }
            assert(tabs@ =~= marked(before, more, text_opt(*pick)));
        }
        i += 1;
    }
    assert(texts(ids@).take(ids.len() as int) =~= texts(ids@));
}

impl Default for AppState {
    fn default() -> (state: Self)
        ensures
            state@.windows == Map::<Seq<char>, WindowView>::empty(),
            state@.tabs == Map::<Seq<char>, TabView>::empty(),
            state@.focused_window_id is None,
            state@.well_formed(),
    {
        Self::new()
    }
}

impl AppState {
    /// A state without windows and tabs.
    pub fn new() -> (state: Self)
        ensures
            state@.windows == Map::<Seq<char>, WindowView>::empty(),
            state@.tabs == Map::<Seq<char>, TabView>::empty(),
            state@.focused_window_id is None,
            state@.well_formed(),
    {
        AppState { windows: StringMap::new(), tabs: StringMap::new(), focused_window_id: None }
    }

    /// Adds `tab` to the window `window_id` as its active tab. Where there is no
    /// such window nothing changes.
    pub fn register_tab(&mut self, window_id: &str, tab: TabState)
        ensures
            final(self)@ == old(self)@.with_tab(window_id@, tab@),
    {
        match self.windows.get(window_id) {
            Some(window) => {
                mark_tabs(&mut self.tabs, &window.tab_ids, &None);
            },
            None => {
                return ;
            },
        }
        let mut tab = tab;
        tab.is_active = true;
        match self.windows.get_mut(window_id) {
            Some(window) => {
                let ghost ids = window.tab_ids@;
                if position_of(&window.tab_ids, tab.id.as_str()).is_none() {
                    window.tab_ids.push(tab.id.clone());
                    assert(texts(window.tab_ids@) =~= texts(ids).push(tab.id@));
                }
                window.active_tab_id = Some(tab.id.clone());
            },
            None => {},
        }
        self.tabs.insert(tab.id.clone(), tab);
    }

    /// A window that lists the tab `tab_id`, if one does.
    pub fn window_of(&self, tab_id: &str) -> (window_id: Option<String>)
        ensures
            match window_id {
                Some(w) => self@.lists(w@, tab_id@),
                None => !self@.listed(tab_id@),
            },
    {
        let keys = self.windows.keys();
        let mut i: usize = 0;
        while i < keys.len()
            invariant
                i <= keys.len(),
                forall|k: Seq<char>| texts(keys@).contains(k) <==> self@.windows.contains_key(k),
                forall|j: int| 0 <= j < i ==> !self@.lists(#[trigger] texts(keys@)[j], tab_id@),
            decreases keys.len() - i,
        {
            assert(texts(keys@)[i as int] == keys@[i as int]@);
            match self.windows.get(keys[i].as_str()) {
                Some(window) => {
                    if position_of(&window.tab_ids, tab_id).is_some() {
                        return Some(keys[i].clone());
                    }
                },
                None => {},
            }
            i += 1;
        }
        assert forall|w: Seq<char>| !self@.lists(w, tab_id@) by {
            if self@.lists(w, tab_id@) {
                assert(texts(keys@).contains(w));
                let j = texts(keys@).index_of(w);
                assert(texts(keys@)[j] == w);
            }
        }
        None
    }

    /// Makes `tab_id` the active tab of the window `window_id`, which lists it.
    pub fn activate_tab_in(&mut self, window_id: &str, tab_id: &str)
        requires
            old(self)@.lists(window_id@, tab_id@),
        ensures
            final(self)@ == old(self)@.with_active(window_id@, tab_id@),
    {
        let pick = Some(tab_id.to_owned());
        match self.windows.get(window_id) {
            Some(window) => {
                mark_tabs(&mut self.tabs, &window.tab_ids, &pick);
            },
            None => {},
        }
        match self.windows.get_mut(window_id) {
            Some(window) => {
                window.active_tab_id = pick;
            },
            None => {},
        }
    }

    /// Makes `tab_id` the active tab of a window that lists it, and tells
    /// whether one does. Of several windows that list it, one is changed.
    pub fn activate_tab(&mut self, tab_id: &str) -> (found: bool)
        ensures
            found == old(self)@.listed(tab_id@),
            !found ==> final(self)@ == old(self)@,
            found ==> exists|w: Seq<char>| #[trigger]
                old(self)@.lists(w, tab_id@) && final(self)@ == old(self)@.with_active(w, tab_id@),
    {
        match self.window_of(tab_id) {
            Some(window_id) => {
                self.activate_tab_in(window_id.as_str(), tab_id);
                true
            },
            None => false,
        }
    }

    /// Takes the tab at place `index` out of the window `window_id`, and tells
    /// which tab is active there now.
    pub fn remove_tab_at(&mut self, window_id: &str, index: usize) -> (next_tab_id: Option<String>)
        requires
            old(self)@.windows.contains_key(window_id@),
            index < old(self)@.windows[window_id@].tab_ids.len(),
        ensures
            final(self)@ == old(self)@.without_tab_at(window_id@, index as int),
            text_opt(next_tab_id) == successor(old(self)@.windows[window_id@], index as int),
    {
        let mut next_tab_id: Option<String> = None;
        match self.windows.get_mut(window_id) {
            Some(window) => {
                let ghost ids = window.tab_ids@;
                let tab_id = window.tab_ids.remove(index);
                assert(texts(window.tab_ids@) =~= texts(ids).remove(index as int));
                assert(tab_id@ == texts(ids)[index as int]);
                let _ = self.tabs.remove(tab_id.as_str());
                if !holds_text(&window.active_tab_id, tab_id.as_str()) {
                    next_tab_id = copy_text_opt(&window.active_tab_id);
                } else if window.tab_ids.len() > 0 {
                    let last: usize = window.tab_ids.len() - 1;
                    let place: usize = if index < last {
                        index
                    } else {
                        last
                    };
                    next_tab_id = Some(window.tab_ids[place].clone());
                    assert(texts(window.tab_ids@)[place as int] == window.tab_ids@[place as int]@);
                }
                window.active_tab_id = copy_text_opt(&next_tab_id);
                mark_tabs(&mut self.tabs, &window.tab_ids, &next_tab_id);
            },
            None => {},
        }
        next_tab_id
    }

    /// Takes the tab `tab_id` out of a window that lists it, and tells which
    /// window that was and which tab is active there now. Where no window lists
    /// the tab nothing changes. Of several windows that list it, one is changed;
    /// of several places in it, the first is taken out.
    pub fn remove_tab(&mut self, tab_id: &str) -> (out: Option<(String, Option<String>)>)
        ensures
            out is Some <==> old(self)@.listed(tab_id@),
            match out {
                Some((window_id, next_tab_id)) => {
                    &&& old(self)@.lists(window_id@, tab_id@)
                    &&& final(self)@ == old(self)@.without_tab(window_id@, tab_id@)
                    &&& text_opt(next_tab_id) == old(self)@.next_active(window_id@, tab_id@)
                },
                None => final(self)@ == old(self)@,
            },
    {
        match self.window_of(tab_id) {
            Some(window_id) => {
                let index: Option<usize> = match self.windows.get(window_id.as_str()) {
                    Some(window) => position_of(&window.tab_ids, tab_id),
                    None => None,
                };
                match index {
                    Some(i) => {
                        proof {
                            lemma_first_index(self@.windows[window_id@].tab_ids, tab_id@, i as int);
                        }
                        let next_tab_id = self.remove_tab_at(window_id.as_str(), i);
                        Some((window_id, next_tab_id))
                    },
                    None => None,
                }
            },
            None => None,
        }
    }

    /// Gives the tab `tab_id`, if there is one, a new title and address.
    pub fn update_tab(&mut self, tab_id: &str, title: String, url: String)
        ensures
            final(self)@ == old(self)@.with_page(tab_id@, title@, url@),
    {
        match self.tabs.get_mut(tab_id) {
            Some(tab) => {
                tab.title = title;
                tab.url = url;
            },
            None => {},
        }
    }

    /// The tabs of the window `window_id`, in their order. A window that is not
    /// there has none.
    pub fn window_tabs(&self, window_id: &str) -> (out: Vec<TabState>)
        ensures
            tab_views(out@) == (if self@.windows.contains_key(window_id@) {
                known_tabs(self@.tabs, self@.windows[window_id@].tab_ids)
            } else {
                Seq::empty()
            }),
    {
        let mut out: Vec<TabState> = Vec::new();
        assert(tab_views(out@) =~= Seq::empty());
        match self.windows.get(window_id) {
            Some(window) => {
                let ghost ids = texts(window.tab_ids@);
                let mut i: usize = 0;
                assert(ids.take(0) =~= Seq::empty());
                reveal(Seq::filter_map);
                while i < window.tab_ids.len()
                    invariant
                        i <= window.tab_ids.len(),
                        ids == texts(window.tab_ids@),
                        tab_views(out@) == known_tabs(self@.tabs, ids.take(i as int)),
                    decreases window.tab_ids.len() - i,
                {
                    let ghost before = out@;
                    assert(ids[i as int] == window.tab_ids@[i as int]@);
                    assert(ids.take(i + 1).drop_last() =~= ids.take(i as int));
                    reveal(Seq::filter_map);
                    match self.tabs.get(window.tab_ids[i].as_str()) {
                        Some(tab) => {
                            out.push(tab.clone());
                            assert(tab_views(out@) =~= tab_views(before).push(tab@));
                        },
                        None => {},
                    }
                    i += 1;
                }
                assert(ids.take(ids.len() as int) =~= ids);
                out
            },
            None => out,
        }
    }

    /// Takes the tabs out of the window `window_id`, which stays, and hands out
    /// the id and the address of each, in their order, and the id of the active
    /// one.
    pub fn clear_window(&mut self, window_id: &str) -> (out: (
        Vec<(String, String)>,
        Option<String>,
    ))
        ensures
            final(self)@ == old(self)@.with_window_cleared(window_id@),
            if old(self)@.windows.contains_key(window_id@) {
                let window = old(self)@.windows[window_id@];
                &&& page_views(out.0@) == known_pages(old(self)@.tabs, window.tab_ids)
                &&& text_opt(out.1) == window.active_tab_id
            } else {
                out.0@.len() == 0 && out.1 is None
            },
    {
        let mut pages: Vec<(String, String)> = Vec::new();
        assert(page_views(pages@) =~= Seq::empty());
        let (tab_ids, active) = match self.windows.get(window_id) {
            Some(window) => (
                copy_texts(&window.tab_ids),
                copy_text_opt(&window.active_tab_id),
            ),
            None => {
                return (pages, None);
            },
        };
        let ghost tabs0 = self.tabs@;
        let ghost windows0 = self.windows@;
        let ghost ids = texts(tab_ids@);
        let mut i: usize = 0;
        assert(ids.take(0) =~= Seq::empty());
        reveal(Seq::filter_map);
        while i < tab_ids.len()
            invariant
                i <= tab_ids.len(),
                ids == texts(tab_ids@),
                tabs0 == self.tabs@,
                page_views(pages@) == known_pages(tabs0, ids.take(i as int)),
            decreases tab_ids.len() - i,
        {
            let ghost before = pages@;
            assert(ids[i as int] == tab_ids@[i as int]@);
            assert(ids.take(i + 1).drop_last() =~= ids.take(i as int));
            reveal(Seq::filter_map);
            match self.tabs.get(tab_ids[i].as_str()) {
                Some(tab) => {
                    pages.push((tab_ids[i].clone(), tab.url.clone()));
                    assert(page_views(pages@) =~= page_views(before).push(
                        (ids[i as int], tab@.url),
                    ));
                },
                None => {},
            }
            i += 1;
        }
        assert(ids.take(ids.len() as int) =~= ids);
        let mut j: usize = 0;
        assert(self.tabs@ =~= tabs0.remove_keys(ids.take(0).to_set()));
        while j < tab_ids.len()
            invariant
                j <= tab_ids.len(),
                ids == texts(tab_ids@),
                self.windows@ == windows0,
                self.focused_window_id == old(self).focused_window_id,
                self.tabs@ == tabs0.remove_keys(ids.take(j as int).to_set()),
            decreases tab_ids.len() - j,
        {
            assert(ids[j as int] == tab_ids@[j as int]@);
            let _ = self.tabs.remove(tab_ids[j].as_str());
            proof {
                let done = ids.take(j as int);
                let more = ids.take(j + 1);
                assert(more =~= done.push(ids[j as int]));
                assert forall|k: Seq<char>|
                    more.contains(k) <==> done.contains(k) || k == ids[j as int] by {
                    if done.contains(k) {
                        assert(more[done.index_of(k)] == k);
                    }
                    assert(more[j as int] == ids[j as int]);
                }
                assert(self.tabs@ =~= tabs0.remove_keys(more.to_set()));
            }
            j += 1;
        }
        match self.windows.get_mut(window_id) {
            Some(window) => {
                window.tab_ids.clear();
                assert(texts(window.tab_ids@) =~= Seq::empty());
                window.active_tab_id = None;
            },
            None => {},
        }
        (pages, active)
    }
}

} // verus!
