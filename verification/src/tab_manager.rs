//! The tabs that have been made: their ids, how one comes to be, how one goes,
//! and which one is to be seen.

use crate::state::{AppState, TabState, TabView};
use crate::string_map::StringMap;
use crate::tab_controller::{ControllerView, TabController};
use crate::text::{same_text, texts};
use vstd::prelude::*;

verus! {

/// The title of a tab that has not told one.
pub const NEW_TAB_TITLE: &'static str = "Notion";

/// The tabs that have been made, under their ids.
#[derive(Debug)]
pub struct TabManager {
    pub tabs: StringMap<TabController>,
}

/// Whether `c` is a digit of a hexadecimal number, in lower case.
pub open spec fn hex_digit(c: char) -> bool {
    '0' <= c <= '9' || 'a' <= c <= 'f'
}

/// Whether `s` is the text of a random UUID: groups of 8, 4, 4, 4 and 12
/// hexadecimal digits with hyphens between, of version 4 and of the variant of
/// the standard.
pub open spec fn uuid_v4_text(s: Seq<char>) -> bool {
    &&& s.len() == 36
    &&& forall|i: int|
        0 <= i < 36 ==> if i == 8 || i == 13 || i == 18 || i == 23 {
            #[trigger] s[i] == '-'
        } else {
            hex_digit(s[i])
        }
    &&& s[14] == '4'
    &&& s[19] == '8' || s[19] == '9' || s[19] == 'a' || s[19] == 'b'
}

/// Calls `uuid::Uuid::new_v4` and writes the result with `to_string`. The text
/// has the form of a version 4 UUID; which one it is, is chance, and that it
/// differs from all others is not claimed. Where the system gives no random bytes
/// it does not return.
#[verifier::external_body]
fn new_uuid() -> (id: String)
    ensures
        uuid_v4_text(id@),
{
    uuid::Uuid::new_v4().to_string()
}

/// A tab of the id `tab_id` that is about to show `url`.
pub open spec fn new_tab_view(tab_id: Seq<char>, url: Seq<char>) -> TabView {
    TabView { id: tab_id, title: NEW_TAB_TITLE@, url, is_active: true, is_pinned: false }
}

/// The tab that a visibility plan speaks of, in each of its entries.
pub open spec fn planned_ids(plan: Seq<(String, bool)>) -> Seq<Seq<char>> {
    plan.map_values(|entry: (String, bool)| entry.0@)
}

impl TabManager {
    /// A manager without tabs.
    pub fn new() -> (manager: Self)
        ensures
            manager.tabs@ == Map::<Seq<char>, ControllerView>::empty(),
    {
        TabManager { tabs: StringMap::new() }
    }

    /// Enters a tab of the id `tab_id` for the address `url` into the state, as
    /// the active tab of the window `window_id`.
    pub fn enter_tab(state: &mut AppState, tab_id: &str, window_id: &str, url: &str)
        ensures
            final(state)@ == old(state)@.with_tab(window_id@, new_tab_view(tab_id@, url@)),
    {
        state.register_tab(
            window_id,
            TabState {
                id: tab_id.to_owned(),
                title: NEW_TAB_TITLE.to_owned(),
                url: url.to_owned(),
                is_active: true,
                is_pinned: false,
            },
        );
    }

    /// Begins a tab for the address `url` in the window `window_id`: gives it a
    /// random id and enters it into the state. [`TabManager::finish_tab`] ends
    /// what this begins.
    pub fn create_tab(state: &mut AppState, window_id: &str, url: &str) -> (tab_id: String)
        ensures
            uuid_v4_text(tab_id@),
            final(state)@ == old(state)@.with_tab(window_id@, new_tab_view(tab_id@, url@)),
    {
        let tab_id = new_uuid();
        Self::enter_tab(state, tab_id.as_str(), window_id, url);
        tab_id
    }

    /// Ends the making of the tab `tab_id`: keeps the tab if it could be made,
    /// and takes it out of the state again if it could not.
    pub fn finish_tab(
        &mut self,
        state: &mut AppState,
        tab_id: &str,
        made: Result<TabController, String>,
    ) -> (out: Result<String, String>)
        ensures
            match made {
                Ok(tab) => {
                    &&& out matches Ok(id) && id@ == tab_id@
                    &&& final(self).tabs@ == old(self).tabs@.insert(tab_id@, tab@)
                    &&& final(state)@ == old(state)@
                },
                Err(message) => {
                    &&& out matches Err(m) && m@ == message@
                    &&& final(self).tabs@ == old(self).tabs@
                    &&& !old(state)@.listed(tab_id@) ==> final(state)@ == old(state)@
                    &&& old(state)@.listed(tab_id@) ==> exists|w: Seq<char>| #[trigger]
                        old(state)@.lists(w, tab_id@) && final(state)@ == old(state)@.without_tab(
                            w,
                            tab_id@,
                        )
                },
            },
    {
        match made {
            Ok(tab) => {
                self.tabs.insert(tab_id.to_owned(), tab);
                Ok(tab_id.to_owned())
            },
            Err(message) => {
                let _ = state.remove_tab(tab_id);
                Err(message)
            },
        }
    }

    /// The id of the tab that stands under `tab_id`, if there is one.
    pub fn get_tab(&self, tab_id: &str) -> (id: Option<String>)
        ensures
            match id {
                Some(found) => self.tabs@.contains_key(tab_id@) && found@
                    == self.tabs@[tab_id@].tab_id,
                None => !self.tabs@.contains_key(tab_id@),
            },
    {
        match self.tabs.get(tab_id) {
            Some(tab) => Some(tab.tab_id.clone()),
            None => None,
        }
    }

    /// Gives up the tab `tab_id`, and hands it out if it was there.
    pub fn destroy_tab(&mut self, tab_id: &str) -> (tab: Option<TabController>)
        ensures
            final(self).tabs@ == old(self).tabs@.remove(tab_id@),
            match tab {
                Some(t) => old(self).tabs@.contains_key(tab_id@) && t@
                    == old(self).tabs@[tab_id@],
                None => !old(self).tabs@.contains_key(tab_id@),
            },
    {
        self.tabs.remove(tab_id)
    }

    /// The ids of the tabs, each once, in no promised order.
    pub fn get_tab_ids(&self) -> (ids: Vec<String>)
        ensures
            texts(ids@).no_duplicates(),
            forall|id: Seq<char>| texts(ids@).contains(id) <==> self.tabs@.contains_key(id),
    {
        self.tabs.keys()
    }

    /// What is to be done to see the tab `tab_id`: for each tab, in no promised
    /// order, whether it is to be seen. The tab `tab_id` is, the others are not.
    pub fn show_tab(&self, tab_id: &str) -> (plan: Vec<(String, bool)>)
        ensures
            planned_ids(plan@).no_duplicates(),
            forall|id: Seq<char>| planned_ids(plan@).contains(id) <==> self.tabs@.contains_key(id),
            forall|i: int|
                0 <= i < plan@.len() ==> (#[trigger] plan@[i]).1 == (plan@[i].0@ == tab_id@),
    {
        let ids = self.tabs.keys();
        let mut plan: Vec<(String, bool)> = Vec::new();
        let mut i: usize = 0;
        while i < ids.len()
            invariant
                i <= ids.len(),
                planned_ids(plan@) == texts(ids@).take(i as int),
                forall|j: int|
                    0 <= j < plan@.len() ==> (#[trigger] plan@[j]).1 == (plan@[j].0@ == tab_id@),
            decreases ids.len() - i,
        {
            let ghost before = plan@;
            let seen = same_text(ids[i].as_str(), tab_id);
            plan.push((ids[i].clone(), seen));
            assert(planned_ids(plan@) =~= planned_ids(before).push(ids@[i as int]@));
            assert(texts(ids@).take(i + 1) =~= texts(ids@).take(i as int).push(
                texts(ids@)[i as int],
            ));
            i += 1;
        }
        assert(texts(ids@).take(ids.len() as int) =~= texts(ids@));
        plan
    }
}

} // verus!
