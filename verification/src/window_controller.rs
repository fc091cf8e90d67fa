//! The window of the application: its entry in the state, the events it
//! reports, its tab strip, and the tabs it opens with.

use crate::state::{
    known_pages, page_views, AppState, AppView, Bounds, FloatBits, WindowState, WindowView,
};
use crate::tab_controller::{MAIN_WINDOW, NOTION_URL};
use crate::text::{holds_text, position_of, same_text, text_opt, texts};
use vstd::prelude::*;

verus! {

/// The label of the tab strip among the webviews of a window.
pub const TAB_BAR_LABEL: &'static str = "tab-strip";

/// How often the window asks for what makes tabs before it gives up.
pub const MAX_ATTEMPTS: u32 = 60;

/// The width of a new window, 1200.0.
pub const NEW_WINDOW_WIDTH: FloatBits = 0x4092_c000_0000_0000;

/// The height of a new window, 768.0.
pub const NEW_WINDOW_HEIGHT: FloatBits = 0x4088_0000_0000_0000;

/// A window, known by its label.
#[derive(Debug)]
pub struct WindowController {
    pub label: String,
}

/// What a window reports.
#[derive(Debug, Clone, Copy)]
pub enum WindowEvent {
    /// It is asked to close.
    CloseRequested,
    /// It has got the focus, or lost it.
    Focused(bool),
    /// It has this size now.
    Resized { width: FloatBits, height: FloatBits },
    /// It has this place now.
    Moved { x: FloatBits, y: FloatBits },
    /// Anything else.
    Other,
}

/// What is to be done once an event has been entered into the state.
#[derive(Debug, Clone, Copy)]
pub enum EventReaction {
    /// End the application.
    Exit,
    /// Store the state.
    Store,
    /// Lay out the webviews of the window, and store the state.
    LayOutAndStore,
    /// Nothing.
    Ignore,
}

/// Whether to ask again for what makes tabs.
#[derive(Debug, Clone, Copy)]
pub enum WaitStep {
    /// It is there.
    Ready,
    /// Ask again after a while; this many times it was not there.
    Retry(u32),
    /// It will not come.
    GiveUp,
}

/// The entry of a window that has just been made.
pub open spec fn new_window_view() -> WindowView {
    WindowView {
        id: MAIN_WINDOW@,
        bounds: Bounds { x: None, y: None, width: NEW_WINDOW_WIDTH, height: NEW_WINDOW_HEIGHT },
        is_focused: true,
        is_maximized: false,
        is_minimized: false,
        is_full_screen: false,
        tab_ids: Seq::empty(),
        active_tab_id: None,
    }
}

/// The state with an entry for the main window: the one it has, or a new one.
pub open spec fn with_main_window(state: AppView) -> AppView {
    if state.windows.contains_key(MAIN_WINDOW@) {
        state
    } else {
        AppView { windows: state.windows.insert(MAIN_WINDOW@, new_window_view()), ..state }
    }
}

/// The state after the window `label` has reported `event`. A window without an
/// entry gets none.
pub open spec fn after_event(state: AppView, label: Seq<char>, event: WindowEvent) -> AppView {
    let window = state.windows[label];
    let known = state.windows.contains_key(label);
    match event {
        WindowEvent::Focused(focused) => AppView {
            windows: if known {
                state.windows.insert(label, WindowView { is_focused: focused, ..window })
            } else {
                state.windows
            },
            tabs: state.tabs,
            focused_window_id: if focused {
                Some(label)
            } else {
                state.focused_window_id
            },
        },
        WindowEvent::Resized { width, height } => if known {
            AppView {
                windows: state.windows.insert(
                    label,
                    WindowView { bounds: Bounds { width, height, ..window.bounds }, ..window },
                ),
                ..state
            }
        } else {
            state
        },
        WindowEvent::Moved { x, y } => if known {
            AppView {
                windows: state.windows.insert(
                    label,
                    WindowView {
                        bounds: Bounds { x: Some(x), y: Some(y), ..window.bounds },
                        ..window
                    },
                ),
                ..state
            }
        } else {
            state
        },
        WindowEvent::CloseRequested => state,
        WindowEvent::Other => state,
    }
}

/// What is to be done about `event`.
pub open spec fn reaction_to(event: WindowEvent) -> EventReaction {
    match event {
        WindowEvent::CloseRequested => EventReaction::Exit,
        WindowEvent::Focused(_) => EventReaction::Store,
        WindowEvent::Resized { .. } => EventReaction::LayOutAndStore,
        WindowEvent::Moved { .. } => EventReaction::Store,
        WindowEvent::Other => EventReaction::Ignore,
    }
}

impl WindowController {
    /// Makes the controller of the main window, and sees to it that the state
    /// has an entry for it. Tells whether the entry is new.
    pub fn new(state: &mut AppState) -> (out: (WindowController, bool))
        ensures
            out.0.label@ == MAIN_WINDOW@,
            out.1 == !old(state)@.windows.contains_key(MAIN_WINDOW@),
            final(state)@ == with_main_window(old(state)@),
    {
        let controller = WindowController { label: MAIN_WINDOW.to_owned() };
        if state.windows.contains_key(MAIN_WINDOW) {
            return (controller, false);
        }
        let window = WindowState {
            id: MAIN_WINDOW.to_owned(),
            bounds: Bounds {
                x: None,
                y: None,
                width: NEW_WINDOW_WIDTH,
                height: NEW_WINDOW_HEIGHT,
            },
            is_focused: true,
            is_maximized: false,
            is_minimized: false,
            is_full_screen: false,
            tab_ids: Vec::new(),
            active_tab_id: None,
        };
        assert(window@.tab_ids =~= Seq::empty());
        state.windows.insert(MAIN_WINDOW.to_owned(), window);
        (controller, true)
    }

    /// Enters an event of the window into the state, and tells what is to be
    /// done about it.
    pub fn handle_event(&self, state: &mut AppState, event: WindowEvent) -> (reaction:
        EventReaction)
        ensures
            final(state)@ == after_event(old(state)@, self.label@, event),
            reaction == reaction_to(event),
    {
        match event {
            WindowEvent::CloseRequested => EventReaction::Exit,
            WindowEvent::Focused(focused) => {
                if focused {
                    state.focused_window_id = Some(self.label.clone());
                }
                match state.windows.get_mut(self.label.as_str()) {
                    Some(window) => {
                        window.is_focused = focused;
                    },
                    None => {},
                }
                EventReaction::Store
            },
            WindowEvent::Resized { width, height } => {
                match state.windows.get_mut(self.label.as_str()) {
                    Some(window) => {
                        window.bounds.width = width;
                        window.bounds.height = height;
                    },
                    None => {},
                }
                EventReaction::LayOutAndStore
            },
            WindowEvent::Moved { x, y } => {
                match state.windows.get_mut(self.label.as_str()) {
                    Some(window) => {
                        window.bounds.x = Some(x);
                        window.bounds.y = Some(y);
                    },
                    None => {},
                }
                EventReaction::Store
            },
            WindowEvent::Other => EventReaction::Ignore,
        }
    }

    /// Takes the tabs that are to be made again out of the state, if any are,
    /// and hands out the id and the address of each, in their order, and the id
    /// of the active one.
    pub fn saved_tabs(&self, restore_tabs: bool, state: &mut AppState) -> (out: (
        Vec<(String, String)>,
        Option<String>,
    ))
        ensures
            final(state)@ == (if restore_tabs {
                old(state)@.with_window_cleared(self.label@)
            } else {
                old(state)@
            }),
            if restore_tabs && old(state)@.windows.contains_key(self.label@) {
                let window = old(state)@.windows[self.label@];
                &&& page_views(out.0@) == known_pages(old(state)@.tabs, window.tab_ids)
                &&& text_opt(out.1) == window.active_tab_id
            } else {
                out.0@.len() == 0 && out.1 is None
            },
    {
        if restore_tabs {
            state.clear_window(self.label.as_str())
        } else {
            (Vec::new(), None)
        }
    }
}

/// Whether `label` is that of the tab strip; the other webviews of a window
/// show pages.
pub fn is_tab_bar(label: &str) -> (found: bool)
    ensures
        found == (label@ == TAB_BAR_LABEL@),
{
    same_text(label, TAB_BAR_LABEL)
}

/// Whether a window with webviews of these labels still lacks its tab strip.
pub fn needs_tab_bar(labels: &Vec<String>) -> (missing: bool)
    ensures
        missing == !texts(labels@).contains(TAB_BAR_LABEL@),
{
    position_of(labels, TAB_BAR_LABEL).is_none()
}

/// Decides whether to ask again for what makes tabs, given whether it is there
/// and how many times it was not.
pub fn await_tabs(found: bool, attempts: u32) -> (step: WaitStep)
    requires
        attempts <= MAX_ATTEMPTS,
    ensures
        step == (if found {
            WaitStep::Ready
        } else if attempts == MAX_ATTEMPTS {
            WaitStep::GiveUp
        } else {
            WaitStep::Retry((attempts + 1) as u32)
        }),
{
    if found {
        WaitStep::Ready
    } else if attempts == MAX_ATTEMPTS {
        WaitStep::GiveUp
    } else {
        WaitStep::Retry(attempts + 1)
    }
}

/// Whether the tab at place `i` was made again and was the active one.
pub open spec fn active_again(
    saved: Seq<(Seq<char>, Seq<char>)>,
    saved_active: Option<Seq<char>>,
    made: Seq<Option<String>>,
    i: int,
) -> bool {
    made[i] is Some && saved_active == Some(saved[i].0)
}

/// Whether `i` is the place of the tab that is to be seen after tabs have been
/// made again: the last one that was the active one, or, where none was, the
/// last one.
pub open spec fn seen_after_restore(
    saved: Seq<(Seq<char>, Seq<char>)>,
    saved_active: Option<Seq<char>>,
    made: Seq<Option<String>>,
    i: int,
) -> bool {
    &&& 0 <= i < made.len()
    &&& made[i] is Some
    &&& active_again(saved, saved_active, made, i) ==> forall|j: int|
        i < j < made.len() ==> !#[trigger] active_again(saved, saved_active, made, j)
    &&& !active_again(saved, saved_active, made, i) ==> {
        &&& forall|j: int|
            0 <= j < made.len() ==> !#[trigger] active_again(saved, saved_active, made, j)
        &&& forall|j: int| i < j < made.len() ==> (#[trigger] made[j]) is None
    }
}

/// Chooses the tab to be seen after the tabs `saved` have been made again;
/// `made` holds the new id of each, or nothing where it could not be made. There
/// is none exactly where no tab was made.
pub fn choose_restored(
    saved: &Vec<(String, String)>,
    saved_active: &Option<String>,
    made: &Vec<Option<String>>,
) -> (chosen: Option<String>)
    requires
        made@.len() == saved@.len(),
    ensures
        match chosen {
            Some(id) => exists|i: int| #[trigger]
                seen_after_restore(
                    page_views(saved@),
                    text_opt(*saved_active),
                    made@,
                    i,
                ) && made@[i]->0@ == id@,
            None => forall|i: int| 0 <= i < made@.len() ==> (#[trigger] made@[i]) is None,
        },
{
    let ghost pages = page_views(saved@);
    let ghost active = text_opt(*saved_active);
    let mut last: Option<usize> = None;
    let mut best: Option<usize> = None;
    let mut i: usize = 0;
    while i < made.len()
        invariant
            i <= made.len() == saved.len(),
            pages == page_views(saved@),
            active == text_opt(*saved_active),
            match last {
                Some(k) => k < i && made@[k as int] is Some && forall|j: int|
                    k < j < i ==> (#[trigger] made@[j]) is None,
                None => forall|j: int| 0 <= j < i ==> (#[trigger] made@[j]) is None,
            },
            match best {
                Some(k) => k < i && active_again(pages, active, made@, k as int) && forall|j: int|
                    k < j < i ==> !#[trigger] active_again(pages, active, made@, j),
                None => forall|j: int|
                    0 <= j < i ==> !#[trigger] active_again(pages, active, made@, j),
            },
        decreases made.len() - i,
    {
        assert(pages[i as int] == (saved@[i as int].0@, saved@[i as int].1@));
        match &made[i] {
            Some(_) => {
                if holds_text(saved_active, saved[i].0.as_str()) {
                    best = Some(i);
                }
                last = Some(i);
            },
            None => {},
        }
        i += 1;
    }
    match best {
        Some(k) => {
            assert(seen_after_restore(pages, active, made@, k as int));
            match &made[k] {
                Some(id) => Some(id.clone()),
                None => None,
            }
        },
        None => match last {
            Some(k) => {
                assert(seen_after_restore(pages, active, made@, k as int));
                match &made[k] {
                    Some(id) => Some(id.clone()),
                    None => None,
                }
            },
            None => None,
        },
    }
}

/// With what a window opens.
#[derive(Debug)]
pub enum Opening {
    /// With its tabs made again, of which this one is to be shown and activated.
    Restored(String),
    /// With a first tab, which is to be made at this address and shown.
    First(String),
}

/// Decides with what a window opens once the tabs `saved` have been made again:
/// with the tab that is to be seen among them, or with a first tab where none was
/// made.
pub fn opening(
    saved: &Vec<(String, String)>,
    saved_active: &Option<String>,
    made: &Vec<Option<String>>,
) -> (out: Opening)
    requires
        made@.len() == saved@.len(),
    ensures
        match out {
            Opening::Restored(id) => exists|i: int| #[trigger]
                seen_after_restore(
                    page_views(saved@),
                    text_opt(*saved_active),
                    made@,
                    i,
                ) && made@[i]->0@ == id@,
            Opening::First(url) => {
                &&& url@ == NOTION_URL@
                &&& forall|i: int| 0 <= i < made@.len() ==> (#[trigger] made@[i]) is None
            },
        },
{
    match choose_restored(saved, saved_active, made) {
        Some(id) => Opening::Restored(id),
        None => Opening::First(NOTION_URL.to_owned()),
    }
}

} // verus!
