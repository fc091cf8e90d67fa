//! One tab: when it may be made, where it may go, what its pages may ask for,
//! and how it keeps its title and address.

use crate::origin::{is_notion_url, notion_url, parse_url, parsed_url};
use crate::state::{AppState, AppView};
use crate::text::{blank, has_prefix, is_blank, joined, same_text, skip_chars, text_opt};
use vstd::prelude::*;
use vstd::string::*;

verus! {

/// The address of a tab that is opened without one.
pub const NOTION_URL: &'static str = "https://www.notion.so";

/// The window into which popups are routed.
pub const MAIN_WINDOW: &'static str = "main";

/// A tab and the window it belongs to.
#[derive(Debug)]
pub struct TabController {
    pub tab_id: String,
    pub window_id: String,
}

/// What a [`TabController`] holds.
pub struct ControllerView {
    pub tab_id: Seq<char>,
    pub window_id: Seq<char>,
}

impl View for TabController {
    type V = ControllerView;

    open spec fn view(&self) -> ControllerView {
        ControllerView { tab_id: self.tab_id@, window_id: self.window_id@ }
    }
}

/// What is to be done with a request to load an address.
#[derive(Debug)]
pub enum LoadDecision {
    /// Nothing: the policy does not allow the address.
    Blocked,
    /// Fail with this message: the address cannot be read.
    Invalid(String),
    /// Go there.
    Navigate,
}

/// Why a tab cannot be made, if it cannot: the policy comes before the window,
/// and the window before the address.
pub open spec fn refusal(
    allowed: bool,
    window_found: bool,
    window_id: Seq<char>,
    url: Seq<char>,
    unreadable: Option<Seq<char>>,
) -> Option<Seq<char>> {
    if !allowed {
        Some("Zero-Trust Policy Blocked: "@ + url)
    } else if !window_found {
        Some("Window "@ + window_id + " not found"@)
    } else {
        unreadable
    }
}

/// The error, if any, with which an address is read.
pub open spec fn url_error(url: Seq<char>) -> Option<Seq<char>> {
    match parsed_url(url) {
        Ok(_) => None,
        Err(message) => Some(message),
    }
}

impl TabController {
    /// Makes a tab, or tells why it cannot be made, given how its address was
    /// read.
    pub fn with_reading(
        allowed: bool,
        window_found: bool,
        window_id: &str,
        tab_id: String,
        url_str: &str,
        unreadable: Option<String>,
    ) -> (out: Result<TabController, String>)
        ensures
            match out {
                Ok(tab) => {
                    &&& refusal(
                        allowed,
                        window_found,
                        window_id@,
                        url_str@,
                        text_opt(unreadable),
                    ) is None
                    &&& tab@ == (ControllerView { tab_id: tab_id@, window_id: window_id@ })
                },
                Err(message) => refusal(
                    allowed,
                    window_found,
                    window_id@,
                    url_str@,
                    text_opt(unreadable),
                ) == Some(message@),
            },
    {
        if !allowed {
            return Err(joined("Zero-Trust Policy Blocked: ", url_str));
        }
        if !window_found {
            return Err(joined(joined("Window ", window_id).as_str(), " not found"));
        }
        match unreadable {
            Some(message) => Err(message),
            None => Ok(TabController { tab_id, window_id: window_id.to_owned() }),
        }
    }

    /// Makes a tab for the address `url_str` in the window `window_id`, or tells
    /// why it cannot be made. `allowed` is what the policy says of the address.
    pub fn new(
        allowed: bool,
        window_found: bool,
        window_id: &str,
        tab_id: String,
        url_str: &str,
    ) -> (out: Result<TabController, String>)
        ensures
            match out {
                Ok(tab) => {
                    &&& refusal(
                        allowed,
                        window_found,
                        window_id@,
                        url_str@,
                        url_error(url_str@),
                    ) is None
                    &&& tab@ == (ControllerView { tab_id: tab_id@, window_id: window_id@ })
                },
                Err(message) => refusal(
                    allowed,
                    window_found,
                    window_id@,
                    url_str@,
                    url_error(url_str@),
                ) == Some(message@),
            },
    {
        let unreadable = match parse_url(url_str) {
            Ok(_) => None,
            Err(message) => Some(message),
        };
        Self::with_reading(allowed, window_found, window_id, tab_id, url_str, unreadable)
    }

    /// Decides on a request to load an address, given how it was read.
    pub fn load_decision(allowed: bool, unreadable: Option<String>) -> (out: LoadDecision)
        ensures
            match out {
                LoadDecision::Blocked => !allowed,
                LoadDecision::Invalid(message) => allowed && text_opt(unreadable) == Some(
                    message@,
                ),
                LoadDecision::Navigate => allowed && unreadable is None,
            },
    {
        if !allowed {
            return LoadDecision::Blocked;
        }
        match unreadable {
            Some(message) => LoadDecision::Invalid(message),
            None => LoadDecision::Navigate,
        }
    }

    /// Decides on a request to load `url`. `allowed` is what the policy says of
    /// it.
    pub fn load_url(&self, allowed: bool, url: &str) -> (out: LoadDecision)
        ensures
            match out {
                LoadDecision::Blocked => !allowed,
                LoadDecision::Invalid(message) => allowed && url_error(url@) == Some(message@),
                LoadDecision::Navigate => allowed && url_error(url@) is None,
            },
    {
        let unreadable = match parse_url(url) {
            Ok(_) => None,
            Err(message) => Some(message),
        };
        Self::load_decision(allowed, unreadable)
    }
}

/// An action that a page asks for by going to an address of its own scheme.
#[derive(Debug)]
pub enum LotionAction {
    Close,
    Minimize,
    Maximize,
    NewTab,
    Unknown(String),
}

/// What a [`LotionAction`] holds.
pub enum ActionView {
    Close,
    Minimize,
    Maximize,
    NewTab,
    Unknown(Seq<char>),
}

impl View for LotionAction {
    type V = ActionView;

    open spec fn view(&self) -> ActionView {
        match self {
            LotionAction::Close => ActionView::Close,
            LotionAction::Minimize => ActionView::Minimize,
            LotionAction::Maximize => ActionView::Maximize,
            LotionAction::NewTab => ActionView::NewTab,
            LotionAction::Unknown(name) => ActionView::Unknown(name@),
        }
    }
}

/// The scheme of addresses that ask for an action.
pub const ACTION_SCHEME: &'static str = "lotion-action://";

/// The action of the name `name`.
pub open spec fn action_named(name: Seq<char>) -> ActionView {
    if name == "window:close"@ {
        ActionView::Close
    } else if name == "window:minimize"@ {
        ActionView::Minimize
    } else if name == "window:maximize"@ {
        ActionView::Maximize
    } else if name == "tab:new"@ {
        ActionView::NewTab
    } else {
        ActionView::Unknown(name)
    }
}

/// The action that the address `url` asks for, if it asks for one.
pub open spec fn action_of(url: Seq<char>) -> Option<ActionView> {
    if ACTION_SCHEME@.is_prefix_of(url) {
        Some(action_named(url.skip(ACTION_SCHEME@.len() as int)))
    } else {
        None
    }
}

/// A point in the decision on where a page may go: a question to the policy, or
/// the end of it.
#[derive(Debug)]
pub enum NavigationStep {
    /// Run this action; the page stays.
    Action(LotionAction),
    /// Ask whether the address is allowed inside the application.
    AskInternal,
    /// Ask whether the address may be opened outside it.
    AskExternal,
    /// Let the page go there.
    Allow,
    /// Open the address in the system browser; the page stays.
    OpenExternal,
    /// Do nothing; the page stays.
    Block,
}

/// What a [`NavigationStep`] holds.
pub enum NavigationView {
    Action(ActionView),
    AskInternal,
    AskExternal,
    Allow,
    OpenExternal,
    Block,
}

impl View for NavigationStep {
    type V = NavigationView;

    open spec fn view(&self) -> NavigationView {
        match self {
            NavigationStep::Action(action) => NavigationView::Action(action@),
            NavigationStep::AskInternal => NavigationView::AskInternal,
            NavigationStep::AskExternal => NavigationView::AskExternal,
            NavigationStep::Allow => NavigationView::Allow,
            NavigationStep::OpenExternal => NavigationView::OpenExternal,
            NavigationStep::Block => NavigationView::Block,
        }
    }
}

/// The first step for the address `url`.
pub open spec fn navigation_start(url: Seq<char>) -> NavigationView {
    match action_of(url) {
        Some(action) => NavigationView::Action(action),
        None => NavigationView::AskInternal,
    }
}

/// The step that follows an answer of the policy. A step that asks nothing
/// stays.
pub open spec fn navigation_next(step: NavigationView, answer: bool) -> NavigationView {
    match step {
        NavigationView::AskInternal => if answer {
            NavigationView::Allow
        } else {
            NavigationView::AskExternal
        },
        NavigationView::AskExternal => if answer {
            NavigationView::OpenExternal
        } else {
            NavigationView::Block
        },
        _ => step,
    }
}

/// Where the decision on the address `url` ends, for a policy that answers
/// `internal` and `external`.
pub open spec fn navigation_end(
    url: Seq<char>,
    internal: bool,
    external: bool,
) -> NavigationView {
    navigation_next(navigation_next(navigation_start(url), internal), external)
}

/// Takes the first step for the address `url`.
pub fn start_navigation(url: &str) -> (step: NavigationStep)
    ensures
        step@ == navigation_start(url@),
{
    if !has_prefix(url, ACTION_SCHEME) {
        return NavigationStep::AskInternal;
    }
    let name = skip_chars(url, ACTION_SCHEME.unicode_len());
    if same_text(name.as_str(), "window:close") {
        NavigationStep::Action(LotionAction::Close)
    } else if same_text(name.as_str(), "window:minimize") {
        NavigationStep::Action(LotionAction::Minimize)
    } else if same_text(name.as_str(), "window:maximize") {
        NavigationStep::Action(LotionAction::Maximize)
    } else if same_text(name.as_str(), "tab:new") {
        NavigationStep::Action(LotionAction::NewTab)
    } else {
        NavigationStep::Action(LotionAction::Unknown(name))
    }
}

/// Takes the step that follows an answer of the policy.
pub fn answer_navigation(step: NavigationStep, answer: bool) -> (next: NavigationStep)
    ensures
        next@ == navigation_next(step@, answer),
{
    match step {
        NavigationStep::AskInternal => if answer {
            NavigationStep::Allow
        } else {
            NavigationStep::AskExternal
        },
        NavigationStep::AskExternal => if answer {
            NavigationStep::OpenExternal
        } else {
            NavigationStep::Block
        },
        other => other,
    }
}

/// Whether the page goes to the address.
pub fn permits_navigation(step: &NavigationStep) -> (permitted: bool)
    ensures
        permitted == (step@ is Allow),
{
    match step {
        NavigationStep::Allow => true,
        _ => false,
    }
}

/// What is to be done to a window.
#[derive(Debug)]
pub enum WindowOp {
    Nothing,
    Close,
    Minimize,
    Maximize,
    Unmaximize,
    /// Open a tab in the window, at [`NOTION_URL`], and show it.
    NewTab,
}

/// Carries out an action on a window, given whether the window is there and
/// whether it is known to be maximized.
pub open spec fn op_of(
    action: ActionView,
    window_found: bool,
    maximized: Option<bool>,
) -> WindowOp {
    if !window_found {
        WindowOp::Nothing
    } else {
        match action {
            ActionView::Close => WindowOp::Close,
            ActionView::Minimize => WindowOp::Minimize,
            ActionView::Maximize => if maximized == Some(true) {
                WindowOp::Unmaximize
            } else {
                WindowOp::Maximize
            },
            ActionView::NewTab => WindowOp::NewTab,
            ActionView::Unknown(_) => WindowOp::Nothing,
        }
    }
}

/// Decides what an action does to a window, given whether the window is there
/// and whether it is known to be maximized.
pub fn window_op(
    action: &LotionAction,
    window_found: bool,
    maximized: Option<bool>,
) -> (op: WindowOp)
    ensures
        op == op_of(action@, window_found, maximized),
{
    if !window_found {
        return WindowOp::Nothing;
    }
    match action {
        LotionAction::Close => WindowOp::Close,
        LotionAction::Minimize => WindowOp::Minimize,
        LotionAction::Maximize => match maximized {
            Some(true) => WindowOp::Unmaximize,
            _ => WindowOp::Maximize,
        },
        LotionAction::NewTab => WindowOp::NewTab,
        LotionAction::Unknown(_) => WindowOp::Nothing,
    }
}

/// A point in the decision on a page's request for a new window: a question to
/// the policy, or the end of it. The request itself is denied at every end.
#[derive(Debug, Clone, Copy)]
pub enum PopupStep {
    /// Ask whether the address belongs into the system browser.
    AskRoute,
    /// Ask whether the address may be opened outside the application.
    AskExternal,
    /// Open the address in the system browser.
    OpenExternal,
    /// Do nothing.
    Block,
    /// Open the address in a tab.
    OpenTab,
}

/// The step that follows an answer of the policy. A step that asks nothing
/// stays.
pub open spec fn popup_next(step: PopupStep, answer: bool) -> PopupStep {
    match step {
        PopupStep::AskRoute => if answer {
            PopupStep::AskExternal
        } else {
            PopupStep::OpenTab
        },
        PopupStep::AskExternal => if answer {
            PopupStep::OpenExternal
        } else {
            PopupStep::Block
        },
        _ => step,
    }
}

/// Takes the first step for a request for a new window.
pub fn start_popup() -> (step: PopupStep)
    ensures
        step == PopupStep::AskRoute,
{
    PopupStep::AskRoute
}

/// Takes the step that follows an answer of the policy.
pub fn answer_popup(step: PopupStep, answer: bool) -> (next: PopupStep)
    ensures
        next == popup_next(step, answer),
{
    match step {
        PopupStep::AskRoute => if answer {
            PopupStep::AskExternal
        } else {
            PopupStep::OpenTab
        },
        PopupStep::AskExternal => if answer {
            PopupStep::OpenExternal
        } else {
            PopupStep::Block
        },
        other => other,
    }
}

/// The window and the address of the tab that a popup becomes, if tabs can be
/// made.
pub fn spawn_secure_popup(tabs_ready: bool, url: &str) -> (out: Option<(String, String)>)
    ensures
        out is Some <==> tabs_ready,
        out matches Some((window_id, address)) ==> window_id@ == MAIN_WINDOW@ && address@ == url@,
{
    if tabs_ready {
        Some((MAIN_WINDOW.to_owned(), url.to_owned()))
    } else {
        None
    }
}

/// The shortcut script up to the window of a new tab.
pub const SHORTCUTS_HEAD: &'static str = r#"
document.addEventListener("keydown", async (event) => {
  const invoke = window.__TAURI__?.core?.invoke;
  if (!invoke || !(event.ctrlKey || event.metaKey) || event.altKey) return;

  const key = event.key.toLowerCase();
  if (key === "t") {
    event.preventDefault();
    await invoke("new_tab", { windowId: ""#;

/// The shortcut script from the window of a new tab to the tab that is closed.
pub const SHORTCUTS_CLOSE: &'static str = r#"" });
  } else if (key === "w") {
    event.preventDefault();
    await invoke("close_tab", { tabId: ""#;

/// The shortcut script from the tab that is closed to the window in which the
/// tab is switched.
pub const SHORTCUTS_SWITCH: &'static str = r#"" });
  } else if (event.key === "Tab") {
    event.preventDefault();
    await invoke("switch_relative_tab", {
      windowId: ""#;

/// The end of the shortcut script.
pub const SHORTCUTS_TAIL: &'static str = r#"",
      direction: event.shiftKey ? -1 : 1
    });
  }
}, true);
"#;

/// The script that gives the pages of a tab their keyboard shortcuts.
pub open spec fn shortcuts_script(tab_id: Seq<char>, window_id: Seq<char>) -> Seq<char> {
    SHORTCUTS_HEAD@ + window_id + SHORTCUTS_CLOSE@ + tab_id + SHORTCUTS_SWITCH@ + window_id
        + SHORTCUTS_TAIL@
}

/// Writes the script that gives the pages of the tab `tab_id` in the window
/// `window_id` their keyboard shortcuts.
pub fn tab_shortcuts_script(tab_id: &str, window_id: &str) -> (script: String)
    ensures
        script@ == shortcuts_script(tab_id@, window_id@),
{
    let mut script = SHORTCUTS_HEAD.to_owned();
    script.append(window_id);
    script.append(SHORTCUTS_CLOSE);
    script.append(tab_id);
    script.append(SHORTCUTS_SWITCH);
    script.append(window_id);
    script.append(SHORTCUTS_TAIL);
    script
}

/// The state after a tab has shown the page at `url`, from Notion or not, with
/// this title if it has told one.
pub open spec fn after_page(
    state: AppView,
    tab_id: Seq<char>,
    title: Option<Seq<char>>,
    url: Seq<char>,
    notion: bool,
) -> AppView {
    if notion && state.tabs.contains_key(tab_id) {
        let title = match title {
            Some(text) => if blank(text) {
                state.tabs[tab_id].title
            } else {
                text
            },
            None => state.tabs[tab_id].title,
        };
        state.with_page(tab_id, title, url)
    } else {
        state
    }
}

/// Keeps the address of the page that a tab shows, and its title if it has told
/// one that is not blank. Tells whether there is something new to be stored:
/// only of a page from Notion, in a tab that is known.
pub fn record_page(
    state: &mut AppState,
    tab_id: &str,
    title: Option<String>,
    url: &str,
    notion: bool,
) -> (changed: bool)
    ensures
        final(state)@ == after_page(old(state)@, tab_id@, text_opt(title), url@, notion),
        changed == (notion && old(state)@.tabs.contains_key(tab_id@)),
{
    if !notion {
        return false;
    }
    match state.tabs.get_mut(tab_id) {
        Some(tab) => {
            match title {
                Some(text) => {
                    if !is_blank(text.as_str()) {
                        tab.title = text;
                    }
                },
                None => {},
            }
            tab.url = url.to_owned();
            true
        },
        None => false,
    }
}

/// Keeps the address and the title of the page that a tab shows, if the page
/// comes from Notion. Tells whether there is something new to be stored.
pub fn persist_tab_metadata(
    state: &mut AppState,
    tab_id: &str,
    title: Option<String>,
    url: &str,
) -> (changed: bool)
    ensures
        final(state)@ == after_page(
            old(state)@,
            tab_id@,
            text_opt(title),
            url@,
            notion_url(url@),
        ),
        changed == (notion_url(url@) && old(state)@.tabs.contains_key(tab_id@)),
{
    let notion = is_notion_url(url);
    record_page(state, tab_id, title, url, notion)
}

} // verus!
