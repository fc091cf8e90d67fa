use lotion::state::{AppState, TabState};
use lotion::tab_controller::{
    answer_navigation, answer_popup, permits_navigation, persist_tab_metadata, record_page,
    spawn_secure_popup, start_navigation, start_popup, tab_shortcuts_script, window_op,
    LoadDecision, LotionAction, NavigationStep, PopupStep, TabController, WindowOp, NOTION_URL,
};

fn state_with_tab(id: &str) -> AppState {
    let mut state = AppState::new();
    state.tabs.insert(
        id.into(),
        TabState {
            id: id.into(),
            title: "Notion".into(),
            url: NOTION_URL.into(),
            is_active: true,
            is_pinned: false,
        },
    );
    state
}

fn page(state: &AppState, id: &str) -> (String, String) {
    let tab = state.tabs.get(id).unwrap();
    (tab.title.clone(), tab.url.clone())
}

#[test]
fn a_tab_is_made_for_an_allowed_address() {
    let tab = TabController::new(true, true, "main", "t1".into(), "https://www.notion.so").unwrap();
    assert_eq!(tab.tab_id, "t1");
    assert_eq!(tab.window_id, "main");
}

#[test]
fn a_tab_is_refused_in_the_order_of_policy_window_and_address() {
    let make = |allowed, found, url| TabController::new(allowed, found, "w", "t".into(), url);
    assert_eq!(
        make(false, false, "nonsense").unwrap_err(),
        "Zero-Trust Policy Blocked: nonsense"
    );
    assert_eq!(make(true, false, "nonsense").unwrap_err(), "Window w not found");
    assert_eq!(
        make(true, true, "nonsense").unwrap_err(),
        "relative URL without a base"
    );
    assert_eq!(
        make(true, true, "https://").unwrap_err(),
        "empty host"
    );
    assert_eq!(
        TabController::with_reading(true, true, "w", "t".into(), "u", Some("why".into()))
            .unwrap_err(),
        "why"
    );
    assert!(TabController::with_reading(true, true, "w", "t".into(), "u", None).is_ok());
}

#[test]
fn loading_follows_the_policy() {
    let tab = TabController::new(true, true, "main", "t".into(), NOTION_URL).unwrap();
    assert!(matches!(tab.load_url(true, NOTION_URL), LoadDecision::Navigate));
    assert!(matches!(tab.load_url(false, NOTION_URL), LoadDecision::Blocked));
    assert!(matches!(tab.load_url(false, "nonsense"), LoadDecision::Blocked));
    assert!(matches!(
        tab.load_url(true, "nonsense"),
        LoadDecision::Invalid(m) if m == "relative URL without a base"
    ));
    assert!(matches!(
        TabController::load_decision(true, Some("why".into())),
        LoadDecision::Invalid(m) if m == "why"
    ));
}

#[test]
fn actions_are_told_apart_by_name() {
    let step = |name: &str| start_navigation(&format!("lotion-action://{}", name));
    assert!(matches!(
        step("window:close"),
        NavigationStep::Action(LotionAction::Close)
    ));
    assert!(matches!(
        step("window:minimize"),
        NavigationStep::Action(LotionAction::Minimize)
    ));
    assert!(matches!(
        step("window:maximize"),
        NavigationStep::Action(LotionAction::Maximize)
    ));
    assert!(matches!(
        step("tab:new"),
        NavigationStep::Action(LotionAction::NewTab)
    ));
    assert!(matches!(
        step("window:close/"),
        NavigationStep::Action(LotionAction::Unknown(n)) if n == "window:close/"
    ));
    assert!(matches!(
        step(""),
        NavigationStep::Action(LotionAction::Unknown(n)) if n.is_empty()
    ));
    assert!(matches!(
        start_navigation("lotion-action:/x"),
        NavigationStep::AskInternal
    ));
}

#[test]
fn only_allowed_addresses_are_entered() {
    let end = |url: &str, internal, external| {
        let step = answer_navigation(start_navigation(url), internal);
        answer_navigation(step, external)
    };
    for external in [false, true] {
        let step = end(NOTION_URL, true, external);
        assert!(matches!(step, NavigationStep::Allow));
        assert!(permits_navigation(&step));
    }
    let step = end("https://example.com", false, true);
    assert!(matches!(step, NavigationStep::OpenExternal));
    assert!(!permits_navigation(&step));
    let step = end("https://example.com", false, false);
    assert!(matches!(step, NavigationStep::Block));
    assert!(!permits_navigation(&step));
    let step = end("lotion-action://tab:new", true, true);
    assert!(matches!(step, NavigationStep::Action(LotionAction::NewTab)));
    assert!(!permits_navigation(&step));
    assert!(!permits_navigation(&start_navigation(NOTION_URL)));
}

#[test]
fn actions_on_windows() {
    assert!(matches!(window_op(&LotionAction::Close, true, None), WindowOp::Close));
    assert!(matches!(window_op(&LotionAction::Minimize, true, None), WindowOp::Minimize));
    assert!(matches!(
        window_op(&LotionAction::Maximize, true, Some(true)),
        WindowOp::Unmaximize
    ));
    for maximized in [Some(false), None] {
        assert!(matches!(
            window_op(&LotionAction::Maximize, true, maximized),
            WindowOp::Maximize
        ));
    }
    assert!(matches!(window_op(&LotionAction::NewTab, true, None), WindowOp::NewTab));
    assert!(matches!(
        window_op(&LotionAction::Unknown("x".into()), true, None),
        WindowOp::Nothing
    ));
    assert!(matches!(window_op(&LotionAction::Close, false, None), WindowOp::Nothing));
}

#[test]
fn popups_go_where_the_policy_says() {
    let end = |route, external| answer_popup(answer_popup(start_popup(), route), external);
    assert!(matches!(end(true, true), PopupStep::OpenExternal));
    assert!(matches!(end(true, false), PopupStep::Block));
    assert!(matches!(end(false, true), PopupStep::OpenTab));
    assert!(matches!(end(false, false), PopupStep::OpenTab));
    assert!(matches!(answer_popup(start_popup(), true), PopupStep::AskExternal));
}

#[test]
fn popups_become_tabs_of_the_main_window() {
    assert_eq!(
        spawn_secure_popup(true, "https://a.b/"),
        Some(("main".to_string(), "https://a.b/".to_string()))
    );
    assert_eq!(spawn_secure_popup(false, "https://a.b/"), None);
}

#[test]
fn shortcut_script_names_tab_and_window() {
    assert_eq!(
        tab_shortcuts_script("TAB", "WINDOW"),
        r#"
document.addEventListener("keydown", async (event) => {
  const invoke = window.__TAURI__?.core?.invoke;
  if (!invoke || !(event.ctrlKey || event.metaKey) || event.altKey) return;

  const key = event.key.toLowerCase();
  if (key === "t") {
    event.preventDefault();
    await invoke("new_tab", { windowId: "WINDOW" });
  } else if (key === "w") {
    event.preventDefault();
    await invoke("close_tab", { tabId: "TAB" });
  } else if (event.key === "Tab") {
    event.preventDefault();
    await invoke("switch_relative_tab", {
      windowId: "WINDOW",
      direction: event.shiftKey ? -1 : 1
    });
  }
}, true);
"#
    );
}

#[test]
fn pages_from_notion_are_kept() {
    let mut state = state_with_tab("t");
    assert!(persist_tab_metadata(
        &mut state,
        "t",
        Some("Tasks".into()),
        "https://www.notion.so/tasks"
    ));
    assert_eq!(
        page(&state, "t"),
        ("Tasks".to_string(), "https://www.notion.so/tasks".to_string())
    );
    assert!(persist_tab_metadata(&mut state, "t", None, "https://notion.com/a"));
    assert_eq!(
        page(&state, "t"),
        ("Tasks".to_string(), "https://notion.com/a".to_string())
    );
    assert!(persist_tab_metadata(
        &mut state,
        "t",
        Some(" \u{a0}\t".into()),
        "https://notion.com/b"
    ));
    assert_eq!(
        page(&state, "t"),
        ("Tasks".to_string(), "https://notion.com/b".to_string())
    );
    assert!(state.tabs.get("t").unwrap().is_active);
}

#[test]
fn other_pages_are_not_kept() {
    let mut state = state_with_tab("t");
    for url in ["https://example.com", "http://www.notion.so", "nonsense"] {
        assert!(!persist_tab_metadata(&mut state, "t", Some("X".into()), url));
    }
    assert!(!persist_tab_metadata(
        &mut state,
        "absent",
        Some("X".into()),
        NOTION_URL
    ));
    assert!(!record_page(&mut state, "t", Some("X".into()), "u", false));
    assert_eq!(page(&state, "t"), ("Notion".to_string(), NOTION_URL.to_string()));
    assert_eq!(state.tabs.keys(), ["t"]);
    assert!(record_page(&mut state, "t", Some("X".into()), "u", true));
    assert_eq!(page(&state, "t"), ("X".to_string(), "u".to_string()));
}
