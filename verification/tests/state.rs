use lotion::state::{AppState, Bounds, TabState, WindowState};
use lotion::string_map::StringMap;

fn window(id: &str) -> WindowState {
    WindowState {
        id: id.into(),
        bounds: Bounds {
            x: None,
            y: None,
            width: 1200.0f64.to_bits(),
            height: 800.0f64.to_bits(),
        },
        is_focused: true,
        is_maximized: false,
        is_minimized: false,
        is_full_screen: false,
        tab_ids: Vec::new(),
        active_tab_id: None,
    }
}

fn state_with_window() -> AppState {
    let mut state = AppState::new();
    state.windows.insert("main".into(), window("main"));
    state
}

fn tab(id: &str) -> TabState {
    TabState {
        id: id.into(),
        title: "Notion".into(),
        url: "https://www.notion.so".into(),
        is_active: false,
        is_pinned: false,
    }
}

fn active(state: &AppState, window: &str) -> Option<String> {
    state.windows.get(window).unwrap().active_tab_id.clone()
}

fn is_active(state: &AppState, id: &str) -> bool {
    state.tabs.get(id).unwrap().is_active
}

fn ids(state: &AppState, window: &str) -> Vec<String> {
    state.windows.get(window).unwrap().tab_ids.clone()
}

#[test]
fn tab_lifecycle_keeps_one_active_tab() {
    let mut state = state_with_window();
    state.register_tab("main", tab("first"));
    state.register_tab("main", tab("second"));
    state.register_tab("main", tab("third"));

    assert_eq!(
        state.windows.get("main").unwrap().active_tab_id.as_deref(),
        Some("third")
    );
    assert!(state.tabs.get("third").unwrap().is_active);
    assert!(!state.tabs.get("first").unwrap().is_active);

    assert!(state.activate_tab("second"));
    assert_eq!(
        state.windows.get("main").unwrap().active_tab_id.as_deref(),
        Some("second")
    );
    assert!(state.tabs.get("second").unwrap().is_active);

    let next = state.remove_tab("second");
    assert_eq!(next, Some(("main".into(), Some("third".into()))));
    assert_eq!(
        state.windows.get("main").unwrap().active_tab_id.as_deref(),
        Some("third")
    );
    assert!(state.tabs.get("third").unwrap().is_active);
}

#[test]
fn removing_inactive_tab_preserves_active_tab_and_updates_metadata() {
    let mut state = state_with_window();
    state.register_tab("main", tab("first"));
    state.register_tab("main", tab("second"));
    state.update_tab(
        "second",
        "Help".into(),
        "https://www.notion.com/help".into(),
    );

    let next = state.remove_tab("first");
    assert_eq!(next, Some(("main".into(), Some("second".into()))));
    assert_eq!(state.tabs.get("second").unwrap().title, "Help");
    assert_eq!(
        state.tabs.get("second").unwrap().url,
        "https://www.notion.com/help"
    );
    assert!(state.tabs.get("second").unwrap().is_active);
}

#[test]
fn new_state_is_empty() {
    for state in [AppState::new(), AppState::default()] {
        assert!(state.windows.keys().is_empty());
        assert!(state.tabs.keys().is_empty());
        assert!(state.focused_window_id.is_none());
    }
}

#[test]
fn register_without_window_changes_nothing() {
    let mut state = state_with_window();
    state.register_tab("other", tab("first"));
    assert!(state.tabs.keys().is_empty());
    assert!(ids(&state, "main").is_empty());
    assert!(!state.windows.contains_key("other"));
}

#[test]
fn registering_a_known_id_again_lists_it_once() {
    let mut state = state_with_window();
    state.register_tab("main", tab("first"));
    state.register_tab("main", tab("second"));
    let mut again = tab("first");
    again.title = "Again".into();
    state.register_tab("main", again);
    assert_eq!(ids(&state, "main"), ["first", "second"]);
    assert_eq!(active(&state, "main").as_deref(), Some("first"));
    assert_eq!(state.tabs.get("first").unwrap().title, "Again");
    assert!(is_active(&state, "first"));
    assert!(!is_active(&state, "second"));
}

#[test]
fn unknown_tabs_are_left_alone() {
    let mut state = state_with_window();
    state.register_tab("main", tab("first"));
    assert!(!state.activate_tab("absent"));
    assert_eq!(state.remove_tab("absent"), None);
    state.update_tab("absent", "T".into(), "U".into());
    assert_eq!(ids(&state, "main"), ["first"]);
    assert_eq!(active(&state, "main").as_deref(), Some("first"));
    assert_eq!(state.tabs.get("first").unwrap().title, "Notion");
    assert_eq!(state.tabs.keys().len(), 1);
}

#[test]
fn removing_the_active_tab_picks_its_neighbour() {
    let mut state = state_with_window();
    for id in ["a", "b", "c"] {
        state.register_tab("main", tab(id));
    }
    assert!(state.activate_tab("a"));
    assert_eq!(
        state.remove_tab("a"),
        Some(("main".into(), Some("b".into())))
    );
    assert!(state.activate_tab("c"));
    assert_eq!(
        state.remove_tab("c"),
        Some(("main".into(), Some("b".into())))
    );
    assert_eq!(state.remove_tab("b"), Some(("main".into(), None)));
    assert_eq!(active(&state, "main"), None);
    assert!(ids(&state, "main").is_empty());
    assert!(state.tabs.keys().is_empty());
}

#[test]
fn activating_twice_is_activating_once() {
    let mut state = state_with_window();
    for id in ["a", "b", "c"] {
        state.register_tab("main", tab(id));
    }
    assert!(state.activate_tab("a"));
    assert!(state.activate_tab("a"));
    assert!(is_active(&state, "a"));
    assert!(!is_active(&state, "b"));
    assert!(!is_active(&state, "c"));
    assert_eq!(active(&state, "main").as_deref(), Some("a"));
}

#[test]
fn activation_stays_in_its_window() {
    let mut state = state_with_window();
    state.windows.insert("side".into(), window("side"));
    state.register_tab("main", tab("a"));
    state.register_tab("main", tab("b"));
    state.register_tab("side", tab("x"));
    state.register_tab("side", tab("y"));
    assert!(state.activate_tab("a"));
    assert_eq!(active(&state, "side").as_deref(), Some("y"));
    assert!(is_active(&state, "y"));
    assert!(!is_active(&state, "x"));
    assert!(is_active(&state, "a"));
    assert!(!is_active(&state, "b"));
    assert_eq!(state.window_of("x").as_deref(), Some("side"));
    assert_eq!(state.window_of("z"), None);
}

#[test]
fn a_new_tab_taken_out_again_leaves_the_list() {
    let mut state = state_with_window();
    for id in ["a", "b", "c"] {
        state.register_tab("main", tab(id));
    }
    assert!(state.activate_tab("a"));
    state.register_tab("main", tab("new"));
    assert_eq!(
        state.remove_tab("new"),
        Some(("main".into(), Some("c".into())))
    );
    assert_eq!(ids(&state, "main"), ["a", "b", "c"]);
    assert_eq!(active(&state, "main").as_deref(), Some("c"));
    assert_eq!(state.tabs.keys().len(), 3);
}

#[test]
fn a_tab_listed_but_not_known_is_skipped() {
    let mut state = state_with_window();
    state.register_tab("main", tab("a"));
    state.register_tab("main", tab("b"));
    state.tabs.remove("a");
    let shown: Vec<String> = state
        .window_tabs("main")
        .into_iter()
        .map(|t| t.id)
        .collect();
    assert_eq!(shown, ["b"]);
    assert!(state.activate_tab("a"));
    assert_eq!(active(&state, "main").as_deref(), Some("a"));
    assert!(!is_active(&state, "b"));
    assert!(state.window_tabs("absent").is_empty());
}

#[test]
fn activating_and_removing_in_a_given_window() {
    let mut state = state_with_window();
    for id in ["a", "b", "c"] {
        state.register_tab("main", tab(id));
    }
    state.activate_tab_in("main", "b");
    assert_eq!(active(&state, "main").as_deref(), Some("b"));
    assert_eq!(state.remove_tab_at("main", 1).as_deref(), Some("c"));
    assert_eq!(ids(&state, "main"), ["a", "c"]);
    assert_eq!(state.remove_tab_at("main", 0).as_deref(), Some("c"));
}

#[test]
fn clearing_a_window_hands_out_its_tabs() {
    let mut state = state_with_window();
    state.windows.insert("side".into(), window("side"));
    state.register_tab("main", tab("a"));
    state.register_tab("main", tab("b"));
    state.register_tab("side", tab("x"));
    state.update_tab("b", "B".into(), "https://b.notion.so".into());
    let (pages, was_active) = state.clear_window("main");
    assert_eq!(
        pages,
        [
            ("a".to_string(), "https://www.notion.so".to_string()),
            ("b".to_string(), "https://b.notion.so".to_string()),
        ]
    );
    assert_eq!(was_active.as_deref(), Some("b"));
    assert!(ids(&state, "main").is_empty());
    assert_eq!(active(&state, "main"), None);
    assert_eq!(state.tabs.keys(), ["x"]);
    assert_eq!(ids(&state, "side"), ["x"]);
    assert_eq!(state.clear_window("absent"), (Vec::new(), None));
}

#[test]
fn clones_hold_the_same() {
    let mut state = state_with_window();
    state.register_tab("main", tab("a"));
    let copy = state.clone();
    state.remove_tab("a");
    assert_eq!(ids(&copy, "main"), ["a"]);
    assert!(is_active(&copy, "a"));
    assert_eq!(
        copy.windows.get("main").unwrap().bounds.width,
        1200.0f64.to_bits()
    );
}

#[test]
fn string_map_keeps_one_value_for_each_key() {
    let mut map: StringMap<TabState> = StringMap::new();
    assert!(!map.contains_key("a"));
    assert!(map.get("a").is_none());
    assert!(map.remove("a").is_none());
    map.insert("a".into(), tab("one"));
    map.insert("b".into(), tab("two"));
    map.insert("a".into(), tab("three"));
    assert_eq!(map.keys(), ["a", "b"]);
    assert_eq!(map.get("a").unwrap().id, "three");
    map.get_mut("b").unwrap().title = "B".into();
    assert!(map.get_mut("c").is_none());
    assert_eq!(map.clone().get("b").unwrap().title, "B");
    assert_eq!(map.remove("a").unwrap().id, "three");
    assert!(!map.contains_key("a"));
    assert_eq!(map.get("b").unwrap().id, "two");
}

#[test]
fn an_added_tab_is_read_back() {
    let mut state = state_with_window();
    state.register_tab("main", tab("a"));
    let mut added = tab("b");
    added.title = "B".into();
    added.is_pinned = true;
    state.register_tab("main", added);
    let tabs = state.window_tabs("main");
    assert_eq!(tabs.len(), 2);
    assert_eq!(tabs[0].id, "a");
    assert!(!tabs[0].is_active);
    assert_eq!(tabs[1].id, "b");
    assert_eq!(tabs[1].title, "B");
    assert_eq!(tabs[1].url, "https://www.notion.so");
    assert!(tabs[1].is_active);
    assert!(tabs[1].is_pinned);
}
