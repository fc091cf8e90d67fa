use lotion::commands::{
    after_close, authorize, current_index, get_window_tabs, log_network_event, relative_tab,
    truncate_event, update_tab_state, window_command, AfterClose,
};
use lotion::state::AppState;
use lotion::tab_controller::{LotionAction, WindowOp};
use lotion::tab_manager::TabManager;
use lotion::window_controller::WindowController;

fn state_with_tabs(ids: &[&str]) -> AppState {
    let mut state = AppState::new();
    WindowController::new(&mut state);
    for id in ids {
        TabManager::enter_tab(&mut state, id, "main", "https://www.notion.so");
    }
    state
}

#[test]
fn untrusted_callers_are_told_so() {
    assert_eq!(authorize(true), Ok(()));
    assert_eq!(authorize(false), Err("Untrusted origin".to_string()));
}

#[test]
fn tabs_are_told_to_trusted_callers() {
    let state = state_with_tabs(&["a", "b"]);
    let ids: Vec<String> = get_window_tabs(&state, true, "main")
        .into_iter()
        .map(|t| t.id)
        .collect();
    assert_eq!(ids, ["a", "b"]);
    assert!(get_window_tabs(&state, false, "main").is_empty());
    assert!(get_window_tabs(&state, true, "absent").is_empty());
}

#[test]
fn tabs_are_counted_in_a_circle() {
    let mut state = state_with_tabs(&["a", "b", "c"]);
    let to = |state: &AppState, d: i32| relative_tab(state, "main", d);
    assert_eq!(current_index(&state, "main"), 2);
    assert_eq!(to(&state, 1).as_deref(), Some("a"));
    assert_eq!(to(&state, -1).as_deref(), Some("b"));
    assert_eq!(to(&state, 0).as_deref(), Some("c"));
    assert_eq!(to(&state, -3).as_deref(), Some("c"));
    assert_eq!(to(&state, -8).as_deref(), Some("a"));
    assert_eq!(to(&state, 1000).as_deref(), Some("a"));
    assert!(state.activate_tab("a"));
    assert_eq!(current_index(&state, "main"), 0);
    assert_eq!(to(&state, -1).as_deref(), Some("c"));
    assert_eq!(to(&state, i32::MAX).as_deref(), Some("b"));
    assert_eq!(to(&state, i32::MIN).as_deref(), Some("b"));
}

#[test]
fn switching_on_and_back_again() {
    let mut state = state_with_tabs(&["a", "b", "c", "d"]);
    for d in -9..=9 {
        assert!(state.activate_tab("b"));
        let there = relative_tab(&state, "main", d).unwrap();
        assert!(state.activate_tab(&there));
        assert_eq!(relative_tab(&state, "main", -d).as_deref(), Some("b"));
    }
}

#[test]
fn without_tabs_there_is_nowhere_to_switch() {
    let state = state_with_tabs(&[]);
    assert_eq!(relative_tab(&state, "main", 1), None);
    assert_eq!(relative_tab(&state, "absent", 1), None);
    assert_eq!(current_index(&state, "main"), 0);
    assert_eq!(current_index(&state, "absent"), 0);
}

#[test]
fn an_active_tab_that_is_not_listed_counts_as_the_first() {
    let mut state = state_with_tabs(&["a", "b"]);
    state.windows.get_mut("main").unwrap().active_tab_id = Some("x".into());
    assert_eq!(relative_tab(&state, "main", 1).as_deref(), Some("b"));
    state.windows.get_mut("main").unwrap().active_tab_id = None;
    assert_eq!(relative_tab(&state, "main", 1).as_deref(), Some("b"));
}

#[test]
fn a_window_is_not_left_without_a_tab() {
    let mut state = state_with_tabs(&["a", "b"]);
    assert!(matches!(
        after_close(state.remove_tab("a")),
        AfterClose::Show(id) if id == "b"
    ));
    assert!(matches!(
        after_close(state.remove_tab("b")),
        AfterClose::Open { window_id, url }
            if window_id == "main" && url == "https://www.notion.so"
    ));
    assert!(matches!(after_close(state.remove_tab("b")), AfterClose::Nothing));
}

#[test]
fn pages_tell_only_of_themselves() {
    let mut state = state_with_tabs(&["a"]);
    let here = Some("https://notion.so/x".to_string());
    let mut tell = |trusted, at: &Option<String>, url: &str| {
        let done = update_tab_state(&mut state, trusted, at, "a", "T".into(), url.into());
        (done, state.tabs.get("a").unwrap().url.clone())
    };
    let old = "https://www.notion.so".to_string();
    assert_eq!(tell(false, &here, "https://notion.so/x"), (false, old.clone()));
    assert_eq!(tell(true, &here, "https://notion.so/y"), (false, old.clone()));
    assert_eq!(tell(true, &None, "https://notion.so/x"), (false, old));
    assert_eq!(
        tell(true, &here, "https://notion.so/x"),
        (true, "https://notion.so/x".to_string())
    );
    assert_eq!(state.tabs.get("a").unwrap().title, "T");
    assert!(update_tab_state(&mut state, true, &here, "z", "T".into(), "https://notion.so/x".into()));
    assert_eq!(state.tabs.keys(), ["a"]);
}

#[test]
fn window_commands_of_trusted_callers() {
    assert!(matches!(
        window_command(true, &LotionAction::Minimize, true, None),
        WindowOp::Minimize
    ));
    assert!(matches!(
        window_command(true, &LotionAction::Maximize, true, Some(true)),
        WindowOp::Unmaximize
    ));
    assert!(matches!(
        window_command(true, &LotionAction::Maximize, true, None),
        WindowOp::Maximize
    ));
    assert!(matches!(
        window_command(true, &LotionAction::Close, true, None),
        WindowOp::Close
    ));
    assert!(matches!(
        window_command(false, &LotionAction::Close, true, None),
        WindowOp::Nothing
    ));
    assert!(matches!(
        window_command(true, &LotionAction::Close, false, None),
        WindowOp::Nothing
    ));
}

#[test]
fn long_events_are_cut() {
    let short = "x".repeat(512);
    assert_eq!(truncate_event(short.clone()), short);
    assert_eq!(truncate_event("x".repeat(513)), format!("{}...", short));
    let wide = "\u{e9}".repeat(300);
    assert_eq!(truncate_event(wide), format!("{}...", "\u{e9}".repeat(256)));
    assert_eq!(truncate_event(String::new()), "");
}

#[test]
fn long_events_are_cut_between_characters() {
    let odd = format!("x{}", "\u{e9}".repeat(300));
    assert_eq!(
        truncate_event(odd.clone()),
        format!("x{}...", "\u{e9}".repeat(255))
    );
    assert_eq!(
        log_network_event(true, odd),
        Some(format!("[lotion-net] x{}...", "\u{e9}".repeat(255)))
    );
    let wide = format!("abc{}", "\u{1f600}".repeat(200));
    assert_eq!(
        truncate_event(wide),
        format!("abc{}...", "\u{1f600}".repeat(127))
    );
    assert_eq!(
        truncate_event(format!("{}\u{1f600}", "a".repeat(509))),
        format!("{}...", "a".repeat(509))
    );
}

#[test]
fn events_of_trusted_callers_are_logged() {
    assert_eq!(
        log_network_event(true, "FETCH".into()).as_deref(),
        Some("[lotion-net] FETCH")
    );
    assert_eq!(
        log_network_event(true, "y".repeat(600)),
        Some(format!("[lotion-net] {}...", "y".repeat(512)))
    );
    assert_eq!(log_network_event(false, "FETCH".into()), None);
}
