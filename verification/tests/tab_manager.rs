use lotion::state::AppState;
use lotion::tab_controller::TabController;
use lotion::tab_manager::TabManager;
use lotion::window_controller::WindowController;

fn main_state() -> AppState {
    let mut state = AppState::new();
    WindowController::new(&mut state);
    state
}

fn controller(id: &str) -> TabController {
    TabController {
        tab_id: id.into(),
        window_id: "main".into(),
    }
}

#[test]
fn a_new_tab_has_a_random_id_and_is_entered() {
    let mut state = main_state();
    let id = TabManager::create_tab(&mut state, "main", "https://notion.so/a");
    assert_eq!(id.len(), 36);
    for (i, c) in id.chars().enumerate() {
        match i {
            8 | 13 | 18 | 23 => assert_eq!(c, '-'),
            14 => assert_eq!(c, '4'),
            19 => assert!("89ab".contains(c)),
            _ => assert!(c.is_ascii_digit() || ('a'..='f').contains(&c)),
        }
    }
    let tab = state.tabs.get(&id).unwrap();
    assert_eq!(tab.id, id);
    assert_eq!(tab.title, "Notion");
    assert_eq!(tab.url, "https://notion.so/a");
    assert!(tab.is_active);
    assert!(!tab.is_pinned);
    assert_eq!(state.windows.get("main").unwrap().tab_ids, [id.clone()]);
    assert_ne!(TabManager::create_tab(&mut state, "main", "u"), id);
}

#[test]
fn a_tab_in_no_window_is_not_entered() {
    let mut state = main_state();
    TabManager::enter_tab(&mut state, "t", "absent", "u");
    TabManager::create_tab(&mut state, "absent", "u");
    assert!(state.tabs.keys().is_empty());
}

#[test]
fn a_tab_that_was_made_is_kept() {
    let mut state = main_state();
    let mut manager = TabManager::new();
    TabManager::enter_tab(&mut state, "t", "main", "u");
    assert_eq!(
        manager.finish_tab(&mut state, "t", Ok(controller("t"))),
        Ok("t".to_string())
    );
    assert_eq!(manager.get_tab("t").as_deref(), Some("t"));
    assert_eq!(manager.get_tab("x"), None);
    assert!(state.tabs.contains_key("t"));
}

#[test]
fn a_tab_that_was_not_made_is_taken_out_again() {
    let mut state = main_state();
    let mut manager = TabManager::new();
    TabManager::enter_tab(&mut state, "a", "main", "u");
    TabManager::enter_tab(&mut state, "t", "main", "u");
    assert_eq!(
        manager.finish_tab(&mut state, "t", Err("why".into())),
        Err("why".to_string())
    );
    assert_eq!(manager.get_tab("t"), None);
    assert!(!state.tabs.contains_key("t"));
    let window = state.windows.get("main").unwrap();
    assert_eq!(window.tab_ids, ["a"]);
    assert_eq!(window.active_tab_id.as_deref(), Some("a"));
    assert!(state.tabs.get("a").unwrap().is_active);
}

#[test]
fn one_tab_is_shown_and_the_others_are_not() {
    let mut state = main_state();
    let mut manager = TabManager::new();
    for id in ["a", "b", "c"] {
        TabManager::enter_tab(&mut state, id, "main", "u");
        manager
            .finish_tab(&mut state, id, Ok(controller(id)))
            .unwrap();
    }
    let mut plan = manager.show_tab("b");
    plan.sort();
    assert_eq!(
        plan,
        [
            ("a".to_string(), false),
            ("b".to_string(), true),
            ("c".to_string(), false)
        ]
    );
    assert!(manager.show_tab("x").iter().all(|(_, seen)| !seen));
    assert_eq!(manager.show_tab("x").len(), 3);
}

#[test]
fn a_tab_is_given_up_once() {
    let mut state = main_state();
    let mut manager = TabManager::new();
    for id in ["a", "b"] {
        manager
            .finish_tab(&mut state, id, Ok(controller(id)))
            .unwrap();
    }
    let mut ids = manager.get_tab_ids();
    ids.sort();
    assert_eq!(ids, ["a", "b"]);
    assert_eq!(manager.destroy_tab("a").unwrap().tab_id, "a");
    assert!(manager.destroy_tab("a").is_none());
    assert_eq!(manager.get_tab_ids(), ["b"]);
    assert_eq!(manager.get_tab("b").as_deref(), Some("b"));
}
