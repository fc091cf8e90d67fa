use lotion::state::AppState;
use lotion::tab_controller::TabController;
use lotion::tab_manager::TabManager;
use lotion::window_controller::{
    await_tabs, choose_restored, is_tab_bar, needs_tab_bar, opening, EventReaction, Opening,
    WaitStep, WindowController, WindowEvent, TAB_BAR_LABEL,
};

fn texts(list: &[&str]) -> Vec<String> {
    list.iter().map(|s| s.to_string()).collect()
}

fn pages(ids: &[&str]) -> Vec<(String, String)> {
    ids.iter()
        .map(|id| (id.to_string(), format!("https://notion.so/{}", id)))
        .collect()
}

#[test]
fn the_main_window_is_entered_once() {
    let mut state = AppState::new();
    let (window, new) = WindowController::new(&mut state);
    assert_eq!(window.label, "main");
    assert!(new);
    let entry = state.windows.get("main").unwrap();
    assert_eq!(entry.id, "main");
    assert_eq!(f64::from_bits(entry.bounds.width), 1200.0);
    assert_eq!(f64::from_bits(entry.bounds.height), 768.0);
    assert_eq!(entry.bounds.x, None);
    assert_eq!(entry.bounds.y, None);
    assert!(entry.is_focused);
    assert!(!entry.is_maximized && !entry.is_minimized && !entry.is_full_screen);
    assert!(entry.tab_ids.is_empty());
    assert_eq!(entry.active_tab_id, None);

    TabManager::enter_tab(&mut state, "t", "main", "u");
    let (_, new) = WindowController::new(&mut state);
    assert!(!new);
    assert_eq!(state.windows.get("main").unwrap().tab_ids, ["t"]);
}

#[test]
fn events_are_entered_into_the_state() {
    let mut state = AppState::new();
    let (window, _) = WindowController::new(&mut state);
    TabManager::enter_tab(&mut state, "t", "main", "u");

    assert!(matches!(
        window.handle_event(&mut state, WindowEvent::Focused(true)),
        EventReaction::Store
    ));
    assert_eq!(state.focused_window_id.as_deref(), Some("main"));
    assert!(matches!(
        window.handle_event(&mut state, WindowEvent::Focused(false)),
        EventReaction::Store
    ));
    assert_eq!(state.focused_window_id.as_deref(), Some("main"));
    assert!(!state.windows.get("main").unwrap().is_focused);

    let resized = WindowEvent::Resized {
        width: 640.0f64.to_bits(),
        height: 480.0f64.to_bits(),
    };
    assert!(matches!(
        window.handle_event(&mut state, resized),
        EventReaction::LayOutAndStore
    ));
    let moved = WindowEvent::Moved {
        x: (-3.0f64).to_bits(),
        y: 7.0f64.to_bits(),
    };
    assert!(matches!(
        window.handle_event(&mut state, moved),
        EventReaction::Store
    ));
    let bounds = state.windows.get("main").unwrap().bounds;
    assert_eq!(f64::from_bits(bounds.width), 640.0);
    assert_eq!(f64::from_bits(bounds.height), 480.0);
    assert_eq!(bounds.x.map(f64::from_bits), Some(-3.0));
    assert_eq!(bounds.y.map(f64::from_bits), Some(7.0));

    assert!(matches!(
        window.handle_event(&mut state, WindowEvent::CloseRequested),
        EventReaction::Exit
    ));
    assert!(matches!(
        window.handle_event(&mut state, WindowEvent::Other),
        EventReaction::Ignore
    ));
    assert_eq!(state.windows.get("main").unwrap().tab_ids, ["t"]);
    assert!(state.tabs.get("t").unwrap().is_active);
}

#[test]
fn a_window_without_entry_gets_none() {
    let mut state = AppState::new();
    let window = WindowController {
        label: "side".into(),
    };
    window.handle_event(&mut state, WindowEvent::Focused(true));
    window.handle_event(&mut state, WindowEvent::Moved { x: 0, y: 0 });
    window.handle_event(
        &mut state,
        WindowEvent::Resized {
            width: 0,
            height: 0,
        },
    );
    assert_eq!(state.focused_window_id.as_deref(), Some("side"));
    assert!(state.windows.keys().is_empty());
}

#[test]
fn the_tab_strip_is_known_by_its_label() {
    assert_eq!(TAB_BAR_LABEL, "tab-strip");
    assert!(is_tab_bar("tab-strip"));
    assert!(!is_tab_bar("tab"));
    assert!(needs_tab_bar(&texts(&[])));
    assert!(needs_tab_bar(&texts(&["a", "b"])));
    assert!(!needs_tab_bar(&texts(&["a", "tab-strip"])));
}

#[test]
fn waiting_ends_after_sixty_more_attempts() {
    assert!(matches!(await_tabs(true, 0), WaitStep::Ready));
    assert!(matches!(await_tabs(true, 60), WaitStep::Ready));
    let mut attempts = 0;
    let mut sleeps = 0;
    while let WaitStep::Retry(n) = await_tabs(false, attempts) {
        attempts = n;
        sleeps += 1;
    }
    assert_eq!(sleeps, 60);
    assert!(matches!(await_tabs(false, attempts), WaitStep::GiveUp));
}

#[test]
fn saved_tabs_are_handed_out_if_they_are_to_be_restored() {
    let mut state = AppState::new();
    let (window, _) = WindowController::new(&mut state);
    for id in ["a", "b"] {
        TabManager::enter_tab(&mut state, id, "main", &format!("https://notion.so/{}", id));
    }
    state.activate_tab("a");
    let (saved, active) = window.saved_tabs(false, &mut state);
    assert!(saved.is_empty());
    assert_eq!(active, None);
    assert_eq!(state.windows.get("main").unwrap().tab_ids, ["a", "b"]);

    let (saved, active) = window.saved_tabs(true, &mut state);
    assert_eq!(saved, pages(&["a", "b"]));
    assert_eq!(active.as_deref(), Some("a"));
    assert!(state.tabs.keys().is_empty());
    assert!(state.windows.get("main").unwrap().tab_ids.is_empty());
    assert_eq!(window.saved_tabs(true, &mut state), (Vec::new(), None));
}

#[test]
fn reopened_tabs_show_the_saved_pages() {
    let mut state = AppState::new();
    let (window, _) = WindowController::new(&mut state);
    for id in ["a", "b", "c"] {
        TabManager::enter_tab(&mut state, id, "main", &format!("https://notion.so/{}", id));
    }
    state.activate_tab("b");
    let (saved, active) = window.saved_tabs(true, &mut state);
    let made: Vec<Option<String>> = saved
        .iter()
        .map(|(_, url)| Some(TabManager::create_tab(&mut state, "main", url)))
        .collect();
    let chosen = choose_restored(&saved, &active, &made).unwrap();
    assert!(state.activate_tab(&chosen));
    let urls: Vec<String> = state.window_tabs("main").into_iter().map(|t| t.url).collect();
    assert_eq!(
        urls,
        ["https://notion.so/a", "https://notion.so/b", "https://notion.so/c"]
    );
    assert_eq!(state.tabs.get(&chosen).unwrap().url, "https://notion.so/b");
}

#[test]
fn the_restored_tab_that_was_active_is_chosen() {
    let made = |list: &[Option<&str>]| -> Vec<Option<String>> {
        list.iter().map(|id| id.map(String::from)).collect()
    };
    let saved = pages(&["a", "b", "c"]);
    let choose = |active: Option<&str>, list: &[Option<&str>]| {
        choose_restored(&saved, &active.map(String::from), &made(list))
    };
    let all = [Some("1"), Some("2"), Some("3")];
    assert_eq!(choose(Some("b"), &all).as_deref(), Some("2"));
    assert_eq!(choose(None, &all).as_deref(), Some("3"));
    assert_eq!(choose(Some("x"), &all).as_deref(), Some("3"));
    assert_eq!(
        choose(Some("b"), &[Some("1"), None, None]).as_deref(),
        Some("1")
    );
    assert_eq!(choose(Some("b"), &[None, None, None]), None);
    assert_eq!(choose_restored(&Vec::new(), &None, &Vec::new()), None);
    assert_eq!(
        choose_restored(
            &pages(&["a", "a", "b"]),
            &Some("a".into()),
            &made(&all)
        )
        .as_deref(),
        Some("2")
    );
}

#[test]
fn a_window_opens_with_its_tabs_or_a_first_one() {
    let saved = pages(&["a", "b"]);
    let active = Some("a".to_string());
    assert!(matches!(
        opening(&saved, &active, &vec![Some("1".into()), Some("2".into())]),
        Opening::Restored(id) if id == "1"
    ));
    assert!(matches!(
        opening(&saved, &active, &vec![None, None]),
        Opening::First(url) if url == "https://www.notion.so"
    ));
    assert!(matches!(
        opening(&Vec::new(), &None, &Vec::new()),
        Opening::First(url) if url == "https://www.notion.so"
    ));
}

#[test]
fn tabs_that_cannot_be_reopened_are_left_out() {
    let mut state = AppState::new();
    let (window, _) = WindowController::new(&mut state);
    for id in ["a", "b", "c"] {
        TabManager::enter_tab(&mut state, id, "main", &format!("https://notion.so/{}", id));
    }
    let (saved, active) = window.saved_tabs(true, &mut state);
    let mut manager = TabManager::new();
    let mut made: Vec<Option<String>> = Vec::new();
    for (old_id, url) in &saved {
        let id = TabManager::create_tab(&mut state, "main", url);
        let outcome = if old_id == "c" {
            Err("why".to_string())
        } else {
            Ok(TabController {
                tab_id: id.clone(),
                window_id: "main".into(),
            })
        };
        made.push(manager.finish_tab(&mut state, &id, outcome).ok());
    }
    let tabs = state.window_tabs("main");
    let urls: Vec<&str> = tabs.iter().map(|t| t.url.as_str()).collect();
    assert_eq!(urls, ["https://notion.so/a", "https://notion.so/b"]);
    assert_eq!(state.tabs.keys().len(), 2);
    let last = made[1].clone();
    assert_eq!(state.windows.get("main").unwrap().active_tab_id, last);
    assert!(made[2].is_none());
    assert_eq!(choose_restored(&saved, &active, &made), last);
}
