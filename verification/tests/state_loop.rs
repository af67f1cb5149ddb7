use msl_cli::state::{AppState, FetchOutcome, KeyCode, KeyEvent, KeyKind, TAB_COUNT};
use msl_cli::state::Announcement;

fn press(code: KeyCode) -> KeyEvent {
    KeyEvent { kind: KeyKind::Press, code }
}

#[test]
fn new_state_defaults() {
    let s = AppState::new();
    assert!(!s.should_quit);
    assert_eq!(s.selected_tab, 0);
    assert!(s.home_data.is_none());
}

#[test]
fn next_key_seven_times_wraps_to_one() {
    let mut s = AppState::new();
    for _ in 0..7 {
        s.handle_key(press(KeyCode::NextTab));
    }
    assert_eq!(s.selected_tab, 1);
}

#[test]
fn prev_key_from_start_wraps_to_last() {
    let mut s = AppState::new();
    s.handle_key(press(KeyCode::PrevTab));
    assert_eq!(s.selected_tab, TAB_COUNT - 1);
}

#[test]
fn next_key_full_cycle_returns_to_start() {
    let mut s = AppState::new();
    for _ in 0..TAB_COUNT {
        s.handle_key(press(KeyCode::NextTab));
    }
    assert_eq!(s.selected_tab, 0);
}

#[test]
fn release_and_repeat_are_ignored() {
    let mut s = AppState::new();
    s.handle_key(KeyEvent { kind: KeyKind::Release, code: KeyCode::NextTab });
    s.handle_key(KeyEvent { kind: KeyKind::Repeat, code: KeyCode::Quit });
    assert_eq!(s.selected_tab, 0);
    assert!(!s.should_quit);
}

#[test]
fn only_quit_key_terminates() {
    let mut s = AppState::new();
    s.handle_key(press(KeyCode::NextTab));
    s.handle_key(press(KeyCode::Other));
    s.handle_key(press(KeyCode::PrevTab));
    s.apply_message(FetchOutcome::Failed("nope".to_string()));
    assert!(!s.should_quit);
    s.handle_key(press(KeyCode::Quit));
    assert!(s.should_quit);
}

#[test]
fn loaded_message_fills_home_data_once() {
    let mut s = AppState::new();
    s.apply_message(FetchOutcome::Loaded(Announcement {
        title: "公告".to_string(),
        content: "hello".to_string(),
        tips: vec![],
    }));
    match &s.home_data {
        Some(a) => {
            assert_eq!(a.title, "公告");
            assert_eq!(a.content, "hello");
        }
        None => panic!("announcement was not stored"),
    }
    s.apply_message(FetchOutcome::Loaded(Announcement {
        title: "other".to_string(),
        content: "later".to_string(),
        tips: vec![],
    }));
    match &s.home_data {
        Some(a) => assert_eq!(a.content, "hello"),
        None => panic!("announcement reverted to none"),
    }
}

#[test]
fn failed_message_changes_nothing() {
    let mut s = AppState::new();
    s.apply_message(FetchOutcome::Failed("timeout".to_string()));
    assert!(s.home_data.is_none());
    assert!(!s.should_quit);
    assert_eq!(s.selected_tab, 0);
}

#[test]
fn drain_applies_in_order() {
    let mut s = AppState::new();
    s.drain_messages(vec![
        FetchOutcome::Failed("first".to_string()),
        FetchOutcome::Loaded(Announcement {
            title: "公告".to_string(),
            content: "second".to_string(),
            tips: vec![],
        }),
    ]);
    match &s.home_data {
        Some(a) => assert_eq!(a.content, "second"),
        None => panic!("announcement was not stored"),
    }
}
