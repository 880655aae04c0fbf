use issue_tracker::app_state::{AppState, ViewMode};
use issue_tracker::controls::{handle_event, should_quit};
use issue_tracker::events::{Event, Key};
use issue_tracker::issue::{Issue, IssueState};
use issue_tracker::menu_items::{Action, MenuItems};

fn issue(number: u64, title: &str) -> Issue {
    Issue {
        number,
        title: title.to_string(),
        body: Some(format!("body of {}", title)),
        state: IssueState::Open,
        author: "alice".to_string(),
        created_at: "2024-01-01T00:00:00Z".to_string(),
    }
}

fn abc() -> Vec<Issue> {
    vec![issue(1, "A"), issue(2, "B"), issue(3, "C")]
}

fn key(k: Key) -> Event {
    Event::Key(k)
}

#[test]
fn new_starts_at_top_in_list_mode() {
    let s = AppState::new(abc());
    assert_eq!(s.selected_index, 0);
    assert_eq!(s.scroll_offset, 0);
    assert_eq!(s.view_mode, ViewMode::List);
    assert!(s.is_well_formed());
}

#[test]
fn down_down_selects_third_then_clamps() {
    let mut s = AppState::new(abc());
    let menu = MenuItems::new();
    handle_event(&mut s, &menu, key(Key::Down), 10);
    handle_event(&mut s, &menu, key(Key::Down), 10);
    assert_eq!(s.selected_index, 2);
    handle_event(&mut s, &menu, key(Key::Down), 10);
    assert_eq!(s.selected_index, 2);
    handle_event(&mut s, &menu, key(Key::Enter), 10);
    assert_eq!(s.view_mode, ViewMode::Detail);
    assert_eq!(s.issues[s.selected_index].title, "C");
    handle_event(&mut s, &menu, key(Key::Esc), 10);
    assert_eq!(s.view_mode, ViewMode::List);
    assert_eq!(s.selected_index, 2);
}

#[test]
fn up_never_wraps_below_zero() {
    let mut s = AppState::new(abc());
    let menu = MenuItems::new();
    handle_event(&mut s, &menu, key(Key::Up), 10);
    handle_event(&mut s, &menu, key(Key::Char('k')), 10);
    assert_eq!(s.selected_index, 0);
    assert!(s.is_well_formed());
}

#[test]
fn vi_keys_navigate_like_arrows() {
    let mut s = AppState::new(abc());
    let menu = MenuItems::new();
    handle_event(&mut s, &menu, key(Key::Char('j')), 10);
    assert_eq!(s.selected_index, 1);
    handle_event(&mut s, &menu, key(Key::Char('k')), 10);
    assert_eq!(s.selected_index, 0);
}

#[test]
fn enter_on_empty_issues_keeps_list_mode() {
    let mut s = AppState::new(Vec::new());
    let menu = MenuItems::new();
    handle_event(&mut s, &menu, key(Key::Enter), 10);
    assert_eq!(s.view_mode, ViewMode::List);
    assert_eq!(s.selected_index, 0);
    assert_eq!(s.scroll_offset, 0);
}

#[test]
fn navigation_on_empty_issues_changes_nothing() {
    let mut s = AppState::new(Vec::new());
    s.move_selection(5, 10);
    s.move_selection(-5, 10);
    assert_eq!(s.selected_index, 0);
    assert_eq!(s.scroll_offset, 0);
    assert_eq!(s.view_mode, ViewMode::List);
    assert!(s.issues.is_empty());
}

#[test]
fn unbound_key_leaves_state_identical() {
    let mut s = AppState::new(abc());
    let menu = MenuItems::new();
    handle_event(&mut s, &menu, key(Key::Down), 10);
    let issues_before = s.issues.clone();
    let (sel, scroll, mode) = (s.selected_index, s.scroll_offset, s.view_mode);
    handle_event(&mut s, &menu, key(Key::Char('x')), 10);
    assert_eq!(s.issues, issues_before);
    assert_eq!(s.selected_index, sel);
    assert_eq!(s.scroll_offset, scroll);
    assert_eq!(s.view_mode, mode);
}

#[test]
fn resize_leaves_state_identical() {
    let mut s = AppState::new(abc());
    let menu = MenuItems::new();
    handle_event(&mut s, &menu, key(Key::Down), 10);
    let (sel, scroll, mode) = (s.selected_index, s.scroll_offset, s.view_mode);
    handle_event(&mut s, &menu, Event::Resize(80, 24), 10);
    assert_eq!(s.selected_index, sel);
    assert_eq!(s.scroll_offset, scroll);
    assert_eq!(s.view_mode, mode);
}

#[test]
fn quit_is_terminal_for_every_later_event() {
    let mut s = AppState::new(abc());
    let menu = MenuItems::new();
    handle_event(&mut s, &menu, key(Key::Char('q')), 10);
    assert_eq!(s.view_mode, ViewMode::Quitting);
    assert!(should_quit(&s));
    for e in [
        key(Key::Down),
        key(Key::Up),
        key(Key::Enter),
        key(Key::Esc),
        key(Key::Char('q')),
        Event::Resize(1, 1),
    ] {
        handle_event(&mut s, &menu, e, 10);
        assert_eq!(s.view_mode, ViewMode::Quitting);
        assert_eq!(s.selected_index, 0);
        assert_eq!(s.scroll_offset, 0);
    }
}

#[test]
fn quit_works_from_detail_view_too() {
    let mut s = AppState::new(abc());
    let menu = MenuItems::new();
    handle_event(&mut s, &menu, key(Key::Enter), 10);
    assert_eq!(s.view_mode, ViewMode::Detail);
    handle_event(&mut s, &menu, key(Key::Char('q')), 10);
    assert_eq!(s.view_mode, ViewMode::Quitting);
}

#[test]
fn detail_round_trip_restores_list_and_selection() {
    let mut s = AppState::new(abc());
    s.move_selection(1, 10);
    let (sel, scroll) = (s.selected_index, s.scroll_offset);
    s.enter_detail();
    assert_eq!(s.view_mode, ViewMode::Detail);
    s.exit_detail();
    assert_eq!(s.view_mode, ViewMode::List);
    assert_eq!(s.selected_index, sel);
    assert_eq!(s.scroll_offset, scroll);
}

#[test]
fn navigation_is_ignored_in_detail_view() {
    let mut s = AppState::new(abc());
    let menu = MenuItems::new();
    handle_event(&mut s, &menu, key(Key::Down), 10);
    handle_event(&mut s, &menu, key(Key::Enter), 10);
    handle_event(&mut s, &menu, key(Key::Down), 10);
    handle_event(&mut s, &menu, key(Key::Char('j')), 10);
    assert_eq!(s.view_mode, ViewMode::Detail);
    assert_eq!(s.selected_index, 1);
}

#[test]
fn scroll_follows_selection_downward() {
    let issues: Vec<Issue> = (0..6).map(|n| issue(n, &format!("issue {}", n))).collect();
    let mut s = AppState::new(issues);
    for _ in 0..4 {
        s.move_selection(1, 2);
    }
    assert_eq!(s.selected_index, 4);
    assert_eq!(s.scroll_offset, 3);
    assert!(s.scroll_offset <= s.selected_index);
}

#[test]
fn scroll_follows_selection_upward() {
    let issues: Vec<Issue> = (0..6).map(|n| issue(n, &format!("issue {}", n))).collect();
    let mut s = AppState::new(issues);
    s.move_selection(5, 2);
    assert_eq!(s.selected_index, 5);
    assert_eq!(s.scroll_offset, 4);
    s.move_selection(-4, 2);
    assert_eq!(s.selected_index, 1);
    assert_eq!(s.scroll_offset, 1);
}

#[test]
fn invariant_holds_after_arbitrary_transitions() {
    let issues: Vec<Issue> = (0..9).map(|n| issue(n, &format!("issue {}", n))).collect();
    let mut s = AppState::new(issues);
    let menu = MenuItems::new();
    let events = [
        key(Key::Down),
        key(Key::Down),
        key(Key::Char('j')),
        key(Key::Enter),
        key(Key::Down),
        key(Key::Esc),
        key(Key::Up),
        Event::Resize(40, 12),
        key(Key::Char('k')),
        key(Key::Char('z')),
    ];
    for e in events {
        handle_event(&mut s, &menu, e, 3);
        assert!(s.is_well_formed());
        assert!(s.scroll_offset <= s.selected_index);
        assert!(s.selected_index < s.issues.len());
    }
}

#[test]
fn extreme_deltas_clamp_at_both_ends() {
    let mut s = AppState::new(abc());
    s.move_selection(i64::MAX, 10);
    assert_eq!(s.selected_index, 2);
    s.move_selection(i64::MIN, 10);
    assert_eq!(s.selected_index, 0);
}

#[test]
fn zero_height_viewport_pins_scroll_to_selection() {
    let mut s = AppState::new(abc());
    s.move_selection(2, 0);
    assert_eq!(s.selected_index, 2);
    assert_eq!(s.scroll_offset, 2);
    assert!(s.is_well_formed());
}

#[test]
fn resolve_maps_every_binding() {
    let menu = MenuItems::new();
    assert_eq!(menu.resolve(Key::Up), Some(Action::MoveUp));
    assert_eq!(menu.resolve(Key::Char('k')), Some(Action::MoveUp));
    assert_eq!(menu.resolve(Key::Down), Some(Action::MoveDown));
    assert_eq!(menu.resolve(Key::Char('j')), Some(Action::MoveDown));
    assert_eq!(menu.resolve(Key::Enter), Some(Action::OpenDetail));
    assert_eq!(menu.resolve(Key::Esc), Some(Action::CloseDetail));
    assert_eq!(menu.resolve(Key::Char('q')), Some(Action::Quit));
    assert_eq!(menu.resolve(Key::Char('x')), None);
}

#[test]
fn registry_agrees_with_its_own_items() {
    let menu = MenuItems::new();
    assert_eq!(menu.items.len(), 7);
    for item in &menu.items {
        assert_eq!(menu.resolve(item.key), Some(item.action));
        assert!(!item.label.is_empty());
    }
}
