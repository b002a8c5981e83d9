use neo_api_rs::diffuser::{Tab, TaskResult};
use neo_api_rs::search_state::{ChangeTab, Move, SearchState};

fn state_with_tabs(n: usize) -> SearchState {
    let mut s = SearchState::default();
    for i in 0..n {
        s.tabs.push(Tab::Text(format!("tab{}", i)));
    }
    s
}

#[test]
fn change_tab_wraps_around() {
    let mut s = state_with_tabs(3);
    s.change_tab(ChangeTab::Next);
    assert_eq!(s.selected_tab, 1);
    s.change_tab(ChangeTab::Next);
    s.change_tab(ChangeTab::Next);
    assert_eq!(s.selected_tab, 0);
    s.change_tab(ChangeTab::Previous);
    assert_eq!(s.selected_tab, 2);
    s.change_tab(ChangeTab::Previous);
    assert_eq!(s.selected_tab, 1);
}

#[test]
fn change_tab_next_without_tabs_stays_first() {
    let mut s = state_with_tabs(0);
    s.change_tab(ChangeTab::Next);
    assert_eq!(s.selected_tab, 0);
}

#[test]
fn move_selection_wraps_around() {
    let mut s = SearchState::default();
    s.move_selection(4, Move::Up);
    assert_eq!(s.selected_idx, 3);
    s.move_selection(4, Move::Down);
    assert_eq!(s.selected_idx, 0);
    s.move_selection(4, Move::Down);
    assert_eq!(s.selected_idx, 1);
    s.move_selection(4, Move::Up);
    assert_eq!(s.selected_idx, 0);
}

#[test]
fn move_then_back_returns() {
    let mut s = SearchState::default();
    s.selected_idx = 2;
    s.move_selection(5, Move::Down);
    s.move_selection(5, Move::Up);
    assert_eq!(s.selected_idx, 2);
}

#[test]
fn apply_takes_given_values() {
    let mut s = state_with_tabs(2);
    s.db_count = 9;
    s.selected_idx = 4;
    let result = TaskResult {
        db_count: Some(3),
        selected_idx: None,
        selected_tab: Some(1),
        tabs: None,
        update: true,
    };
    s.apply(result);
    assert_eq!(s.db_count, 3);
    assert_eq!(s.selected_idx, 4);
    assert_eq!(s.selected_tab, 1);
    assert_eq!(s.tabs.len(), 2);
    assert!(s.update);
}

#[test]
fn apply_default_changes_nothing() {
    let mut s = state_with_tabs(1);
    s.db_count = 7;
    s.apply(TaskResult::default());
    assert_eq!(s.db_count, 7);
    assert!(!s.update);
    assert_eq!(s.tabs.len(), 1);
    assert!(!TaskResult::default().has_changes());
}

#[test]
fn apply_same_result_twice_is_once() {
    let make = || TaskResult {
        db_count: Some(5),
        selected_idx: Some(2),
        selected_tab: None,
        tabs: Some(vec![Tab::Text("a".to_string())]),
        update: false,
    };
    let mut once = SearchState::default();
    once.apply(make());
    let mut twice = SearchState::default();
    twice.apply(make());
    twice.apply(make());
    assert_eq!((once.db_count, once.selected_idx, once.tabs.len(), once.update), (5, 2, 1, false));
    assert_eq!((twice.db_count, twice.selected_idx, twice.tabs.len(), twice.update), (5, 2, 1, false));
}
