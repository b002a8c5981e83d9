use neo_api_rs::diffuser::{DirectoryTab, Diffuse, FuzzyTab, Tab, TaskResult};
use neo_api_rs::search_state::{runner_step, SearchState};

#[test]
fn queue_asks_for_one_runner() {
    let mut d: Diffuse<u32> = Diffuse::new();
    assert!(d.queue(vec![1, 2]));
    assert!(!d.queue(vec![3]));
    assert_eq!(d.next_task(), Some(1));
    assert!(!d.queue(vec![4]));
    assert_eq!(d.next_task(), Some(2));
    assert_eq!(d.next_task(), Some(3));
    assert_eq!(d.next_task(), Some(4));
    assert_eq!(d.next_task(), None);
    assert!(d.queue(vec![5]));
    assert_eq!(d.next_task(), Some(5));
}

#[test]
fn empty_queue_stops_runner() {
    let mut d: Diffuse<u32> = Diffuse::new();
    assert_eq!(d.next_task(), None);
    assert!(d.queue(vec![]));
    assert_eq!(d.next_task(), None);
    assert!(d.queue(vec![7]));
}

#[test]
fn runner_steps_apply_results_in_order() {
    let mut d: Diffuse<&str> = Diffuse::new();
    let mut state = SearchState::default();
    assert!(d.queue(vec!["first", "second"]));
    assert_eq!(runner_step(&mut d, &mut state, None), Some("first"));
    let r1 = TaskResult { db_count: Some(3), ..TaskResult::default() };
    assert_eq!(runner_step(&mut d, &mut state, Some(r1)), Some("second"));
    assert_eq!(state.db_count, 3);
    let r2 = TaskResult { selected_idx: Some(1), update: true, ..TaskResult::default() };
    assert_eq!(runner_step(&mut d, &mut state, Some(r2)), None);
    assert_eq!((state.db_count, state.selected_idx, state.update), (3, 1, true));
    assert!(d.queue(vec!["again"]));
}

#[test]
fn directory_tab_names() {
    let tab = DirectoryTab::new("/home/user/project".to_string()).unwrap();
    assert_eq!(tab.name(), "project");
    assert_eq!(tab.full(), "/home/user/project");
    assert!(DirectoryTab::new("/".to_string()).is_none());
    assert!(DirectoryTab::new("a/..".to_string()).is_none());
    let t = Tab::Directory(DirectoryTab::new("/x/y/".to_string()).unwrap());
    assert_eq!(t.name(), "y");
    assert_eq!(t.full(), "/x/y/");
    let s = Tab::Text(" other ".to_string());
    assert_eq!(s.name(), " other ");
    assert_eq!(s.full(), " other ");
}

#[test]
fn has_changes_when_anything_set() {
    let mut r = TaskResult::default();
    assert!(!r.has_changes());
    r.selected_tab = Some(0);
    assert!(r.has_changes());
    let r2 = TaskResult { update: true, ..TaskResult::default() };
    assert!(r2.has_changes());
}
