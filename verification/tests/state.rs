use sketchybar_daemon::state::detect_space_change;
use sketchybar_daemon::state::refresh_current_app;
use sketchybar_daemon::state::refresh_spaces;
use sketchybar_daemon::state::refresh_windows;
use sketchybar_daemon::state::space_indices;
use sketchybar_daemon::state::DaemonState;
use sketchybar_daemon::state::QueryError;
use sketchybar_daemon::state::SpaceInfo;
use sketchybar_daemon::state::WindowInfo;
use std::collections::HashMap;

fn space(index: u32, display: u32, has_focus: bool, windows: Vec<u32>) -> SpaceInfo {
    SpaceInfo { index, display, has_focus, windows, label: format!("Desktop {}", index) }
}

fn window(id: u32, app: &str, title: &str, space: u32, has_focus: bool) -> WindowInfo {
    WindowInfo {
        id,
        app: app.to_string(),
        title: title.to_string(),
        space,
        display: 1,
        has_focus,
    }
}

#[test]
fn new_state_knows_nothing() {
    let state = DaemonState::new();
    assert_eq!(state.spaces.len(), 0);
    assert_eq!(state.windows.len(), 0);
    assert_eq!(state.current_app, None);
    assert_eq!(state.displays.len(), 0);
    assert!(state.get_focused_space().is_none());
    assert!(state.get_spaces_for_display(1).is_empty());
}

#[test]
fn first_space_report_is_a_change() {
    let mut state = DaemonState::new();
    let outcome = state.update_spaces(Ok(vec![space(1, 1, true, vec![]), space(2, 1, false, vec![7])]));
    assert_eq!(outcome, Ok(true));
    assert_eq!(state.spaces.len(), 2);
    assert_eq!(state.spaces.get(&2).unwrap().windows, vec![7]);
    assert_eq!(state.spaces.get(&1).unwrap().label, "Desktop 1");
}

#[test]
fn same_space_report_is_no_change() {
    let mut state = DaemonState::new();
    let _ = state.update_spaces(Ok(vec![space(1, 1, true, vec![4]), space(2, 1, false, vec![])]));
    let outcome = state.update_spaces(Ok(vec![space(1, 1, true, vec![4]), space(2, 1, false, vec![])]));
    assert_eq!(outcome, Ok(false));
}

#[test]
fn focus_move_is_a_change() {
    let mut state = DaemonState::new();
    let _ = state.update_spaces(Ok(vec![space(1, 1, true, vec![]), space(2, 1, false, vec![])]));
    let outcome = state.update_spaces(Ok(vec![space(1, 1, false, vec![]), space(2, 1, true, vec![])]));
    assert_eq!(outcome, Ok(true));
    let focused = state.get_focused_space().unwrap();
    assert_eq!(focused.index, 2);
    assert!(focused.has_focus);
}

#[test]
fn window_count_of_a_space_is_a_change() {
    let mut state = DaemonState::new();
    let _ = state.update_spaces(Ok(vec![space(1, 1, true, vec![1, 2])]));
    assert_eq!(state.update_spaces(Ok(vec![space(1, 1, true, vec![1])])), Ok(true));
    assert_eq!(state.update_spaces(Ok(vec![space(1, 1, true, vec![9])])), Ok(false));
    assert_eq!(state.spaces.get(&1).unwrap().windows, vec![9]);
}

#[test]
fn a_vanished_space_is_no_change_but_is_gone() {
    let mut state = DaemonState::new();
    let _ = state.update_spaces(Ok(vec![space(1, 1, true, vec![]), space(2, 1, false, vec![])]));
    let outcome = state.update_spaces(Ok(vec![space(1, 1, true, vec![])]));
    assert_eq!(outcome, Ok(false));
    assert_eq!(state.spaces.len(), 1);
    assert!(!state.spaces.contains_key(&2));
}

#[test]
fn empty_space_report_clears_the_table() {
    let mut state = DaemonState::new();
    let _ = state.update_spaces(Ok(vec![space(1, 1, true, vec![])]));
    assert_eq!(state.update_spaces(Ok(vec![])), Ok(false));
    assert!(state.spaces.is_empty());
}

#[test]
fn duplicate_space_index_keeps_the_later() {
    let mut state = DaemonState::new();
    let _ = state.update_spaces(Ok(vec![space(3, 1, false, vec![]), space(3, 2, true, vec![5])]));
    assert_eq!(state.spaces.len(), 1);
    assert_eq!(state.spaces.get(&3).unwrap().display, 2);
}

#[test]
fn failed_space_query_keeps_the_table() {
    let mut state = DaemonState::new();
    let _ = state.update_spaces(Ok(vec![space(1, 1, true, vec![1])]));
    assert_eq!(state.update_spaces(Err(QueryError::Unreachable)), Err(QueryError::Unreachable));
    assert_eq!(state.update_spaces(Err(QueryError::Failed)), Err(QueryError::Failed));
    assert_eq!(state.update_spaces(Err(QueryError::Malformed)), Err(QueryError::Malformed));
    assert_eq!(state.spaces.len(), 1);
    assert_eq!(state.spaces.get(&1).unwrap().windows, vec![1]);
}

#[test]
fn window_change_is_the_count_alone() {
    let mut state = DaemonState::new();
    assert_eq!(state.update_windows(Ok(vec![window(1, "Terminal", "bash", 1, true)])), Ok(true));
    assert_eq!(state.update_windows(Ok(vec![window(1, "Terminal", "zsh", 1, true)])), Ok(false));
    assert_eq!(state.windows.get(&1).unwrap().title, "zsh");
    assert_eq!(state.update_windows(Ok(vec![window(2, "Safari", "News", 1, true)])), Ok(false));
    assert!(state.windows.contains_key(&2));
    assert!(!state.windows.contains_key(&1));
    assert_eq!(
        state.update_windows(Ok(vec![
            window(2, "Safari", "News", 1, true),
            window(3, "Mail", "Inbox", 1, false)
        ])),
        Ok(true)
    );
    assert_eq!(state.update_windows(Ok(vec![])), Ok(true));
}

#[test]
fn duplicate_window_ids_count_once() {
    let mut state = DaemonState::new();
    let _ = state.update_windows(Ok(vec![window(1, "A", "a", 1, false)]));
    let outcome = state.update_windows(Ok(vec![window(5, "B", "b", 1, false), window(5, "C", "c", 1, true)]));
    assert_eq!(outcome, Ok(false));
    assert_eq!(state.windows.get(&5).unwrap().app, "C");
}

#[test]
fn failed_window_query_leaves_the_rest_alone() {
    let mut state = DaemonState::new();
    let _ = state.update_windows(Ok(vec![window(1, "Terminal", "bash", 1, true)]));
    let report = state.sync(
        Ok(vec![space(1, 1, true, vec![1])]),
        Err(QueryError::Failed),
        Ok("Safari".to_string()),
    );
    assert_eq!(report.spaces, Ok(true));
    assert_eq!(report.windows, Err(QueryError::Failed));
    assert_eq!(report.current_app, Ok(true));
    assert_eq!(state.windows.len(), 1);
    assert_eq!(state.windows.get(&1).unwrap().title, "bash");
    assert_eq!(state.spaces.len(), 1);
    assert_eq!(state.current_app, Some("Safari".to_string()));
}

#[test]
fn app_focus_change() {
    let mut state = DaemonState::new();
    state.current_app = Some("Terminal".to_string());
    assert_eq!(state.update_current_app(Ok("Safari".to_string())), Ok(true));
    assert_eq!(state.current_app, Some("Safari".to_string()));
    assert_eq!(state.update_current_app(Ok("Safari".to_string())), Ok(false));
    assert_eq!(state.current_app, Some("Safari".to_string()));
}

#[test]
fn failed_app_query_shows_unknown() {
    let mut state = DaemonState::new();
    assert_eq!(state.update_current_app(Err(QueryError::Unreachable)), Ok(true));
    assert_eq!(state.current_app, Some("Unknown".to_string()));
    assert_eq!(state.update_current_app(Err(QueryError::Failed)), Ok(false));
    assert_eq!(state.current_app, Some("Unknown".to_string()));
}

#[test]
fn refreshes_work_on_single_collections() {
    let mut spaces: HashMap<u32, SpaceInfo> = HashMap::new();
    assert!(detect_space_change(&spaces, &vec![space(1, 1, false, vec![])]));
    assert!(!detect_space_change(&spaces, &vec![]));
    assert_eq!(refresh_spaces(&mut spaces, Ok(vec![space(1, 1, false, vec![])])), Ok(true));
    assert_eq!(refresh_spaces(&mut spaces, Err(QueryError::Malformed)), Err(QueryError::Malformed));
    assert_eq!(spaces.len(), 1);

    let mut windows: HashMap<u32, WindowInfo> = HashMap::new();
    assert_eq!(refresh_windows(&mut windows, Ok(vec![])), Ok(false));
    assert_eq!(refresh_windows(&mut windows, Err(QueryError::Unreachable)), Err(QueryError::Unreachable));

    let mut app: Option<String> = None;
    assert_eq!(refresh_current_app(&mut app, Ok("Finder".to_string())), Ok(true));
    assert_eq!(app, Some("Finder".to_string()));
}

#[test]
fn spaces_of_a_display_are_listed_once() {
    let mut state = DaemonState::new();
    let _ = state.update_spaces(Ok(vec![
        space(1, 1, true, vec![]),
        space(2, 2, false, vec![]),
        space(3, 1, false, vec![8]),
        space(4, 2, false, vec![]),
    ]));
    let mut on_first: Vec<u32> = state.get_spaces_for_display(1).iter().map(|s| s.index).collect();
    on_first.sort();
    assert_eq!(on_first, vec![1, 3]);
    let mut on_second: Vec<u32> = state.get_spaces_for_display(2).iter().map(|s| s.index).collect();
    on_second.sort();
    assert_eq!(on_second, vec![2, 4]);
    assert!(state.get_spaces_for_display(3).is_empty());
    let mut all = space_indices(&state.spaces);
    all.sort();
    assert_eq!(all, vec![1, 2, 3, 4]);
}

#[test]
fn no_focused_space_is_none() {
    let mut state = DaemonState::new();
    let _ = state.update_spaces(Ok(vec![space(1, 1, false, vec![]), space(2, 1, false, vec![])]));
    assert!(state.get_focused_space().is_none());
}

#[test]
fn cloned_records_are_equal_in_every_field() {
    let original = space(4, 2, true, vec![1, 2]);
    let copy = original.clone();
    assert_eq!(copy.index, 4);
    assert_eq!(copy.display, 2);
    assert!(copy.has_focus);
    assert_eq!(copy.windows, vec![1, 2]);
    assert_eq!(copy.label, "Desktop 4");
    let first = window(9, "Mail", "Inbox", 3, false);
    let second = first.clone();
    assert_eq!(second.id, 9);
    assert_eq!(second.app, "Mail");
    assert_eq!(second.title, "Inbox");
    assert_eq!(second.space, 3);
    assert_eq!(second.display, 1);
    assert!(!second.has_focus);
}
