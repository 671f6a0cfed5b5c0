use spine::monitor::{
    all_complete, clamp_scroll, AppState, MonitorAction, MonitorKey, MonitorState,
};
use spine::status::ManagerStatus;

fn logs_view_on(state: &mut MonitorState) {
    // list -> detail -> logs for the selected unit
    assert!(matches!(
        state.handle_key(MonitorKey::Enter, false, 0, 0),
        MonitorAction::Stay
    ));
    assert!(matches!(
        state.handle_key(MonitorKey::Logs, false, 0, 0),
        MonitorAction::Stay
    ));
}

#[test]
fn navigation_moves_the_selection_within_bounds() {
    let mut m = MonitorState::new(3);
    assert_eq!(m.selected, 0);
    m.handle_key(MonitorKey::Up, false, 0, 0);
    assert_eq!(m.selected, 0);
    m.handle_key(MonitorKey::Down, false, 0, 0);
    assert_eq!(m.selected, 1);
    m.handle_key(MonitorKey::Down, false, 0, 0);
    assert_eq!(m.selected, 2);
    m.handle_key(MonitorKey::Down, false, 0, 0);
    assert_eq!(m.selected, 2);
    m.handle_key(MonitorKey::Up, false, 0, 0);
    assert_eq!(m.selected, 1);
}

#[test]
fn enter_opens_detail_and_back_returns() {
    let mut m = MonitorState::new(2);
    m.handle_key(MonitorKey::Down, false, 0, 0);
    m.handle_key(MonitorKey::Enter, false, 0, 0);
    assert!(matches!(m.state, AppState::DetailView(1)));
    m.handle_key(MonitorKey::Logs, false, 0, 0);
    assert!(matches!(m.state, AppState::LogsView(1)));
    m.handle_key(MonitorKey::Back, false, 0, 0);
    assert!(matches!(m.state, AppState::ManagerList));
}

#[test]
fn quit_works_from_every_screen() {
    let mut m = MonitorState::new(1);
    assert!(matches!(
        m.handle_key(MonitorKey::Quit, false, 0, 0),
        MonitorAction::Quit
    ));
    m.handle_key(MonitorKey::Enter, false, 0, 0);
    assert!(matches!(
        m.handle_key(MonitorKey::Quit, false, 0, 0),
        MonitorAction::Quit
    ));
    m.handle_key(MonitorKey::Logs, false, 0, 0);
    assert!(matches!(
        m.handle_key(MonitorKey::Quit, false, 0, 0),
        MonitorAction::Quit
    ));
}

#[test]
fn scroll_offset_stays_clamped_through_any_sequence() {
    // 100 log lines in a 10-line viewport: the offset may never leave
    // 0..=90, also after repeated jumps to the end.
    let mut m = MonitorState::new(1);
    logs_view_on(&mut m);
    let keys = [
        MonitorKey::End,
        MonitorKey::End,
        MonitorKey::End,
        MonitorKey::Down,
        MonitorKey::PageDown,
        MonitorKey::Up,
        MonitorKey::PageUp,
        MonitorKey::Home,
        MonitorKey::Up,
        MonitorKey::PageDown,
        MonitorKey::PageDown,
        MonitorKey::End,
        MonitorKey::Down,
    ];
    for key in keys {
        m.handle_key(key, false, 100, 10);
        assert!(m.scroll[0] <= 90, "offset {} escaped the clamp", m.scroll[0]);
    }
    assert_eq!(m.scroll[0], 90);
}

#[test]
fn scroll_is_zero_when_the_log_fits() {
    let mut m = MonitorState::new(1);
    logs_view_on(&mut m);
    for key in [MonitorKey::End, MonitorKey::Down, MonitorKey::PageDown] {
        m.handle_key(key, false, 5, 10);
        assert_eq!(m.scroll[0], 0);
    }
}

#[test]
fn scroll_steps_move_line_and_page_wise() {
    let mut m = MonitorState::new(1);
    logs_view_on(&mut m);
    m.handle_key(MonitorKey::Down, false, 100, 10);
    assert_eq!(m.scroll[0], 1);
    m.handle_key(MonitorKey::PageDown, false, 100, 10);
    assert_eq!(m.scroll[0], 11);
    m.handle_key(MonitorKey::Up, false, 100, 10);
    assert_eq!(m.scroll[0], 10);
    m.handle_key(MonitorKey::PageUp, false, 100, 10);
    assert_eq!(m.scroll[0], 0);
    m.handle_key(MonitorKey::PageUp, false, 100, 10);
    assert_eq!(m.scroll[0], 0);
    m.handle_key(MonitorKey::End, false, 100, 10);
    assert_eq!(m.scroll[0], 90);
    m.handle_key(MonitorKey::Home, false, 100, 10);
    assert_eq!(m.scroll[0], 0);
}

#[test]
fn scroll_state_is_kept_per_unit_across_views() {
    let mut m = MonitorState::new(2);
    logs_view_on(&mut m);
    m.handle_key(MonitorKey::Down, false, 100, 10);
    m.handle_key(MonitorKey::Down, false, 100, 10);
    assert_eq!(m.scroll[0], 2);
    m.handle_key(MonitorKey::Back, false, 0, 0);
    m.handle_key(MonitorKey::Down, false, 0, 0);
    logs_view_on(&mut m);
    assert!(matches!(m.state, AppState::LogsView(1)));
    assert_eq!(m.scroll[1], 0);
    // the first unit's offset survived the view switches
    assert_eq!(m.scroll[0], 2);
}

#[test]
fn clamp_scroll_bounds_any_stored_offset() {
    assert_eq!(clamp_scroll(u16::MAX, 100, 10), 90);
    assert_eq!(clamp_scroll(50, 100, 10), 50);
    assert_eq!(clamp_scroll(3, 5, 10), 0);
    assert_eq!(clamp_scroll(0, 0, 0), 0);
    assert_eq!(clamp_scroll(7, 10, 10), 0);
}

#[test]
fn selective_start_marks_the_unit_and_fires_once() {
    let mut m = MonitorState::new(2);
    match m.handle_key(MonitorKey::Start, true, 0, 0) {
        MonitorAction::StartUnit(0) => {}
        other => panic!("expected StartUnit(0), got {:?}", other),
    }
    assert!(m.started[0]);
    assert!(!m.started[1]);
}

#[test]
fn selective_start_on_started_unit_is_a_no_op() {
    let mut m = MonitorState::new(2);
    m.handle_key(MonitorKey::Start, true, 0, 0);
    let started_before = m.started.clone();
    let scroll_before = m.scroll.clone();
    // a second press on the same unit: no new task, no reset
    assert!(matches!(
        m.handle_key(MonitorKey::Start, true, 0, 0),
        MonitorAction::Stay
    ));
    assert_eq!(m.started, started_before);
    assert_eq!(m.scroll, scroll_before);
    assert!(matches!(m.state, AppState::ManagerList));
}

#[test]
fn start_does_nothing_outside_selective_mode() {
    let mut m = MonitorState::new(1);
    assert!(matches!(
        m.handle_key(MonitorKey::Start, false, 0, 0),
        MonitorAction::Stay
    ));
    assert!(!m.started[0]);
}

#[test]
fn mark_all_started_covers_every_unit() {
    let mut m = MonitorState::new(3);
    m.mark_all_started();
    assert!(m.started.iter().all(|b| *b));
}

#[test]
fn all_complete_counts_only_started_units_in_selective_mode() {
    let statuses = vec![
        ManagerStatus::Success(String::from("done")),
        ManagerStatus::Pending,
    ];
    let started = vec![true, false];
    assert!(all_complete(&statuses, &started, true));
    assert!(!all_complete(&statuses, &started, false));
}

#[test]
fn all_complete_needs_every_unit_terminal_in_bulk_mode() {
    let statuses = vec![
        ManagerStatus::Success(String::from("")),
        ManagerStatus::Failed(String::from("boom"), String::from("")),
    ];
    let started = vec![true, true];
    assert!(all_complete(&statuses, &started, false));
    let statuses = vec![
        ManagerStatus::Success(String::from("")),
        ManagerStatus::Running(String::from("Upgrading"), String::from("")),
    ];
    assert!(!all_complete(&statuses, &started, false));
}
