use focusgo_capture::geometry::{
    resolve_cursor_monitor, resolve_cursor_monitor_with_provider, resolve_monitor_at_point,
    resolve_monitor_bounds_with_provider, select_monitor, CursorPositionProvider, MonitorBounds,
    MonitorProvider,
};

struct MockMonitorProvider {
    result: Result<Vec<MonitorBounds>, String>,
}

impl MonitorProvider for MockMonitorProvider {
    fn list_monitors(&self) -> Result<Vec<MonitorBounds>, String> {
        self.result.clone()
    }
}

struct MockCursorPositionProvider {
    result: Result<(i32, i32), String>,
}

impl CursorPositionProvider for MockCursorPositionProvider {
    fn get_position(&self) -> Result<(i32, i32), String> {
        self.result.clone()
    }
}

fn monitor(id: u32, x: i32, y: i32, width: u32, height: u32, is_primary: bool) -> MonitorBounds {
    MonitorBounds { monitor_id: Some(id), x, y, width, height, is_primary }
}

fn two_side_by_side() -> Vec<MonitorBounds> {
    vec![monitor(1, 0, 0, 1920, 1080, true), monitor(2, 1920, 0, 1920, 1080, false)]
}

#[test]
fn returns_primary_monitor_by_default() {
    let provider = MockMonitorProvider { result: Ok(two_side_by_side()) };

    let bounds = resolve_monitor_bounds_with_provider(&provider, None)
        .expect("monitor resolution should pass");
    assert_eq!(bounds.monitor_id, Some(1));
}

#[test]
fn returns_selected_monitor_when_id_is_specified() {
    let provider = MockMonitorProvider { result: Ok(vec![monitor(2, 1920, 0, 1920, 1080, false)]) };

    let bounds = resolve_monitor_bounds_with_provider(&provider, Some(2))
        .expect("monitor resolution should pass");
    assert_eq!(bounds.monitor_id, Some(2));
}

#[test]
fn fails_when_monitor_is_missing() {
    let provider = MockMonitorProvider { result: Ok(vec![]) };

    let error = resolve_monitor_bounds_with_provider(&provider, None)
        .expect_err("resolution should fail");
    assert_eq!(error, "No monitor detected");
}

#[test]
fn resolves_monitor_from_cursor_point() {
    let monitor_provider = MockMonitorProvider { result: Ok(two_side_by_side()) };
    let cursor_provider = MockCursorPositionProvider { result: Ok((2300, 140)) };

    let bounds = resolve_cursor_monitor_with_provider(&monitor_provider, &cursor_provider)
        .expect("cursor monitor resolution should pass");
    assert_eq!(bounds.monitor_id, Some(2));
}

#[test]
fn falls_back_to_primary_when_cursor_is_outside_monitor_range() {
    let monitor_provider = MockMonitorProvider { result: Ok(two_side_by_side()) };
    let cursor_provider = MockCursorPositionProvider { result: Ok((9999, 9999)) };

    let bounds = resolve_cursor_monitor_with_provider(&monitor_provider, &cursor_provider)
        .expect("cursor monitor resolution should pass");
    assert_eq!(bounds.monitor_id, Some(1));
}

#[test]
fn default_selection_takes_first_primary() {
    let monitors = vec![
        monitor(5, 0, 0, 800, 600, false),
        monitor(6, 800, 0, 800, 600, true),
        monitor(7, 1600, 0, 800, 600, true),
    ];
    assert_eq!(select_monitor(&monitors, None).unwrap().monitor_id, Some(6));
}

#[test]
fn default_selection_falls_back_to_first_without_primary() {
    let monitors = vec![monitor(5, 0, 0, 800, 600, false), monitor(6, 800, 0, 800, 600, false)];
    assert_eq!(select_monitor(&monitors, None).unwrap().monitor_id, Some(5));
}

#[test]
fn unknown_monitor_id_is_reported() {
    let error = select_monitor(&two_side_by_side(), Some(42)).expect_err("id 42 is absent");
    assert_eq!(error, "Monitor 42 was not found");
}

#[test]
fn empty_topology_fails_for_every_query() {
    assert_eq!(select_monitor(&[], Some(3)).unwrap_err(), "No monitor detected");
    assert_eq!(resolve_cursor_monitor(&[], 0, 0).unwrap_err(), "No monitor detected");
}

#[test]
fn cursor_monitor_is_not_read_without_monitors() {
    let monitor_provider = MockMonitorProvider { result: Ok(vec![]) };
    let cursor_provider = MockCursorPositionProvider { result: Err("cursor-failure".to_string()) };
    let error = resolve_cursor_monitor_with_provider(&monitor_provider, &cursor_provider)
        .expect_err("no monitors");
    assert_eq!(error, "No monitor detected");
}

#[test]
fn provider_errors_pass_through() {
    let provider = MockMonitorProvider { result: Err("enumeration-failure".to_string()) };
    assert_eq!(
        resolve_monitor_bounds_with_provider(&provider, None).unwrap_err(),
        "enumeration-failure"
    );
}

#[test]
fn monitor_edges_are_half_open() {
    let monitors = two_side_by_side();
    assert_eq!(resolve_monitor_at_point(&monitors, 1919, 1079).unwrap().monitor_id, Some(1));
    assert_eq!(resolve_monitor_at_point(&monitors, 1920, 0).unwrap().monitor_id, Some(2));
    assert_eq!(resolve_monitor_at_point(&monitors, 3840, 0), None);
    assert_eq!(resolve_monitor_at_point(&monitors, 0, 1080), None);
    assert_eq!(resolve_monitor_at_point(&monitors, -1, 0), None);
}

#[test]
fn wide_monitor_covers_its_whole_extent() {
    let monitors = vec![monitor(9, i32::MAX - 10, 0, 100, 10, false)];
    assert_eq!(resolve_monitor_at_point(&monitors, i32::MAX, 5).unwrap().monitor_id, Some(9));

    let very_wide = vec![monitor(3, 0, 0, 1u32 << 31, 10, false)];
    assert_eq!(resolve_monitor_at_point(&very_wide, 0, 0).unwrap().monitor_id, Some(3));
    assert_eq!(resolve_monitor_at_point(&very_wide, i32::MAX, 9).unwrap().monitor_id, Some(3));
}

#[test]
fn later_monitor_holding_cursor_beats_primary() {
    let monitors = vec![monitor(1, -2000, 0, 1000, 1000, true), monitor(2, 0, 0, 1u32 << 31, 1000, false)];
    assert_eq!(resolve_cursor_monitor(&monitors, 5, 0).unwrap().monitor_id, Some(2));
}
