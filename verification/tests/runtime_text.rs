use niri_zones::niri::{response_name, unexpected, NiriError, ResponseKind};
use niri_zones::runtime::{
    LoadDecision, RestorePlan, RuntimeState, SnapPlan, WindowFacts, WindowIdentity, WindowRecord,
    STATE_VERSION,
};
use niri_zones::text::{is_blank, text_eq};

#[derive(Debug, Clone, Copy, PartialEq)]
struct Geo(f64, f64, f64, f64);

#[derive(Debug, Clone, Copy, PartialEq)]
struct Size(f64, f64);

fn record(id: u64, app: &str, zone: &str) -> WindowRecord<Geo, Size> {
    WindowRecord {
        id,
        app_id: Some(app.to_string()),
        pid: Some(42),
        baseline_floating: true,
        baseline_geometry: Some(Geo(10.0, 20.0, 500.0, 400.0)),
        baseline_size: Some(Size(500.0, 400.0)),
        current_layout: "halves".to_string(),
        current_zone: zone.to_string(),
        applied_geometry: Geo(6.0, 56.0, 948.0, 1068.0),
    }
}

fn facts(id: u64, app: &str, floating: bool, visual: Option<Geo>) -> WindowFacts<Geo, Size> {
    WindowFacts {
        id,
        app_id: Some(app.to_string()),
        pid: Some(42),
        is_floating: floating,
        visual_geometry: visual,
        tile_size: Size(300.0, 200.0),
    }
}

fn agrees(applied: &Geo, current: &Option<Geo>) -> Result<bool, String> {
    if applied.2 <= 0.0 {
        return Err("bad geometry".to_string());
    }
    Ok(current.is_some_and(|c| (c.0 - applied.0).abs() <= 2.0 && (c.1 - applied.1).abs() <= 2.0))
}

#[test]
fn upsert_updates_zone_and_keeps_baseline() {
    let mut state = RuntimeState::empty("/run/user/1000/niri.test.sock".to_string());
    state.upsert_snap(record(7, "kitty", "1"));
    let mut update = record(7, "other", "2");
    update.baseline_geometry = None;
    update.applied_geometry = Geo(960.0, 0.0, 960.0, 1080.0);
    state.upsert_snap(update);
    assert_eq!(state.windows().len(), 1);
    let r = state.get(7).unwrap();
    assert_eq!(r.current_zone, "2");
    assert_eq!(r.app_id.as_deref(), Some("kitty"));
    assert_eq!(r.baseline_geometry, Some(Geo(10.0, 20.0, 500.0, 400.0)));
    assert_eq!(r.applied_geometry, Geo(960.0, 0.0, 960.0, 1080.0));
    assert!(state.remove(7).is_some());
    assert!(state.get(7).is_none());
}

#[test]
fn load_decision_checks_version_then_session() {
    let state: RuntimeState<Geo, Size> = RuntimeState::from_parts(2, "s".to_string(), vec![]);
    assert_eq!(state.load_decision("s"), LoadDecision::UnsupportedVersion);
    let state: RuntimeState<Geo, Size> = RuntimeState::from_parts(STATE_VERSION, "s".to_string(), vec![]);
    assert_eq!(state.load_decision("t"), LoadDecision::StartFresh);
    assert_eq!(state.load_decision("s"), LoadDecision::Keep);
}

#[test]
fn records_of_closed_or_reused_windows_are_dropped() {
    let mut state = RuntimeState::from_parts(
        STATE_VERSION,
        "s".to_string(),
        vec![record(1, "kitty", "1"), record(2, "foot", "2"), record(3, "mpv", "1")],
    );
    let live = vec![
        WindowIdentity { id: 1, app_id: Some("kitty".to_string()), pid: Some(42) },
        WindowIdentity { id: 2, app_id: Some("firefox".to_string()), pid: Some(42) },
    ];
    assert!(state.retain_live(&live));
    assert_eq!(state.windows().iter().map(|r| r.id).collect::<Vec<_>>(), vec![1]);
    assert!(!state.retain_live(&live));
}

#[test]
fn snap_of_untouched_window_in_same_zone_is_a_no_op() {
    let mut state = RuntimeState::from_parts(STATE_VERSION, "s".to_string(), vec![record(7, "kitty", "1")]);
    let window = facts(7, "kitty", true, Some(Geo(6.5, 55.0, 948.0, 1068.0)));
    let (plan, dirty) = state.plan_snap(&window, "halves", "1", agrees);
    assert!(matches!(plan, Ok(SnapPlan::AlreadySnapped)));
    assert!(!dirty);
    let (plan, _) = state.plan_snap(&window, "halves", "2", agrees);
    match plan {
        Ok(SnapPlan::Apply { baseline_floating, baseline_geometry, baseline_size }) => {
            assert!(baseline_floating);
            assert_eq!(baseline_geometry, Some(Geo(10.0, 20.0, 500.0, 400.0)));
            assert_eq!(baseline_size, Size(500.0, 400.0));
        }
        other => panic!("unexpected plan: {other:?}"),
    }
}

#[test]
fn moved_window_starts_a_new_chain() {
    let mut state = RuntimeState::from_parts(STATE_VERSION, "s".to_string(), vec![record(7, "kitty", "1")]);
    let moved = Geo(300.0, 300.0, 948.0, 1068.0);
    let (plan, dirty) = state.plan_snap(&facts(7, "kitty", true, Some(moved)), "halves", "1", agrees);
    assert!(dirty);
    assert!(state.get(7).is_none());
    match plan {
        Ok(SnapPlan::Apply { baseline_floating, baseline_geometry, baseline_size }) => {
            assert!(baseline_floating);
            assert_eq!(baseline_geometry, Some(moved));
            assert_eq!(baseline_size, Size(300.0, 200.0));
        }
        other => panic!("unexpected plan: {other:?}"),
    }
}

#[test]
fn reused_window_id_discards_the_foreign_record() {
    let mut state = RuntimeState::from_parts(STATE_VERSION, "s".to_string(), vec![record(7, "kitty", "1")]);
    let (plan, dirty) = state.plan_snap(&facts(7, "foot", false, None), "halves", "1", agrees);
    assert!(dirty);
    match plan {
        Ok(SnapPlan::Apply { baseline_floating, baseline_geometry, .. }) => {
            assert!(!baseline_floating);
            assert_eq!(baseline_geometry, None);
        }
        other => panic!("unexpected plan: {other:?}"),
    }
}

#[test]
fn unusable_saved_geometry_is_an_error() {
    let mut broken = record(7, "kitty", "1");
    broken.applied_geometry = Geo(0.0, 0.0, -1.0, 1.0);
    let mut state = RuntimeState::from_parts(STATE_VERSION, "s".to_string(), vec![broken]);
    let (plan, dirty) = state.plan_snap(&facts(7, "kitty", true, None), "halves", "1", agrees);
    assert_eq!(plan.unwrap_err(), "bad geometry");
    assert!(!dirty);
}

#[test]
fn restore_plans_follow_the_saved_record() {
    let mut state: RuntimeState<Geo, Size> = RuntimeState::from_parts(STATE_VERSION, "s".to_string(), vec![]);
    assert!(matches!(state.plan_restore(&facts(7, "kitty", true, None), agrees).0, Ok(RestorePlan::Missing)));

    state.upsert_snap(record(7, "kitty", "1"));
    let (plan, dirty) = state.plan_restore(&facts(7, "kitty", true, Some(Geo(6.0, 56.0, 1.0, 1.0))), agrees);
    assert!(!dirty);
    match plan {
        Ok(RestorePlan::Restore { baseline_floating, baseline_geometry, baseline_size }) => {
            assert!(baseline_floating);
            assert_eq!(baseline_geometry, Some(Geo(10.0, 20.0, 500.0, 400.0)));
            assert_eq!(baseline_size, Some(Size(500.0, 400.0)));
        }
        other => panic!("unexpected plan: {other:?}"),
    }

    let (plan, dirty) = state.plan_restore(&facts(7, "kitty", false, None), agrees);
    assert!(matches!(plan, Ok(RestorePlan::ChangedManually)));
    assert!(dirty);

    state.upsert_snap(record(7, "kitty", "1"));
    let (plan, dirty) = state.plan_restore(&facts(7, "foot", true, None), agrees);
    assert!(matches!(plan, Ok(RestorePlan::DifferentWindow)));
    assert!(dirty);
    assert!(state.get(7).is_none());
}

#[test]
fn blank_and_equal_text() {
    assert!(is_blank(""));
    assert!(is_blank(" \t\n\u{3000}\u{2003}"));
    assert!(!is_blank(" a "));
    assert!(text_eq("zoné", "zoné"));
    assert!(!text_eq("zone", "zoné"));
}

#[test]
fn unexpected_response_names_both_sides() {
    assert_eq!(response_name(ResponseKind::FocusedWindow), "FocusedWindow");
    match unexpected("Handled", ResponseKind::Casts) {
        NiriError::UnexpectedResponse { expected, actual } => {
            assert_eq!(expected, "Handled");
            assert_eq!(actual, "Casts");
        }
        other => panic!("unexpected error: {other:?}"),
    }
}

#[test]
fn niri_errors_describe_themselves() {
    assert_eq!(NiriError::WindowMissing(4071).message(), "window 4071 no longer exists");
    assert_eq!(
        NiriError::GeometrySettleTimeout(9).message(),
        "timed out waiting for window 9 geometry to settle after IPC actions"
    );
    assert_eq!(
        unexpected("Handled", ResponseKind::Windows).message(),
        "unexpected Niri response: expected Handled, received Windows"
    );
    let io = NiriError::Io(std::io::Error::new(std::io::ErrorKind::Other, "socket closed"));
    assert!(io.message().starts_with("could not communicate with Niri: "));
}
