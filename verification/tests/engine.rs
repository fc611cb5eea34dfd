use niri_zones::backend::{take_mock_failure, BackendError, MockFailure, WindowId, WindowSnapshot};
use niri_zones::engine::{
    RestoreTransaction, RestoreConclusion, SnapTransaction, SnapConclusion, Step, WindowCommand, WindowEvent,
};
use niri_zones::layout::ZoneId;
use niri_zones::state::SnapStateStore;

#[derive(Debug, Clone, Copy, PartialEq)]
struct Rect {
    x: f64,
    y: f64,
    width: f64,
    height: f64,
}

fn rect(x: f64, y: f64, width: f64, height: f64) -> Rect {
    Rect { x, y, width, height }
}

#[derive(Debug, Clone, PartialEq)]
enum Op {
    Read(WindowId),
    SetFloating(WindowId, bool),
    Resize(WindowId, f64, f64),
    Move(WindowId, f64, f64),
}

/// A one-window backend that can be told to fail its next operation of a kind and
/// can enforce a minimum size, as application constraints do.
struct Mock {
    window: WindowSnapshot<Rect>,
    operations: Vec<Op>,
    fail_next: Option<MockFailure>,
    minimum: Option<(f64, f64)>,
}

impl Mock {
    fn with_window(window: WindowSnapshot<Rect>) -> Self {
        Mock { window, operations: Vec::new(), fail_next: None, minimum: None }
    }

    fn perform(&mut self, command: WindowCommand<Rect>, tolerance: f64) -> WindowEvent<Rect> {
        let id = self.window.id;
        let (op, kind) = match command {
            WindowCommand::Read(_) => (Op::Read(id), MockFailure::Read),
            WindowCommand::SetFloating(f) => (Op::SetFloating(id, f), MockFailure::SetFloating),
            WindowCommand::Resize(g) => (Op::Resize(id, g.width, g.height), MockFailure::Resize),
            WindowCommand::Move(g) => (Op::Move(id, g.x, g.y), MockFailure::Move),
        };
        self.operations.push(op);
        if let Some(error) = take_mock_failure(&mut self.fail_next, kind) {
            return WindowEvent::Failed(error);
        }
        match command {
            WindowCommand::Read(reference) => {
                let g = self.window.geometry;
                WindowEvent::Observed {
                    window: self.window,
                    position_matches: (g.x - reference.x).abs() <= tolerance
                        && (g.y - reference.y).abs() <= tolerance,
                    size_matches: (g.width - reference.width).abs() <= tolerance
                        && (g.height - reference.height).abs() <= tolerance,
                }
            }
            WindowCommand::SetFloating(f) => {
                self.window.is_floating = f;
                WindowEvent::Done
            }
            WindowCommand::Resize(g) => {
                let (mw, mh) = self.minimum.unwrap_or((0.0, 0.0));
                self.window.geometry.width = g.width.max(mw);
                self.window.geometry.height = g.height.max(mh);
                WindowEvent::Done
            }
            WindowCommand::Move(g) => {
                self.window.geometry.x = g.x;
                self.window.geometry.y = g.y;
                WindowEvent::Done
            }
        }
    }
}

const TOLERANCE: f64 = 1.0;

fn snap(mock: &mut Mock, store: &mut SnapStateStore<Rect>, zone: &str, target: Rect, allow: bool) -> SnapConclusion {
    let (mut tx, first) = SnapTransaction::start(mock.window.id, ZoneId::from(zone), target, allow);
    let mut event = mock.perform(first, TOLERANCE);
    loop {
        match tx.step(store, event) {
            Step::Do(command) => event = mock.perform(command, TOLERANCE),
            Step::Finish(outcome) => return outcome,
        }
    }
}

fn restore(mock: &mut Mock, store: &mut SnapStateStore<Rect>) -> RestoreConclusion<Rect> {
    let (mut tx, first) = RestoreTransaction::start(store, mock.window.id);
    let mut step = first;
    loop {
        match step {
            Step::Do(command) => {
                let event = mock.perform(command, TOLERANCE);
                step = tx.step(store, event);
            }
            Step::Finish(outcome) => return outcome,
        }
    }
}

fn floating() -> WindowSnapshot<Rect> {
    WindowSnapshot { id: 1, geometry: rect(10.0, 20.0, 400.0, 300.0), is_floating: true }
}

#[test]
fn repeated_snap_is_idempotent() {
    let target = rect(0.0, 0.0, 800.0, 900.0);
    let mut mock = Mock::with_window(WindowSnapshot { id: 1, geometry: target, is_floating: true });
    let mut store = SnapStateStore::new();
    let outcome = snap(&mut mock, &mut store, "1", target, false);
    assert!(matches!(outcome, SnapConclusion::Noop));
    assert_eq!(mock.operations, vec![Op::Read(1)]);
}

#[test]
fn move_failure_rolls_back_resize_and_does_not_commit_state() {
    let initial = floating();
    let mut mock = Mock::with_window(initial);
    let mut store = SnapStateStore::new();
    mock.fail_next = Some(MockFailure::Move);
    let target = rect(500.0, 0.0, 900.0, 700.0);
    let outcome = snap(&mut mock, &mut store, "2", target, false);
    assert!(matches!(outcome, SnapConclusion::BackendFailed(_)));
    assert_eq!(mock.window.geometry, initial.geometry);
    assert!(store.get(1).is_none());
}

#[test]
fn tiled_window_requires_explicit_conversion() {
    let mut mock = Mock::with_window(WindowSnapshot {
        id: 1,
        geometry: rect(0.0, 0.0, 600.0, 800.0),
        is_floating: false,
    });
    let mut store = SnapStateStore::new();
    let outcome = snap(&mut mock, &mut store, "1", rect(0.0, 0.0, 500.0, 500.0), false);
    assert!(matches!(outcome, SnapConclusion::RequiresFloating));
}

#[test]
fn size_constraint_is_recorded_as_adjusted_instead_of_rolled_back() {
    let mut mock = Mock::with_window(floating());
    let mut store = SnapStateStore::new();
    mock.minimum = Some((700.0, 500.0));
    let target = rect(0.0, 0.0, 400.0, 300.0);
    let outcome = snap(&mut mock, &mut store, "small", target, false);
    assert!(matches!(outcome, SnapConclusion::AppliedAdjusted));
    let record = store.get(1).unwrap();
    assert_eq!(record.applied_geometry.width, 700.0);
    assert_eq!(record.applied_geometry.height, 500.0);
}

#[test]
fn resize_failure_never_commits_snap_state() {
    let initial = floating();
    let mut mock = Mock::with_window(initial);
    let mut store = SnapStateStore::new();
    mock.fail_next = Some(MockFailure::Resize);
    let target = rect(500.0, 0.0, 900.0, 700.0);
    let outcome = snap(&mut mock, &mut store, "2", target, false);
    assert!(matches!(outcome, SnapConclusion::BackendFailed(_)));
    assert_eq!(mock.window.geometry, initial.geometry);
    assert_eq!(mock.window.is_floating, initial.is_floating);
    assert!(store.get(1).is_none());
}

#[test]
fn failed_snap_after_explicit_float_restores_tiled_state() {
    let initial = WindowSnapshot { id: 1, geometry: rect(0.0, 0.0, 600.0, 800.0), is_floating: false };
    let mut mock = Mock::with_window(initial);
    let mut store = SnapStateStore::new();
    mock.fail_next = Some(MockFailure::Resize);
    let target = rect(10.0, 10.0, 500.0, 500.0);
    let outcome = snap(&mut mock, &mut store, "1", target, true);
    assert!(matches!(outcome, SnapConclusion::BackendFailed(_)));
    assert_eq!(mock.window.geometry, initial.geometry);
    assert!(!mock.window.is_floating);
    assert!(store.get(1).is_none());
}

#[test]
fn restore_returns_original_floating_geometry() {
    let initial = floating();
    let mut mock = Mock::with_window(initial);
    let mut store = SnapStateStore::new();
    let target = rect(500.0, 0.0, 900.0, 700.0);
    assert!(matches!(snap(&mut mock, &mut store, "2", target, false), SnapConclusion::Applied));
    assert!(matches!(restore(&mut mock, &mut store), RestoreConclusion::Restored(_)));
    assert_eq!(mock.window.geometry, initial.geometry);
    assert!(mock.window.is_floating);
    assert!(store.get(1).is_none());
}

#[test]
fn position_mismatch_rolls_back_and_reports_mismatch() {
    // A backend that ignores moves leaves the window away from the target.
    struct Stuck(Mock);
    let initial = floating();
    let mut stuck = Stuck(Mock::with_window(initial));
    let mut store = SnapStateStore::new();
    let target = rect(500.0, 0.0, 900.0, 700.0);
    let (mut tx, first) = SnapTransaction::start(1, ZoneId::from("2"), target, false);
    let mut event = stuck.0.perform(first, TOLERANCE);
    let outcome = loop {
        match tx.step(&mut store, event) {
            Step::Do(WindowCommand::Move(g)) if g == target => {
                stuck.0.operations.push(Op::Move(1, g.x, g.y));
                event = WindowEvent::Done;
            }
            Step::Do(command) => event = stuck.0.perform(command, TOLERANCE),
            Step::Finish(outcome) => break outcome,
        }
    };
    assert!(matches!(outcome, SnapConclusion::Mismatch));
    assert_eq!(stuck.0.window.geometry, initial.geometry);
    assert!(store.get(1).is_none());
}

#[test]
fn failing_rollback_is_reported_as_degraded() {
    let mut mock = Mock::with_window(floating());
    let mut store = SnapStateStore::new();
    let target = rect(500.0, 0.0, 900.0, 700.0);
    let (mut tx, first) = SnapTransaction::start(1, ZoneId::from("2"), target, false);
    let mut event = mock.perform(first, TOLERANCE);
    let mut moves = 0;
    let outcome = loop {
        match tx.step(&mut store, event) {
            Step::Do(WindowCommand::Move(g)) => {
                moves += 1;
                mock.operations.push(Op::Move(1, g.x, g.y));
                event = WindowEvent::Failed(BackendError::new(if moves == 1 { "first move" } else { "rollback move" }));
            }
            Step::Do(command) => event = mock.perform(command, TOLERANCE),
            Step::Finish(outcome) => break outcome,
        }
    };
    match outcome {
        SnapConclusion::Degraded { rollback, .. } => assert_eq!(rollback.message, "rollback move"),
        other => panic!("unexpected outcome: {other:?}"),
    }
    assert!(store.get(1).is_none());
}

#[test]
fn restore_without_record_reports_nothing_to_restore() {
    let store: SnapStateStore<Rect> = SnapStateStore::new();
    let (_, step) = RestoreTransaction::start(&store, 9);
    assert!(matches!(step, Step::Finish(RestoreConclusion::NothingToRestore)));
}

#[test]
fn restore_of_tiled_baseline_returns_window_to_tiling() {
    let initial = WindowSnapshot { id: 1, geometry: rect(0.0, 0.0, 600.0, 800.0), is_floating: false };
    let mut mock = Mock::with_window(initial);
    let mut store = SnapStateStore::new();
    assert!(matches!(
        snap(&mut mock, &mut store, "1", rect(10.0, 10.0, 500.0, 500.0), true),
        SnapConclusion::Applied
    ));
    assert!(mock.window.is_floating);
    assert!(matches!(restore(&mut mock, &mut store), RestoreConclusion::Restored(w) if !w.is_floating));
    assert!(store.get(1).is_none());
}

#[test]
fn mock_failure_is_consumed_once() {
    let mut fail_next = Some(MockFailure::Resize);
    assert!(take_mock_failure(&mut fail_next, MockFailure::Move).is_none());
    assert_eq!(fail_next, Some(MockFailure::Resize));
    let error = take_mock_failure(&mut fail_next, MockFailure::Resize).unwrap();
    assert_eq!(error.message, "mock Resize failure");
    assert_eq!(fail_next, None);
}

#[test]
fn failed_float_conversion_returns_window_to_tiling() {
    let initial = WindowSnapshot { id: 1, geometry: rect(0.0, 0.0, 600.0, 800.0), is_floating: false };
    let mut mock = Mock::with_window(initial);
    let mut store = SnapStateStore::new();
    mock.fail_next = Some(MockFailure::SetFloating);
    let outcome = snap(&mut mock, &mut store, "1", rect(10.0, 10.0, 500.0, 500.0), true);
    assert!(matches!(outcome, SnapConclusion::BackendFailed(_)));
    assert_eq!(mock.operations, vec![Op::Read(1), Op::SetFloating(1, true), Op::SetFloating(1, false)]);
    assert!(!mock.window.is_floating);
    assert!(store.get(1).is_none());
}

#[test]
fn two_snaps_then_restore_round_trip() {
    let initial = floating();
    let mut mock = Mock::with_window(initial);
    let mut store = SnapStateStore::new();
    assert!(matches!(snap(&mut mock, &mut store, "1", rect(0.0, 0.0, 800.0, 900.0), true), SnapConclusion::Applied));
    assert!(matches!(snap(&mut mock, &mut store, "2", rect(800.0, 0.0, 800.0, 900.0), true), SnapConclusion::Applied));
    match restore(&mut mock, &mut store) {
        RestoreConclusion::Restored(window) => {
            assert_eq!(window.geometry, initial.geometry);
            assert!(window.is_floating);
        }
        other => panic!("restore did not complete: {other:?}"),
    }
    assert!(store.get(1).is_none());
    assert!(matches!(restore(&mut mock, &mut store), RestoreConclusion::NothingToRestore));
}
