use niri_zones::adapter::{
    AdapterEvent, AdapterStep, ApplyCommand, ApplySequence, RestoreCommand, RestoreSequence, RestoreWindowStage,
};
use niri_zones::niri::NiriError;

fn next_apply(sequence: &mut ApplySequence, event: AdapterEvent) -> ApplyCommand {
    match sequence.step(event) {
        AdapterStep::Do(command) => command,
        AdapterStep::Finish(result) => panic!("apply finished early: {result:?}"),
    }
}

#[test]
fn apply_floats_a_tiled_window_when_allowed() {
    let (mut sequence, first) = ApplySequence::start(5, true);
    assert_eq!(first, ApplyCommand::Read);
    assert_eq!(next_apply(&mut sequence, AdapterEvent::Observed(false)), ApplyCommand::Float);
    assert_eq!(next_apply(&mut sequence, AdapterEvent::Done), ApplyCommand::SendPlan);
    assert_eq!(next_apply(&mut sequence, AdapterEvent::Done), ApplyCommand::Settle);
    assert!(matches!(sequence.step(AdapterEvent::Observed(true)), AdapterStep::Finish(Ok(true))));
}

#[test]
fn apply_refuses_a_tiled_window_without_permission() {
    let (mut sequence, _) = ApplySequence::start(5, false);
    assert!(matches!(
        sequence.step(AdapterEvent::Observed(false)),
        AdapterStep::Finish(Err(NiriError::RequiresFloating(5)))
    ));
}

#[test]
fn apply_to_a_floating_window_sends_the_plan_directly() {
    let (mut sequence, _) = ApplySequence::start(9, false);
    assert_eq!(next_apply(&mut sequence, AdapterEvent::Observed(true)), ApplyCommand::SendPlan);
    assert_eq!(next_apply(&mut sequence, AdapterEvent::Done), ApplyCommand::Settle);
    assert!(matches!(sequence.step(AdapterEvent::Observed(true)), AdapterStep::Finish(Ok(false))));
}

#[test]
fn apply_reports_a_window_that_did_not_stay_floating() {
    let (mut sequence, _) = ApplySequence::start(3, false);
    next_apply(&mut sequence, AdapterEvent::Observed(true));
    next_apply(&mut sequence, AdapterEvent::Done);
    assert!(matches!(
        sequence.step(AdapterEvent::Observed(false)),
        AdapterStep::Finish(Err(NiriError::PostconditionFailed(3)))
    ));
}

#[test]
fn apply_stops_at_the_first_failure() {
    let (mut sequence, _) = ApplySequence::start(3, true);
    next_apply(&mut sequence, AdapterEvent::Observed(false));
    assert!(matches!(
        sequence.step(AdapterEvent::Failed(NiriError::FloatingTransitionTimeout(3))),
        AdapterStep::Finish(Err(NiriError::FloatingTransitionTimeout(3)))
    ));
}

fn next_restore(sequence: &mut RestoreSequence<(i32, i32), u32>, event: AdapterEvent) -> RestoreCommand<(i32, i32), u32> {
    match sequence.step(event) {
        AdapterStep::Do(command) => command,
        AdapterStep::Finish(result) => panic!("restore finished early: {result:?}"),
    }
}

#[test]
fn restore_floats_resizes_settles_and_moves_back() {
    let (mut sequence, first) = RestoreSequence::start(1, true, Some((10, 20)), None);
    assert!(matches!(first, RestoreCommand::Read));
    assert!(matches!(next_restore(&mut sequence, AdapterEvent::Observed(false)), RestoreCommand::Float));
    assert!(matches!(next_restore(&mut sequence, AdapterEvent::Done), RestoreCommand::ResizeTo((10, 20))));
    assert!(matches!(next_restore(&mut sequence, AdapterEvent::Done), RestoreCommand::Settle(true)));
    assert!(matches!(next_restore(&mut sequence, AdapterEvent::Observed(true)), RestoreCommand::MoveTo((10, 20))));
    assert!(matches!(next_restore(&mut sequence, AdapterEvent::Done), RestoreCommand::Settle(true)));
    assert!(matches!(sequence.step(AdapterEvent::Observed(true)), AdapterStep::Finish(Ok(()))));
    assert_eq!(sequence.stage, RestoreWindowStage::Finished);
}

#[test]
fn restore_of_floating_baseline_without_geometry_changes_nothing() {
    let (mut sequence, _) = RestoreSequence::<(i32, i32), u32>::start(1, true, None, Some(4));
    assert!(matches!(
        sequence.step(AdapterEvent::Observed(false)),
        AdapterStep::Finish(Err(NiriError::InvalidRestoreGeometry))
    ));
}

#[test]
fn restore_tiles_a_floating_window_then_resizes() {
    let (mut sequence, _) = RestoreSequence::start(1, false, Some((1, 1)), Some(7));
    assert!(matches!(next_restore(&mut sequence, AdapterEvent::Observed(true)), RestoreCommand::Tile));
    assert!(matches!(next_restore(&mut sequence, AdapterEvent::Done), RestoreCommand::ResizeToSize(7)));
    assert!(matches!(next_restore(&mut sequence, AdapterEvent::Done), RestoreCommand::Settle(false)));
    assert!(matches!(sequence.step(AdapterEvent::Observed(false)), AdapterStep::Finish(Ok(()))));
}

#[test]
fn restore_of_tiled_baseline_without_size_fails_after_tiling() {
    let (mut sequence, _) = RestoreSequence::<(i32, i32), u32>::start(1, false, None, None);
    assert!(matches!(next_restore(&mut sequence, AdapterEvent::Observed(true)), RestoreCommand::Tile));
    assert!(matches!(
        sequence.step(AdapterEvent::Done),
        AdapterStep::Finish(Err(NiriError::InvalidRestoreGeometry))
    ));
}

#[test]
fn restore_fails_when_the_window_settles_in_the_wrong_state() {
    let (mut sequence, _) = RestoreSequence::<(i32, i32), u32>::start(6, false, None, Some(3));
    assert!(matches!(next_restore(&mut sequence, AdapterEvent::Observed(false)), RestoreCommand::ResizeToSize(3)));
    assert!(matches!(next_restore(&mut sequence, AdapterEvent::Done), RestoreCommand::Settle(false)));
    assert!(matches!(
        sequence.step(AdapterEvent::Observed(true)),
        AdapterStep::Finish(Err(NiriError::PostconditionFailed(6)))
    ));
}
