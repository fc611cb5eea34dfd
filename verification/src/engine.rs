//! The snap and restore transactions as state machines. A driver performs each
//! command on a window backend and feeds back what happened; the machines decide
//! the next step and are the only place where snap state is committed.
//!
//! Geometry is a type parameter. Where a decision depends on comparing geometry
//! within the configured tolerance, the driver reports the comparison in the
//! observation: `position_matches` and `size_matches` say whether the observed
//! window agrees with the reference geometry of the read command.

use vstd::prelude::*;
use crate::backend::{BackendError, WindowId, WindowSnapshot};
use crate::layout::ZoneId;
use crate::state::{store_after_success, SnapRecord, SnapStateStore};

verus! {

/// An operation for the driver to perform on the window.
#[derive(Debug, Clone, Copy)]
pub enum WindowCommand<G> {
    /// Read the window and compare it with the given geometry.
    Read(G),
    /// Make the window floating (`true`) or tiled (`false`).
    SetFloating(bool),
    /// Resize the window to the size of the given geometry.
    Resize(G),
    /// Move the window to the position of the given geometry.
    Move(G),
}

/// What the driver saw when it performed the last command.
#[derive(Debug, Clone)]
pub enum WindowEvent<G> {
    /// The window was read; the flags compare it with the read's reference geometry.
    Observed { window: WindowSnapshot<G>, position_matches: bool, size_matches: bool },
    /// A mutating command succeeded.
    Done,
    /// The backend refused the command.
    Failed(BackendError),
}

/// Either another command for the driver, or the end of the transaction.
#[derive(Debug, Clone)]
pub enum Step<G, V> {
    Do(WindowCommand<G>),
    Finish(V),
}

/// What made a snap fail before a rollback was attempted.
#[derive(Debug, Clone)]
pub enum SnapCause {
    Backend(BackendError),
    Mismatch,
}

/// How a snap ended.
#[derive(Debug, Clone)]
pub enum SnapConclusion {
    /// The window already floated at the target: nothing was changed.
    Noop,
    /// The window is tiled and converting it to floating was not allowed.
    RequiresFloating,
    /// The backend applied the target.
    Applied,
    /// The backend kept the target position but adjusted the size.
    AppliedAdjusted,
    /// A backend command failed; any rollback that was needed succeeded.
    BackendFailed(BackendError),
    /// The window did not reach the target position; the rollback succeeded.
    Mismatch,
    /// The snap failed and the rollback failed too.
    Degraded { cause: SnapCause, rollback: BackendError },
}

/// Where a snap transaction stands.
#[derive(Debug, Clone)]
pub enum SnapStage<G> {
    Start,
    AwaitBefore,
    AwaitFloat { before: WindowSnapshot<G> },
    AwaitResize { before: WindowSnapshot<G> },
    AwaitMove { before: WindowSnapshot<G> },
    AwaitReadBack { before: WindowSnapshot<G> },
    RollbackResize { before: WindowSnapshot<G>, cause: SnapCause },
    RollbackMove { before: WindowSnapshot<G>, cause: SnapCause },
    RollbackFloat { before: WindowSnapshot<G>, cause: SnapCause },
    Finished,
}

/// The outcome of a failed snap whose rollback succeeded.
pub open spec fn failure_conclusion(cause: SnapCause) -> SnapConclusion {
    match cause {
        SnapCause::Backend(e) => SnapConclusion::BackendFailed(e),
        SnapCause::Mismatch => SnapConclusion::Mismatch,
    }
}

/// The first rollback step: a floating window gets its old size back (its old
/// position follows), a tiled one is returned to tiling.
pub open spec fn rollback_start<G>(before: WindowSnapshot<G>, cause: SnapCause) -> (SnapStage<G>, Step<G, SnapConclusion>) {
    if before.is_floating {
        (
            SnapStage::RollbackResize { before, cause },
            Step::Do(WindowCommand::Resize(before.geometry)),
        )
    } else {
        (SnapStage::RollbackFloat { before, cause }, Step::Do(WindowCommand::SetFloating(false)))
    }
}

/// The event kind the driver owes in a stage: an observation after a read, a
/// plain outcome after a mutation.
pub open spec fn snap_accepts<G>(stage: SnapStage<G>, event: WindowEvent<G>) -> bool {
    match stage {
        SnapStage::Start | SnapStage::Finished => false,
        SnapStage::AwaitBefore | SnapStage::AwaitReadBack { .. } => !(event is Done),
        _ => !(event is Observed),
    }
}

/// One step of the snap transaction: the next stage and what to do next.
pub open spec fn snap_transition<G>(
    stage: SnapStage<G>,
    target: G,
    allow_float: bool,
    event: WindowEvent<G>,
) -> (SnapStage<G>, Step<G, SnapConclusion>) {
    match stage {
        SnapStage::AwaitBefore => match event {
            WindowEvent::Failed(e) => (SnapStage::Finished, Step::Finish(SnapConclusion::BackendFailed(e))),
            WindowEvent::Observed { window, position_matches, size_matches } => {
                if position_matches && size_matches && window.is_floating {
                    (SnapStage::Finished, Step::Finish(SnapConclusion::Noop))
                } else if !window.is_floating && !allow_float {
                    (SnapStage::Finished, Step::Finish(SnapConclusion::RequiresFloating))
                } else if !window.is_floating {
                    (SnapStage::AwaitFloat { before: window }, Step::Do(WindowCommand::SetFloating(true)))
                } else {
                    (SnapStage::AwaitResize { before: window }, Step::Do(WindowCommand::Resize(target)))
                }
            },
            WindowEvent::Done => (stage, Step::Finish(SnapConclusion::Noop)),
        },
        SnapStage::AwaitFloat { before } => match event {
            WindowEvent::Failed(e) => rollback_start(before, SnapCause::Backend(e)),
            _ => (SnapStage::AwaitResize { before }, Step::Do(WindowCommand::Resize(target))),
        },
        SnapStage::AwaitResize { before } => match event {
            WindowEvent::Failed(e) => rollback_start(before, SnapCause::Backend(e)),
            _ => (SnapStage::AwaitMove { before }, Step::Do(WindowCommand::Move(target))),
        },
        SnapStage::AwaitMove { before } => match event {
            WindowEvent::Failed(e) => rollback_start(before, SnapCause::Backend(e)),
            _ => (SnapStage::AwaitReadBack { before }, Step::Do(WindowCommand::Read(target))),
        },
        SnapStage::AwaitReadBack { before } => match event {
            WindowEvent::Failed(e) => rollback_start(before, SnapCause::Backend(e)),
            WindowEvent::Observed { window, position_matches, size_matches } => {
                if !position_matches {
                    rollback_start(before, SnapCause::Mismatch)
                } else if size_matches {
                    (SnapStage::Finished, Step::Finish(SnapConclusion::Applied))
                } else {
                    (SnapStage::Finished, Step::Finish(SnapConclusion::AppliedAdjusted))
                }
            },
            WindowEvent::Done => (stage, Step::Finish(SnapConclusion::Noop)),
        },
        SnapStage::RollbackResize { before, cause } => match event {
            WindowEvent::Failed(rb) => (
                SnapStage::Finished,
                Step::Finish(SnapConclusion::Degraded { cause, rollback: rb }),
            ),
            _ => (
                SnapStage::RollbackMove { before, cause },
                Step::Do(WindowCommand::Move(before.geometry)),
            ),
        },
        SnapStage::RollbackMove { before, cause } | SnapStage::RollbackFloat { before, cause } => match event {
            WindowEvent::Failed(rb) => (
                SnapStage::Finished,
                Step::Finish(SnapConclusion::Degraded { cause, rollback: rb }),
            ),
            _ => (SnapStage::Finished, Step::Finish(failure_conclusion(cause))),
        },
        _ => (stage, Step::Finish(SnapConclusion::Noop)),
    }
}

/// The step records the snap: the read-back after resize and move found the window
/// at the target position.
pub open spec fn snap_commits<G>(stage: SnapStage<G>, event: WindowEvent<G>) -> bool {
    &&& stage is AwaitReadBack
    &&& event matches WindowEvent::Observed { position_matches, .. } && position_matches
}

/// A snap of one window into one zone.
pub struct SnapTransaction<G> {
    pub id: WindowId,
    pub zone: ZoneId,
    pub target: G,
    pub allow_float: bool,
    pub stage: SnapStage<G>,
}

impl<G: Copy> SnapTransaction<G> {
    /// Opens a snap of window `id` into `zone` at `target`; `allow_float` permits
    /// turning a tiled window into a floating one. The first command reads the window.
    pub fn start(id: WindowId, zone: ZoneId, target: G, allow_float: bool) -> (r: (Self, WindowCommand<G>))
        ensures
            r.0.id == id,
            r.0.zone == zone,
            r.0.target == target,
            r.0.allow_float == allow_float,
            r.0.stage is AwaitBefore,
            r.1 == WindowCommand::Read(target),
    {
        (SnapTransaction { id, zone, target, allow_float, stage: SnapStage::AwaitBefore }, WindowCommand::Read(target))
    }

    fn begin_rollback(&mut self, before: WindowSnapshot<G>, cause: SnapCause) -> (r: Step<G, SnapConclusion>)
        ensures
            (final(self).stage, r) == rollback_start(before, cause),
            final(self).id == old(self).id,
            final(self).zone == old(self).zone,
            final(self).target == old(self).target,
            final(self).allow_float == old(self).allow_float,
    {
        if before.is_floating {
            self.stage = SnapStage::RollbackResize { before, cause };
            Step::Do(WindowCommand::Resize(before.geometry))
        } else {
            self.stage = SnapStage::RollbackFloat { before, cause };
            Step::Do(WindowCommand::SetFloating(false))
        }
    }

    /// Takes what the driver saw and decides the next step. The snap is recorded in
    /// `store` in this step, and only in it, when the window read back after the resize
    /// and the move stands at the target position.
    pub fn step(&mut self, store: &mut SnapStateStore<G>, event: WindowEvent<G>) -> (r: Step<G, SnapConclusion>)
        requires
            snap_accepts(old(self).stage, event),
        ensures
            (final(self).stage, r) == snap_transition(old(self).stage, old(self).target, old(self).allow_float, event),
            final(self).id == old(self).id,
            final(self).zone == old(self).zone,
            final(self).target == old(self).target,
            final(self).allow_float == old(self).allow_float,
            final(store)@ == if snap_commits(old(self).stage, event) {
                store_after_success(
                    old(store)@,
                    old(self).stage->AwaitReadBack_before,
                    old(self).zone,
                    event->Observed_window.geometry,
                )
            } else {
                old(store)@
            },
    {
        let mut stage = SnapStage::Finished;
        std::mem::swap(&mut stage, &mut self.stage);
        match stage {
            SnapStage::AwaitBefore => match event {
                WindowEvent::Failed(e) => Step::Finish(SnapConclusion::BackendFailed(e)),
                WindowEvent::Observed { window, position_matches, size_matches } => {
                    if position_matches && size_matches && window.is_floating {
                        Step::Finish(SnapConclusion::Noop)
                    } else if !window.is_floating && !self.allow_float {
                        Step::Finish(SnapConclusion::RequiresFloating)
                    } else if !window.is_floating {
                        self.stage = SnapStage::AwaitFloat { before: window };
                        Step::Do(WindowCommand::SetFloating(true))
                    } else {
                        self.stage = SnapStage::AwaitResize { before: window };
                        Step::Do(WindowCommand::Resize(self.target))
                    }
                },
                WindowEvent::Done => {
                    self.stage = SnapStage::AwaitBefore;
                    Step::Finish(SnapConclusion::Noop)
                },
            },
            SnapStage::AwaitFloat { before } => match event {
                WindowEvent::Failed(e) => self.begin_rollback(before, SnapCause::Backend(e)),
                _ => {
                    self.stage = SnapStage::AwaitResize { before };
                    Step::Do(WindowCommand::Resize(self.target))
                },
            },
            SnapStage::AwaitResize { before } => match event {
                WindowEvent::Failed(e) => self.begin_rollback(before, SnapCause::Backend(e)),
                _ => {
                    self.stage = SnapStage::AwaitMove { before };
                    Step::Do(WindowCommand::Move(self.target))
                },
            },
            SnapStage::AwaitMove { before } => match event {
                WindowEvent::Failed(e) => self.begin_rollback(before, SnapCause::Backend(e)),
                _ => {
                    self.stage = SnapStage::AwaitReadBack { before };
                    Step::Do(WindowCommand::Read(self.target))
                },
            },
            SnapStage::AwaitReadBack { before } => match event {
                WindowEvent::Failed(e) => self.begin_rollback(before, SnapCause::Backend(e)),
                WindowEvent::Observed { window, position_matches, size_matches } => {
                    if !position_matches {
                        self.begin_rollback(before, SnapCause::Mismatch)
                    } else {
                        store.record_success(before, self.zone.clone(), window.geometry);
                        if size_matches {
                            Step::Finish(SnapConclusion::Applied)
                        } else {
                            Step::Finish(SnapConclusion::AppliedAdjusted)
                        }
                    }
                },
                WindowEvent::Done => {
                    self.stage = SnapStage::AwaitReadBack { before };
                    Step::Finish(SnapConclusion::Noop)
                },
            },
            SnapStage::RollbackResize { before, cause } => match event {
                WindowEvent::Failed(rb) => Step::Finish(SnapConclusion::Degraded { cause, rollback: rb }),
                _ => {
                    self.stage = SnapStage::RollbackMove { before, cause };
                    Step::Do(WindowCommand::Move(before.geometry))
                },
            },
            SnapStage::RollbackMove { before, cause } => match event {
                WindowEvent::Failed(rb) => Step::Finish(SnapConclusion::Degraded { cause, rollback: rb }),
                _ => match cause {
                    SnapCause::Backend(e) => Step::Finish(SnapConclusion::BackendFailed(e)),
                    SnapCause::Mismatch => Step::Finish(SnapConclusion::Mismatch),
                },
            },
            SnapStage::RollbackFloat { before, cause } => match event {
                WindowEvent::Failed(rb) => Step::Finish(SnapConclusion::Degraded { cause, rollback: rb }),
                _ => match cause {
                    SnapCause::Backend(e) => Step::Finish(SnapConclusion::BackendFailed(e)),
                    SnapCause::Mismatch => Step::Finish(SnapConclusion::Mismatch),
                },
            },
            SnapStage::Start => {
                self.stage = SnapStage::Start;
                Step::Finish(SnapConclusion::Noop)
            },
            SnapStage::Finished => Step::Finish(SnapConclusion::Noop),
        }
    }
}

} // verus!
verus! {

/// How a restore ended.
#[derive(Debug, Clone)]
pub enum RestoreConclusion<G> {
    /// The window is back in its baseline state; this is what it looks like now.
    Restored(WindowSnapshot<G>),
    /// The window has no snap record.
    NothingToRestore,
    /// A backend command failed.
    BackendFailed(BackendError),
    /// A floating window did not come back to its baseline geometry.
    Mismatch,
}

/// Where a restore transaction stands. `baseline` is the window as it was before
/// its snap chain began.
#[derive(Debug, Clone)]
pub enum RestoreStage<G> {
    AwaitCurrent { baseline: WindowSnapshot<G> },
    AwaitResize { baseline: WindowSnapshot<G> },
    AwaitMove { baseline: WindowSnapshot<G> },
    AwaitCheck { baseline: WindowSnapshot<G> },
    AwaitUnfloat { baseline: WindowSnapshot<G> },
    AwaitFinal { baseline: WindowSnapshot<G> },
    Finished,
}

/// The event kind the driver owes in a restore stage.
pub open spec fn restore_accepts<G>(stage: RestoreStage<G>, event: WindowEvent<G>) -> bool {
    match stage {
        RestoreStage::Finished => false,
        RestoreStage::AwaitResize { .. } | RestoreStage::AwaitMove { .. }
        | RestoreStage::AwaitUnfloat { .. } => !(event is Observed),
        _ => !(event is Done),
    }
}

/// How a restore of window `id` begins, given the store's records.
pub open spec fn restore_opening<G>(m: Map<WindowId, SnapRecord<G>>, id: WindowId) -> (
    RestoreStage<G>,
    Step<G, RestoreConclusion<G>>,
) {
    if m.contains_key(id) {
        (
            RestoreStage::AwaitCurrent { baseline: m[id].baseline },
            Step::Do(WindowCommand::Read(m[id].baseline.geometry)),
        )
    } else {
        (RestoreStage::Finished, Step::Finish(RestoreConclusion::NothingToRestore))
    }
}

/// One step of the restore transaction. A floating baseline is restored by resize,
/// move and a check read; a tiled baseline by returning the window to tiling when
/// it floats. A final read reports the restored window.
pub open spec fn restore_transition<G>(stage: RestoreStage<G>, event: WindowEvent<G>) -> (
    RestoreStage<G>,
    Step<G, RestoreConclusion<G>>,
) {
    match event {
        WindowEvent::Failed(e) => (RestoreStage::Finished, Step::Finish(RestoreConclusion::BackendFailed(e))),
        WindowEvent::Observed { window, position_matches, size_matches } => match stage {
            RestoreStage::AwaitCurrent { baseline } => if baseline.is_floating {
                (
                    RestoreStage::AwaitResize { baseline },
                    Step::Do(WindowCommand::Resize(baseline.geometry)),
                )
            } else if window.is_floating {
                (RestoreStage::AwaitUnfloat { baseline }, Step::Do(WindowCommand::SetFloating(false)))
            } else {
                (RestoreStage::AwaitFinal { baseline }, Step::Do(WindowCommand::Read(baseline.geometry)))
            },
            RestoreStage::AwaitCheck { baseline } => if position_matches && size_matches {
                (RestoreStage::AwaitFinal { baseline }, Step::Do(WindowCommand::Read(baseline.geometry)))
            } else {
                (RestoreStage::Finished, Step::Finish(RestoreConclusion::Mismatch))
            },
            RestoreStage::AwaitFinal { .. } => (
                RestoreStage::Finished,
                Step::Finish(RestoreConclusion::Restored(window)),
            ),
            _ => (stage, Step::Finish(RestoreConclusion::NothingToRestore)),
        },
        WindowEvent::Done => match stage {
            RestoreStage::AwaitResize { baseline } => (
                RestoreStage::AwaitMove { baseline },
                Step::Do(WindowCommand::Move(baseline.geometry)),
            ),
            RestoreStage::AwaitMove { baseline } => (
                RestoreStage::AwaitCheck { baseline },
                Step::Do(WindowCommand::Read(baseline.geometry)),
            ),
            RestoreStage::AwaitUnfloat { baseline } => (
                RestoreStage::AwaitFinal { baseline },
                Step::Do(WindowCommand::Read(baseline.geometry)),
            ),
            _ => (stage, Step::Finish(RestoreConclusion::NothingToRestore)),
        },
    }
}

/// The step completes the restore: it is the final read.
pub open spec fn restore_commits<G>(stage: RestoreStage<G>, event: WindowEvent<G>) -> bool {
    stage is AwaitFinal && event is Observed
}

/// A restore of one window to the state it had before its snap chain.
pub struct RestoreTransaction<G> {
    pub id: WindowId,
    pub stage: RestoreStage<G>,
}

impl<G: Copy> RestoreTransaction<G> {
    /// Opens a restore of window `id`. Without a snap record it ends at once with
    /// `NothingToRestore`; otherwise the first command reads the window.
    pub fn start(store: &SnapStateStore<G>, id: WindowId) -> (r: (Self, Step<G, RestoreConclusion<G>>))
        ensures
            r.0.id == id,
            (r.0.stage, r.1) == restore_opening(store@, id),
    {
        match store.get(id) {
            None => (
                RestoreTransaction { id, stage: RestoreStage::Finished },
                Step::Finish(RestoreConclusion::NothingToRestore),
            ),
            Some(record) => {
                let baseline = record.baseline;
                (
                    RestoreTransaction { id, stage: RestoreStage::AwaitCurrent { baseline } },
                    Step::Do(WindowCommand::Read(baseline.geometry)),
                )
            },
        }
    }

    /// Takes what the driver saw and decides the next step. The window's record is
    /// dropped from `store` in this step, and only in it, when the restore completes.
    pub fn step(&mut self, store: &mut SnapStateStore<G>, event: WindowEvent<G>) -> (r: Step<
        G,
        RestoreConclusion<G>,
    >)
        requires
            restore_accepts(old(self).stage, event),
        ensures
            (final(self).stage, r) == restore_transition(old(self).stage, event),
            final(self).id == old(self).id,
            final(store)@ == if restore_commits(old(self).stage, event) {
                old(store)@.remove(old(self).id)
            } else {
                old(store)@
            },
    {
        let mut stage = RestoreStage::Finished;
        std::mem::swap(&mut stage, &mut self.stage);
        match event {
            WindowEvent::Failed(e) => Step::Finish(RestoreConclusion::BackendFailed(e)),
            WindowEvent::Observed { window, position_matches, size_matches } => match stage {
                RestoreStage::AwaitCurrent { baseline } => {
                    if baseline.is_floating {
                        self.stage = RestoreStage::AwaitResize { baseline };
                        Step::Do(WindowCommand::Resize(baseline.geometry))
                    } else if window.is_floating {
                        self.stage = RestoreStage::AwaitUnfloat { baseline };
                        Step::Do(WindowCommand::SetFloating(false))
                    } else {
                        self.stage = RestoreStage::AwaitFinal { baseline };
                        Step::Do(WindowCommand::Read(baseline.geometry))
                    }
                },
                RestoreStage::AwaitCheck { baseline } => {
                    if position_matches && size_matches {
                        self.stage = RestoreStage::AwaitFinal { baseline };
                        Step::Do(WindowCommand::Read(baseline.geometry))
                    } else {
                        Step::Finish(RestoreConclusion::Mismatch)
                    }
                },
                RestoreStage::AwaitFinal { .. } => {
                    store.remove(self.id);
                    Step::Finish(RestoreConclusion::Restored(window))
                },
                other => {
                    self.stage = other;
                    Step::Finish(RestoreConclusion::NothingToRestore)
                },
            },
            WindowEvent::Done => match stage {
                RestoreStage::AwaitResize { baseline } => {
                    self.stage = RestoreStage::AwaitMove { baseline };
                    Step::Do(WindowCommand::Move(baseline.geometry))
                },
                RestoreStage::AwaitMove { baseline } => {
                    self.stage = RestoreStage::AwaitCheck { baseline };
                    Step::Do(WindowCommand::Read(baseline.geometry))
                },
                RestoreStage::AwaitUnfloat { baseline } => {
                    self.stage = RestoreStage::AwaitFinal { baseline };
                    Step::Do(WindowCommand::Read(baseline.geometry))
                },
                other => {
                    self.stage = other;
                    Step::Finish(RestoreConclusion::NothingToRestore)
                },
            },
        }
    }
}

} // verus!
verus! {

/// Snap state is committed exactly by the step that ends the snap as applied (or
/// applied with an adjusted size), that step is the read-back after the resize and
/// the move, and it requires the window to stand at the target position. The
/// transaction is over after it.
pub proof fn law_commit_only_after_verified_position<G>(
    stage: SnapStage<G>,
    target: G,
    allow_float: bool,
    event: WindowEvent<G>,
)
    requires
        snap_accepts(stage, event),
    ensures
        snap_commits(stage, event) <==> (snap_transition(stage, target, allow_float, event).1 matches Step::Finish(v)
            && (v is Applied || v is AppliedAdjusted)),
        snap_commits(stage, event) ==> stage is AwaitReadBack && event->Observed_position_matches,
        snap_commits(stage, event) ==> snap_transition(stage, target, allow_float, event).0 is Finished,
{
}

/// Snapping a floating window that already stands at the target is a no-op: the
/// single read is the only command, and nothing is committed.
pub proof fn law_repeated_snap_is_noop<G>(target: G, allow_float: bool, window: WindowSnapshot<G>)
    requires
        window.is_floating,
    ensures
        snap_transition(
            SnapStage::AwaitBefore,
            target,
            allow_float,
            WindowEvent::Observed { window, position_matches: true, size_matches: true },
        ) == (SnapStage::<G>::Finished, Step::<G, SnapConclusion>::Finish(SnapConclusion::Noop)),
        !snap_commits(
            SnapStage::AwaitBefore,
            WindowEvent::Observed { window, position_matches: true, size_matches: true },
        ),
{
}

/// A tiled window is never converted to floating without explicit permission: the
/// snap ends with `RequiresFloating` before any mutating command.
pub proof fn law_tiled_window_requires_permission<G>(
    target: G,
    window: WindowSnapshot<G>,
    position_matches: bool,
    size_matches: bool,
)
    requires
        !window.is_floating,
    ensures
        snap_transition(
            SnapStage::AwaitBefore,
            target,
            false,
            WindowEvent::Observed { window, position_matches, size_matches },
        ) == (SnapStage::<G>::Finished, Step::<G, SnapConclusion>::Finish(SnapConclusion::RequiresFloating)),
{
}

/// When any step after the first read fails (making the window float, the resize,
/// the move or the read-back), the snap rolls back to the captured snapshot on a
/// best-effort basis: a floating window is resized to its old size first, a tiled one
/// is returned to tiling.
pub proof fn law_failed_step_rolls_back<G>(
    stage: SnapStage<G>,
    target: G,
    allow_float: bool,
    e: BackendError,
)
    requires
        stage is AwaitFloat || stage is AwaitResize || stage is AwaitMove || stage is AwaitReadBack,
    ensures
        ({
            let before = match stage {
                SnapStage::AwaitFloat { before } => before,
                SnapStage::AwaitResize { before } => before,
                SnapStage::AwaitMove { before } => before,
                SnapStage::AwaitReadBack { before } => before,
                _ => arbitrary(),
            };
            &&& snap_transition(stage, target, allow_float, WindowEvent::Failed(e)) == rollback_start(
                before,
                SnapCause::Backend(e),
            )
            &&& before.is_floating ==> rollback_start(before, SnapCause::Backend(e)).1 == Step::<
                G,
                SnapConclusion,
            >::Do(WindowCommand::Resize(before.geometry))
            &&& !before.is_floating ==> rollback_start(before, SnapCause::Backend(e)).1 == Step::<
                G,
                SnapConclusion,
            >::Do(WindowCommand::SetFloating(false))
        }),
{
}

/// A floating window whose snap fails is put back where it was: after the resize to
/// its old size, it is moved to its old position, and a rollback that succeeds
/// reports the failure that caused it; a failing rollback reports both.
pub proof fn law_rollback_restores_before<G>(before: WindowSnapshot<G>, target: G, allow_float: bool, cause: SnapCause, rb: BackendError)
    requires
        before.is_floating,
    ensures
        snap_transition(
            SnapStage::RollbackResize { before, cause },
            target,
            allow_float,
            WindowEvent::Done,
        ) == (SnapStage::RollbackMove { before, cause }, Step::<G, SnapConclusion>::Do(WindowCommand::Move(before.geometry))),
        snap_transition(
            SnapStage::RollbackMove { before, cause },
            target,
            allow_float,
            WindowEvent::Done,
        ) == (SnapStage::<G>::Finished, Step::<G, SnapConclusion>::Finish(failure_conclusion(cause))),
        snap_transition(
            SnapStage::RollbackMove { before, cause },
            target,
            allow_float,
            WindowEvent::Failed(rb),
        ) == (SnapStage::<G>::Finished, Step::<G, SnapConclusion>::Finish(SnapConclusion::Degraded { cause, rollback: rb })),
{
}

/// A restore drops the window's record exactly when it ends with `Restored`.
pub proof fn law_restore_drops_record_only_when_restored<G>(stage: RestoreStage<G>, event: WindowEvent<G>)
    requires
        restore_accepts(stage, event),
    ensures
        restore_commits(stage, event) <==> restore_transition(stage, event).1 matches Step::Finish(
            RestoreConclusion::Restored(_),
        ),
{
}

/// After a chain of snaps of one window, restore aims at the geometry the window had
/// before the first snap of the chain, however many zones it visited since.
pub proof fn law_restore_returns_to_first_baseline<G>(
    m: Map<WindowId, SnapRecord<G>>,
    first: WindowSnapshot<G>,
    first_zone: ZoneId,
    first_applied: G,
    later: Seq<(WindowSnapshot<G>, ZoneId, G)>,
)
    requires
        !m.contains_key(first.id),
        forall|k: int| 0 <= k < later.len() ==> (#[trigger] later[k]).0.id == first.id,
    ensures
        restore_opening(
            crate::state::store_after_successes(
                store_after_success(m, first, first_zone, first_applied),
                later,
            ),
            first.id,
        ) == (
            RestoreStage::AwaitCurrent { baseline: first },
            Step::<G, RestoreConclusion<G>>::Do(WindowCommand::Read(first.geometry)),
        ),
{
    crate::state::law_snap_chain_keeps_first_baseline(m, first, first_zone, first_applied, later);
}

/// Restoring a floating baseline sets its size, then its position, then checks that
/// the window matches it; a mismatch keeps the record and is reported.
pub proof fn law_restore_floating_baseline<G>(
    baseline: WindowSnapshot<G>,
    current: WindowSnapshot<G>,
    pm: bool,
    sm: bool,
    seen: WindowSnapshot<G>,
)
    requires
        baseline.is_floating,
    ensures
        restore_transition(
            RestoreStage::AwaitCurrent { baseline },
            WindowEvent::Observed { window: current, position_matches: pm, size_matches: sm },
        ).1 == Step::<G, RestoreConclusion<G>>::Do(WindowCommand::Resize(baseline.geometry)),
        restore_transition(RestoreStage::AwaitResize { baseline }, WindowEvent::Done).1 == Step::<
            G,
            RestoreConclusion<G>,
        >::Do(WindowCommand::Move(baseline.geometry)),
        !(pm && sm) ==> restore_transition(
            RestoreStage::AwaitCheck { baseline },
            WindowEvent::Observed { window: seen, position_matches: pm, size_matches: sm },
        ).1 == Step::<G, RestoreConclusion<G>>::Finish(RestoreConclusion::Mismatch),
        !restore_commits(
            RestoreStage::AwaitCheck { baseline },
            WindowEvent::Observed { window: seen, position_matches: pm, size_matches: sm },
        ),
{
}

/// A read-back that finds the target position but another size is an applied snap
/// with an adjusted size (a size constraint of the application), not a failure: the
/// snap is recorded and nothing is rolled back.
pub proof fn law_size_only_mismatch_is_adjusted<G>(
    before: WindowSnapshot<G>,
    target: G,
    allow_float: bool,
    window: WindowSnapshot<G>,
)
    ensures
        snap_transition(
            SnapStage::AwaitReadBack { before },
            target,
            allow_float,
            WindowEvent::Observed { window, position_matches: true, size_matches: false },
        ) == (SnapStage::<G>::Finished, Step::<G, SnapConclusion>::Finish(SnapConclusion::AppliedAdjusted)),
        snap_commits(
            SnapStage::AwaitReadBack { before },
            WindowEvent::Observed { window, position_matches: true, size_matches: false },
        ),
{
}

/// A tiled window whose conversion to floating fails is returned to tiling; the
/// snap then reports the failure, or both failures when returning to tiling fails too.
pub proof fn law_failed_float_returns_to_tiling<G>(
    before: WindowSnapshot<G>,
    target: G,
    allow_float: bool,
    e: BackendError,
    rb: BackendError,
)
    requires
        !before.is_floating,
    ensures
        snap_transition(SnapStage::AwaitFloat { before }, target, allow_float, WindowEvent::Failed(e)) == (
            SnapStage::RollbackFloat { before, cause: SnapCause::Backend(e) },
            Step::<G, SnapConclusion>::Do(WindowCommand::SetFloating(false)),
        ),
        snap_transition(
            SnapStage::RollbackFloat { before, cause: SnapCause::Backend(e) },
            target,
            allow_float,
            WindowEvent::Done,
        ) == (SnapStage::<G>::Finished, Step::<G, SnapConclusion>::Finish(SnapConclusion::BackendFailed(e))),
        snap_transition(
            SnapStage::RollbackFloat { before, cause: SnapCause::Backend(e) },
            target,
            allow_float,
            WindowEvent::Failed(rb),
        ) == (SnapStage::<G>::Finished, Step::<G, SnapConclusion>::Finish(
            SnapConclusion::Degraded { cause: SnapCause::Backend(e), rollback: rb },
        )),
{
}

/// The commands a snap issues from `stage` when the driver reports `events` in turn,
/// and its conclusion if it ends within them. The run stops at an event the stage
/// does not take.
pub open spec fn snap_run<G>(
    stage: SnapStage<G>,
    target: G,
    allow_float: bool,
    events: Seq<WindowEvent<G>>,
) -> (Seq<WindowCommand<G>>, Option<SnapConclusion>)
    decreases events.len(),
{
    if events.len() == 0 || !snap_accepts(stage, events[0]) {
        (Seq::empty(), None)
    } else {
        let (next, step) = snap_transition(stage, target, allow_float, events[0]);
        match step {
            Step::Do(command) => {
                let (rest, end) = snap_run(next, target, allow_float, events.drop_first());
                (seq![command] + rest, end)
            },
            Step::Finish(v) => (Seq::empty(), Some(v)),
        }
    }
}

/// The forward commands of a snap after its first read: make a tiled window float,
/// then resize, move and read back at the target.
pub open spec fn forward_plan<G>(tiled: bool, target: G) -> Seq<WindowCommand<G>> {
    let rest = seq![WindowCommand::Resize(target), WindowCommand::Move(target), WindowCommand::Read(target)];
    if tiled {
        seq![WindowCommand::<G>::SetFloating(true)] + rest
    } else {
        rest
    }
}

/// The first command of a rollback to `before`.
pub open spec fn starts_rollback<G>(command: WindowCommand<G>, before: WindowSnapshot<G>) -> bool {
    if before.is_floating {
        command == WindowCommand::Resize(before.geometry)
    } else {
        command == WindowCommand::<G>::SetFloating(false)
    }
}

/// The forward stage awaiting the outcome of `forward_plan(..)[i]`, with its snapshot.
pub open spec fn awaited_forward<G>(stage: SnapStage<G>) -> Option<(WindowSnapshot<G>, int)> {
    match stage {
        SnapStage::AwaitFloat { before } => if before.is_floating {
            None
        } else {
            Some((before, 0))
        },
        SnapStage::AwaitResize { before } => Some((before, if before.is_floating { 0int } else { 1int })),
        SnapStage::AwaitMove { before } => Some((before, if before.is_floating { 1int } else { 2int })),
        SnapStage::AwaitReadBack { before } => Some((before, if before.is_floating { 2int } else { 3int })),
        _ => None,
    }
}

proof fn lemma_forward_run<G>(stage: SnapStage<G>, target: G, allow_float: bool, events: Seq<WindowEvent<G>>) -> (k: int)
    requires
        awaited_forward(stage) is Some,
    ensures
        ({
            let (before, i) = awaited_forward(stage)->0;
            let plan = forward_plan(!before.is_floating, target);
            let cs = snap_run(stage, target, allow_float, events).0;
            &&& 0 <= k <= cs.len()
            &&& i + 1 + k <= plan.len()
            &&& cs.take(k) == plan.subrange(i + 1, i + 1 + k)
            &&& k < cs.len() ==> starts_rollback(cs[k], before)
        }),
    decreases events.len(),
{
    let (before, i) = awaited_forward(stage)->0;
    let plan = forward_plan(!before.is_floating, target);
    let cs = snap_run(stage, target, allow_float, events).0;
    if events.len() == 0 || !snap_accepts(stage, events[0]) {
        0
    } else {
        let (next, step) = snap_transition(stage, target, allow_float, events[0]);
        if awaited_forward(next) matches Some((b, _)) && b == before {
            let k1 = lemma_forward_run(next, target, allow_float, events.drop_first());
            let rest = snap_run(next, target, allow_float, events.drop_first()).0;
            let i2 = match awaited_forward(next) {
                Some((_, j)) => j,
                None => 0,
            };
            assert(i2 == i + 1);
            assert(step->Do_0 == plan[i + 1]);
            assert(cs == seq![step->Do_0] + rest);
            assert forall|j: int| 0 <= j < k1 + 1 implies #[trigger] cs.take(k1 + 1)[j] == plan.subrange(
                i + 1,
                i + 2 + k1,
            )[j] by {
                if j > 0 {
                    assert(rest.take(k1)[j - 1] == plan.subrange(i2 + 1, i2 + 1 + k1)[j - 1]);
                }
            }
            assert(cs.take(k1 + 1) =~= plan.subrange(i + 1, i + 2 + k1));
            k1 + 1
        } else {
            0
        }
    }
}

/// The order of a snap's commands: after the first read, which shows the window as
/// it was, the snap issues a prefix of "make it float (only if it is tiled), resize,
/// move, read back", and whatever follows that prefix starts a rollback to the
/// window as it was. Without permission to float, no command makes a window float.
pub proof fn law_snap_command_order<G>(target: G, allow_float: bool, events: Seq<WindowEvent<G>>)
    ensures
        ({
            let cs = snap_run(SnapStage::AwaitBefore, target, allow_float, events).0;
            &&& !allow_float ==> !cs.contains(WindowCommand::<G>::SetFloating(true))
            &&& cs.len() > 0 ==> events[0] is Observed && exists|k: int|
                0 <= k <= cs.len() && k <= forward_plan(!events[0]->Observed_window.is_floating, target).len()
                    && #[trigger] cs.take(k) == forward_plan(!events[0]->Observed_window.is_floating, target).take(k)
                    && (k < cs.len() ==> starts_rollback(cs[k], events[0]->Observed_window))
        }),
{
    let cs = snap_run(SnapStage::AwaitBefore, target, allow_float, events).0;
    if !allow_float {
        lemma_never_floats(SnapStage::AwaitBefore, target, events);
    }
    if cs.len() > 0 {
        let window = events[0]->Observed_window;
        let plan = forward_plan(!window.is_floating, target);
        let (next, step) = snap_transition(SnapStage::AwaitBefore, target, allow_float, events[0]);
        let k1 = lemma_forward_run(next, target, allow_float, events.drop_first());
        let rest = snap_run(next, target, allow_float, events.drop_first()).0;
        assert(cs == seq![step->Do_0] + rest);
        assert(step->Do_0 == plan[0]);
        assert forall|j: int| 0 <= j < k1 + 1 implies #[trigger] cs.take(k1 + 1)[j] == plan.take(k1 + 1)[j] by {
            if j > 0 {
                assert(rest.take(k1)[j - 1] == plan.subrange(1, 1 + k1)[j - 1]);
            }
        }
        assert(cs.take(k1 + 1) =~= plan.take(k1 + 1));
    }
}

proof fn lemma_never_floats<G>(stage: SnapStage<G>, target: G, events: Seq<WindowEvent<G>>)
    ensures
        !snap_run(stage, target, false, events).0.contains(WindowCommand::<G>::SetFloating(true)),
    decreases events.len(),
{
    let cs = snap_run(stage, target, false, events).0;
    if events.len() > 0 && snap_accepts(stage, events[0]) {
        let (next, step) = snap_transition(stage, target, false, events[0]);
        if step is Do {
            lemma_never_floats(next, target, events.drop_first());
            let rest = snap_run(next, target, false, events.drop_first()).0;
            assert(cs == seq![step->Do_0] + rest);
            assert forall|j: int| 0 <= j < cs.len() implies cs[j] != WindowCommand::<G>::SetFloating(true) by {
                if j > 0 {
                    assert(cs[j] == rest[j - 1]);
                }
            }
        }
    }
}

/// The commands a restore issues from `stage` when the driver reports `events` in
/// turn, and its conclusion if it ends within them.
pub open spec fn restore_run<G>(stage: RestoreStage<G>, events: Seq<WindowEvent<G>>) -> (
    Seq<WindowCommand<G>>,
    Option<RestoreConclusion<G>>,
)
    decreases events.len(),
{
    if events.len() == 0 || !restore_accepts(stage, events[0]) {
        (Seq::empty(), None)
    } else {
        let (next, step) = restore_transition(stage, events[0]);
        match step {
            Step::Do(command) => {
                let (rest, end) = restore_run(next, events.drop_first());
                (seq![command] + rest, end)
            },
            Step::Finish(v) => (Seq::empty(), Some(v)),
        }
    }
}

/// Snap, snap again, restore: after a chain of successful snaps of one window, a
/// restore whose commands all succeed reads the window, puts it back into the state
/// it had before the first snap (resized and moved to its old geometry when it
/// floated, returned to tiling when it was tiled), ends `Restored`, and drops the
/// window's record, so a second restore finds nothing to restore.
pub proof fn law_snap_then_restore_round_trip<G>(
    m: Map<WindowId, SnapRecord<G>>,
    first: WindowSnapshot<G>,
    first_zone: ZoneId,
    first_applied: G,
    later: Seq<(WindowSnapshot<G>, ZoneId, G)>,
    current: WindowSnapshot<G>,
    checked: WindowSnapshot<G>,
    restored: WindowSnapshot<G>,
    pm: bool,
    sm: bool,
)
    requires
        !m.contains_key(first.id),
        forall|k: int| 0 <= k < later.len() ==> (#[trigger] later[k]).0.id == first.id,
    ensures
        ({
            let snapped = crate::state::store_after_successes(
                store_after_success(m, first, first_zone, first_applied),
                later,
            );
            let (stage, step) = restore_opening(snapped, first.id);
            let seen = WindowEvent::Observed { window: current, position_matches: pm, size_matches: sm };
            let check = WindowEvent::Observed { window: checked, position_matches: true, size_matches: true };
            let last = WindowEvent::Observed { window: restored, position_matches: pm, size_matches: sm };
            &&& step == Step::<G, RestoreConclusion<G>>::Do(WindowCommand::Read(first.geometry))
            &&& first.is_floating ==> restore_run(stage, seq![seen, WindowEvent::Done, WindowEvent::Done, check, last])
                == (
                seq![
                    WindowCommand::Resize(first.geometry),
                    WindowCommand::Move(first.geometry),
                    WindowCommand::Read(first.geometry),
                    WindowCommand::Read(first.geometry),
                ],
                Some(RestoreConclusion::Restored(restored)),
            )
            &&& !first.is_floating && current.is_floating ==> restore_run(stage, seq![seen, WindowEvent::Done, last])
                == (
                seq![WindowCommand::SetFloating(false), WindowCommand::Read(first.geometry)],
                Some(RestoreConclusion::Restored(restored)),
            )
            &&& !first.is_floating && !current.is_floating ==> restore_run(stage, seq![seen, last]) == (
                seq![WindowCommand::Read(first.geometry)],
                Some(RestoreConclusion::Restored(restored)),
            )
            &&& restore_commits(RestoreStage::AwaitFinal { baseline: first }, last)
            &&& restore_opening(snapped.remove(first.id), first.id).1 == Step::<G, RestoreConclusion<G>>::Finish(
                RestoreConclusion::NothingToRestore,
            )
        }),
{
    law_restore_returns_to_first_baseline(m, first, first_zone, first_applied, later);
    let snapped = crate::state::store_after_successes(
        store_after_success(m, first, first_zone, first_applied),
        later,
    );
    let (stage, step) = restore_opening(snapped, first.id);
    let seen = WindowEvent::Observed { window: current, position_matches: pm, size_matches: sm };
    let check = WindowEvent::Observed { window: checked, position_matches: true, size_matches: true };
    let last = WindowEvent::Observed { window: restored, position_matches: pm, size_matches: sm };
    reveal_with_fuel(restore_run, 6);
    if first.is_floating {
        let evs = seq![seen, WindowEvent::Done, WindowEvent::Done, check, last];
        assert(evs.drop_first() =~= seq![WindowEvent::Done, WindowEvent::Done, check, last]);
        assert(evs.drop_first().drop_first() =~= seq![WindowEvent::Done, check, last]);
        assert(evs.drop_first().drop_first().drop_first() =~= seq![check, last]);
        assert(evs.drop_first().drop_first().drop_first().drop_first() =~= seq![last]);
        assert(seq![last].drop_first() =~= Seq::<WindowEvent<G>>::empty());
    } else if current.is_floating {
        let evs = seq![seen, WindowEvent::Done, last];
        assert(evs.drop_first() =~= seq![WindowEvent::Done, last]);
        assert(evs.drop_first().drop_first() =~= seq![last]);
        assert(seq![last].drop_first() =~= Seq::<WindowEvent<G>>::empty());
    } else {
        let evs = seq![seen, last];
        assert(evs.drop_first() =~= seq![last]);
        assert(seq![last].drop_first() =~= Seq::<WindowEvent<G>>::empty());
    }
}

/// The window's floating state after a backend carries out `command` exactly.
pub open spec fn floating_after<G>(floating: bool, command: WindowCommand<G>) -> bool {
    match command {
        WindowCommand::SetFloating(f) => f,
        _ => floating,
    }
}

/// The driver's reports during a restore from `stage` agree with a backend that
/// carries out every command exactly: each window it reads floats exactly when the
/// commands so far leave it floating (`floating` is that state now).
pub open spec fn restore_reports_exact<G>(stage: RestoreStage<G>, floating: bool, events: Seq<WindowEvent<G>>) -> bool
    decreases events.len(),
{
    if events.len() == 0 || !restore_accepts(stage, events[0]) {
        true
    } else {
        &&& (events[0] matches WindowEvent::Observed { window, .. } ==> window.is_floating == floating)
        &&& match restore_transition(stage, events[0]) {
            (next, Step::Do(command)) => restore_reports_exact(
                next,
                floating_after(floating, command),
                events.drop_first(),
            ),
            _ => true,
        }
    }
}

/// The baseline a restore stage works towards.
pub open spec fn restore_baseline<G>(stage: RestoreStage<G>) -> Option<WindowSnapshot<G>> {
    match stage {
        RestoreStage::AwaitCurrent { baseline } => Some(baseline),
        RestoreStage::AwaitResize { baseline } => Some(baseline),
        RestoreStage::AwaitMove { baseline } => Some(baseline),
        RestoreStage::AwaitCheck { baseline } => Some(baseline),
        RestoreStage::AwaitUnfloat { baseline } => Some(baseline),
        RestoreStage::AwaitFinal { baseline } => Some(baseline),
        RestoreStage::Finished => None,
    }
}

/// The stages a restore can reach: only a floating baseline is resized, moved and
/// checked, and only a tiled one is returned to tiling.
pub open spec fn restore_stage_consistent<G>(stage: RestoreStage<G>) -> bool {
    match stage {
        RestoreStage::AwaitResize { baseline } | RestoreStage::AwaitMove { baseline }
        | RestoreStage::AwaitCheck { baseline } => baseline.is_floating,
        RestoreStage::AwaitUnfloat { baseline } => !baseline.is_floating,
        _ => true,
    }
}

/// How the floating state of the window relates to the baseline in each stage of a
/// restore, with an exact backend.
pub open spec fn restore_floating_inv<G>(stage: RestoreStage<G>, floating: bool) -> bool {
    match stage {
        RestoreStage::AwaitCurrent { baseline } => baseline.is_floating ==> floating,
        RestoreStage::AwaitResize { baseline } | RestoreStage::AwaitMove { baseline }
        | RestoreStage::AwaitCheck { baseline } => baseline.is_floating && floating,
        RestoreStage::AwaitUnfloat { baseline } => !baseline.is_floating && !floating,
        RestoreStage::AwaitFinal { baseline } => floating == baseline.is_floating,
        RestoreStage::Finished => true,
    }
}

proof fn lemma_restore_floating<G>(stage: RestoreStage<G>, floating: bool, events: Seq<WindowEvent<G>>)
    requires
        restore_floating_inv(stage, floating),
        restore_reports_exact(stage, floating, events),
    ensures
        restore_run(stage, events).1 matches Some(RestoreConclusion::Restored(w)) ==> (restore_baseline(stage)
            matches Some(b) && w.is_floating == b.is_floating),
    decreases events.len(),
{
    if events.len() > 0 && restore_accepts(stage, events[0]) {
        let (next, step) = restore_transition(stage, events[0]);
        if let Step::Do(command) = step {
            lemma_restore_floating(next, floating_after(floating, command), events.drop_first());
        }
    }
}

/// The restore half of the round trip with a backend that carries out every command
/// exactly. When the window floats as the snaps left it (or its baseline was tiled),
/// a restore that ends `Restored` hands back a window that floats exactly when its
/// baseline did. A floating baseline is only reported restored after the read that
/// follows the resize and move found the window at the baseline geometry, position
/// and size. Every stage a restore reaches is consistent with its baseline.
pub proof fn law_restore_reaches_baseline_state<G>(
    m: Map<WindowId, SnapRecord<G>>,
    id: WindowId,
    floating_now: bool,
    events: Seq<WindowEvent<G>>,
    stage: RestoreStage<G>,
    event: WindowEvent<G>,
)
    requires
        m.contains_key(id),
        m[id].baseline.is_floating ==> floating_now,
        restore_reports_exact(restore_opening(m, id).0, floating_now, events),
        restore_stage_consistent(stage),
        restore_accepts(stage, event),
    ensures
        restore_stage_consistent(restore_opening(m, id).0),
        restore_stage_consistent(restore_transition(stage, event).0),
        restore_run(restore_opening(m, id).0, events).1 matches Some(RestoreConclusion::Restored(w))
            ==> w.is_floating == m[id].baseline.is_floating,
        match restore_transition(stage, event).0 {
            RestoreStage::AwaitFinal { baseline } => baseline.is_floating ==> {
                &&& stage matches RestoreStage::AwaitCheck { baseline: b } && b == baseline
                &&& event matches WindowEvent::Observed { position_matches, size_matches, .. }
                    && position_matches && size_matches
            },
            _ => true,
        },
{
    lemma_restore_floating(restore_opening(m, id).0, floating_now, events);
}

/// The first read ends a snap as a no-op only when the window floats and both its
/// position and its size agree with the target. A floating window at the target
/// position but with another size is resized to the target; a floating window
/// elsewhere is resized and then moved.
pub proof fn law_noop_needs_position_and_size<G>(
    target: G,
    allow_float: bool,
    window: WindowSnapshot<G>,
    position_matches: bool,
    size_matches: bool,
)
    ensures
        snap_transition(
            SnapStage::AwaitBefore,
            target,
            allow_float,
            WindowEvent::Observed { window, position_matches, size_matches },
        ).1 == Step::<G, SnapConclusion>::Finish(SnapConclusion::Noop) ==> window.is_floating && position_matches
            && size_matches,
        window.is_floating && !(position_matches && size_matches) ==> snap_transition(
            SnapStage::AwaitBefore,
            target,
            allow_float,
            WindowEvent::Observed { window, position_matches, size_matches },
        ) == (SnapStage::AwaitResize { before: window }, Step::<G, SnapConclusion>::Do(WindowCommand::Resize(target))),
{
}

} // verus!
