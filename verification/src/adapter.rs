//! The decisions of the Niri adapter while it applies a zone to a window or
//! restores a window's baseline. Each is a machine: the adapter performs the
//! command (an IPC request, a wait for the compositor) and reports what happened;
//! the machine picks the next command or ends the sequence.
//!
//! Geometry (`G`) and sizes (`S`) are type parameters: the adapter converts them to
//! Niri's fixed sizes and offsets when it performs a command.

use vstd::prelude::*;
use crate::niri::NiriError;

verus! {

/// What the adapter does next while applying a zone.
#[derive(Debug, Clone, Copy, PartialEq, Eq, Structural)]
pub enum ApplyCommand {
    /// Read the window.
    Read,
    /// Move the window to floating and wait until it floats.
    Float,
    /// Send the zone's resize and move actions.
    SendPlan,
    /// Wait until the window floats with a layout that has stopped changing.
    Settle,
}

/// What the adapter does next while restoring a window.
#[derive(Debug, Clone, Copy)]
pub enum RestoreCommand<G, S> {
    /// Read the window.
    Read,
    /// Move the window to floating and wait until it floats.
    Float,
    /// Move the window to tiling and wait until it is tiled.
    Tile,
    /// Give the window the fixed width and height of the geometry.
    ResizeTo(G),
    /// Give the window the fixed width and height.
    ResizeToSize(S),
    /// Move the floating window by the offset from its settled position to the
    /// geometry's position.
    MoveTo(G),
    /// Wait until the window is floating (`true`) or tiled (`false`) with a layout
    /// that has stopped changing.
    Settle(bool),
}

/// What the adapter saw when it performed a command.
#[derive(Debug)]
pub enum AdapterEvent {
    /// The window was read, or has settled; the flag says whether it floats.
    Observed(bool),
    /// The command went through.
    Done,
    /// The command failed.
    Failed(NiriError),
}

/// Either another command, or the end of the sequence with its result.
#[derive(Debug)]
pub enum AdapterStep<C, V> {
    Do(C),
    Finish(Result<V, NiriError>),
}

/// The event kind owed after each command: an observation after a read or a wait
/// for the layout to settle, a plain outcome after anything else.
pub open spec fn observes_apply(command: ApplyCommand) -> bool {
    command is Read || command is Settle
}

/// Where applying a zone stands. `converted` records whether the window was moved
/// from tiling to floating on the way.
#[derive(Debug, Clone, Copy, PartialEq, Eq, Structural)]
pub enum ApplyStage {
    AwaitBefore,
    AwaitFloat,
    AwaitPlan { converted: bool },
    AwaitSettle { converted: bool },
    Finished,
}

/// The event kinds each stage of applying a zone takes.
pub open spec fn apply_accepts(stage: ApplyStage, event: AdapterEvent) -> bool {
    match stage {
        ApplyStage::AwaitBefore | ApplyStage::AwaitSettle { .. } => !(event is Done),
        ApplyStage::AwaitFloat | ApplyStage::AwaitPlan { .. } => !(event is Observed),
        ApplyStage::Finished => false,
    }
}

/// One step of applying a zone to window `id`. The result of a finished sequence
/// says whether the window was converted from tiling to floating.
pub open spec fn apply_transition(
    stage: ApplyStage,
    id: u64,
    allow_float: bool,
    event: AdapterEvent,
) -> (ApplyStage, AdapterStep<ApplyCommand, bool>) {
    match event {
        AdapterEvent::Failed(e) => (ApplyStage::Finished, AdapterStep::Finish(Err(e))),
        AdapterEvent::Observed(floating) => match stage {
            ApplyStage::AwaitBefore => if floating {
                (ApplyStage::AwaitPlan { converted: false }, AdapterStep::Do(ApplyCommand::SendPlan))
            } else if allow_float {
                (ApplyStage::AwaitFloat, AdapterStep::Do(ApplyCommand::Float))
            } else {
                (ApplyStage::Finished, AdapterStep::Finish(Err(NiriError::RequiresFloating(id))))
            },
            ApplyStage::AwaitSettle { converted } => if floating {
                (ApplyStage::Finished, AdapterStep::Finish(Ok(converted)))
            } else {
                (ApplyStage::Finished, AdapterStep::Finish(Err(NiriError::PostconditionFailed(id))))
            },
            _ => (stage, AdapterStep::Finish(Ok(false))),
        },
        AdapterEvent::Done => match stage {
            ApplyStage::AwaitFloat => (
                ApplyStage::AwaitPlan { converted: true },
                AdapterStep::Do(ApplyCommand::SendPlan),
            ),
            ApplyStage::AwaitPlan { converted } => (
                ApplyStage::AwaitSettle { converted },
                AdapterStep::Do(ApplyCommand::Settle),
            ),
            _ => (stage, AdapterStep::Finish(Ok(false))),
        },
    }
}

/// Applying a zone to one window. The target and the gap are checked, and the
/// zone's actions built, before the sequence starts.
pub struct ApplySequence {
    pub id: u64,
    pub allow_float: bool,
    pub stage: ApplyStage,
}

impl ApplySequence {
    /// Starts applying a zone to window `id`; `allow_float` permits converting a
    /// tiled window to floating. The first command reads the window.
    pub fn start(id: u64, allow_float: bool) -> (r: (Self, ApplyCommand))
        ensures
            r.0.id == id,
            r.0.allow_float == allow_float,
            r.0.stage == ApplyStage::AwaitBefore,
            r.1 == ApplyCommand::Read,
    {
        (ApplySequence { id, allow_float, stage: ApplyStage::AwaitBefore }, ApplyCommand::Read)
    }

    /// Takes what the adapter saw and decides the next step.
    pub fn step(&mut self, event: AdapterEvent) -> (r: AdapterStep<ApplyCommand, bool>)
        requires
            apply_accepts(old(self).stage, event),
        ensures
            (final(self).stage, r) == apply_transition(old(self).stage, old(self).id, old(self).allow_float, event),
            final(self).id == old(self).id,
            final(self).allow_float == old(self).allow_float,
    {
        let stage = self.stage;
        match event {
            AdapterEvent::Failed(e) => {
                self.stage = ApplyStage::Finished;
                AdapterStep::Finish(Err(e))
            },
            AdapterEvent::Observed(floating) => match stage {
                ApplyStage::AwaitBefore => if floating {
                    self.stage = ApplyStage::AwaitPlan { converted: false };
                    AdapterStep::Do(ApplyCommand::SendPlan)
                } else if self.allow_float {
                    self.stage = ApplyStage::AwaitFloat;
                    AdapterStep::Do(ApplyCommand::Float)
                } else {
                    self.stage = ApplyStage::Finished;
                    AdapterStep::Finish(Err(NiriError::RequiresFloating(self.id)))
                },
                ApplyStage::AwaitSettle { converted } => {
                    self.stage = ApplyStage::Finished;
                    if floating {
                        AdapterStep::Finish(Ok(converted))
                    } else {
                        AdapterStep::Finish(Err(NiriError::PostconditionFailed(self.id)))
                    }
                },
                _ => AdapterStep::Finish(Ok(false)),
            },
            AdapterEvent::Done => match stage {
                ApplyStage::AwaitFloat => {
                    self.stage = ApplyStage::AwaitPlan { converted: true };
                    AdapterStep::Do(ApplyCommand::SendPlan)
                },
                ApplyStage::AwaitPlan { converted } => {
                    self.stage = ApplyStage::AwaitSettle { converted };
                    AdapterStep::Do(ApplyCommand::Settle)
                },
                _ => AdapterStep::Finish(Ok(false)),
            },
        }
    }
}

/// Where restoring a window stands.
#[derive(Debug, Clone, Copy, PartialEq, Eq, Structural)]
pub enum RestoreWindowStage {
    AwaitCurrent,
    AwaitFloat,
    AwaitTile,
    AwaitResize,
    AwaitResized,
    AwaitMove,
    AwaitFinal,
    Finished,
}

/// The event kinds each stage of a restore takes.
pub open spec fn restore_window_accepts(stage: RestoreWindowStage, event: AdapterEvent) -> bool {
    match stage {
        RestoreWindowStage::AwaitCurrent
        | RestoreWindowStage::AwaitResized
        | RestoreWindowStage::AwaitFinal => !(event is Done),
        RestoreWindowStage::Finished => false,
        _ => !(event is Observed),
    }
}

/// Resizing a window back to a tiled baseline, which needs the baseline size.
pub open spec fn resize_tiled<G, S>(size: Option<S>) -> (RestoreWindowStage, AdapterStep<RestoreCommand<G, S>, ()>) {
    match size {
        Some(s) => (RestoreWindowStage::AwaitResize, AdapterStep::Do(RestoreCommand::ResizeToSize(s))),
        None => (RestoreWindowStage::Finished, AdapterStep::Finish(Err(NiriError::InvalidRestoreGeometry))),
    }
}

/// Resizing a window back to a floating baseline, which needs the baseline geometry.
pub open spec fn resize_floating<G, S>(geometry: Option<G>) -> (RestoreWindowStage, AdapterStep<RestoreCommand<G, S>, ()>) {
    match geometry {
        Some(g) => (RestoreWindowStage::AwaitResize, AdapterStep::Do(RestoreCommand::ResizeTo(g))),
        None => (RestoreWindowStage::Finished, AdapterStep::Finish(Err(NiriError::InvalidRestoreGeometry))),
    }
}

/// One step of restoring window `id` to its baseline: floating at `geometry`, or
/// tiled with `size`, as `baseline_floating` says. The restore succeeds only when the
/// settled window floats exactly when the baseline did.
pub open spec fn restore_window_transition<G, S>(
    stage: RestoreWindowStage,
    id: u64,
    baseline_floating: bool,
    geometry: Option<G>,
    size: Option<S>,
    event: AdapterEvent,
) -> (RestoreWindowStage, AdapterStep<RestoreCommand<G, S>, ()>) {
    match event {
        AdapterEvent::Failed(e) => (RestoreWindowStage::Finished, AdapterStep::Finish(Err(e))),
        AdapterEvent::Observed(floating) => match stage {
            RestoreWindowStage::AwaitCurrent => if baseline_floating {
                if geometry is Some && !floating {
                    (RestoreWindowStage::AwaitFloat, AdapterStep::Do(RestoreCommand::Float))
                } else {
                    resize_floating(geometry)
                }
            } else if floating {
                (RestoreWindowStage::AwaitTile, AdapterStep::Do(RestoreCommand::Tile))
            } else {
                resize_tiled(size)
            },
            RestoreWindowStage::AwaitResized => match geometry {
                Some(g) => (RestoreWindowStage::AwaitMove, AdapterStep::Do(RestoreCommand::MoveTo(g))),
                None => (
                    RestoreWindowStage::Finished,
                    AdapterStep::Finish(Err(NiriError::InvalidRestoreGeometry)),
                ),
            },
            RestoreWindowStage::AwaitFinal => if floating == baseline_floating {
                (RestoreWindowStage::Finished, AdapterStep::Finish(Ok(())))
            } else {
                (RestoreWindowStage::Finished, AdapterStep::Finish(Err(NiriError::PostconditionFailed(id))))
            },
            _ => (stage, AdapterStep::Finish(Ok(()))),
        },
        AdapterEvent::Done => match stage {
            RestoreWindowStage::AwaitFloat => resize_floating(geometry),
            RestoreWindowStage::AwaitTile => resize_tiled(size),
            RestoreWindowStage::AwaitResize => if baseline_floating {
                (RestoreWindowStage::AwaitResized, AdapterStep::Do(RestoreCommand::Settle(true)))
            } else {
                (RestoreWindowStage::AwaitFinal, AdapterStep::Do(RestoreCommand::Settle(false)))
            },
            RestoreWindowStage::AwaitMove => (
                RestoreWindowStage::AwaitFinal,
                AdapterStep::Do(RestoreCommand::Settle(true)),
            ),
            _ => (stage, AdapterStep::Finish(Ok(()))),
        },
    }
}

/// The stages a restore can be in, given its baseline: only a floating baseline
/// floats, settles before a move and moves; only a tiled one is tiled.
pub open spec fn restore_stage_fits(stage: RestoreWindowStage, baseline_floating: bool) -> bool {
    match stage {
        RestoreWindowStage::AwaitFloat
        | RestoreWindowStage::AwaitResized
        | RestoreWindowStage::AwaitMove => baseline_floating,
        RestoreWindowStage::AwaitTile => !baseline_floating,
        _ => true,
    }
}

/// Restoring one window to the baseline recorded before its first snap.
pub struct RestoreSequence<G, S> {
    pub id: u64,
    pub baseline_floating: bool,
    pub geometry: Option<G>,
    pub size: Option<S>,
    pub stage: RestoreWindowStage,
}

impl<G: Copy, S: Copy> RestoreSequence<G, S> {
    /// Starts restoring window `id` to a floating baseline at `geometry`, or to a
    /// tiled one with `size`. The first command reads the window.
    pub fn start(id: u64, baseline_floating: bool, geometry: Option<G>, size: Option<S>) -> (r: (
        Self,
        RestoreCommand<G, S>,
    ))
        ensures
            r.0.id == id,
            r.0.baseline_floating == baseline_floating,
            r.0.geometry == geometry,
            r.0.size == size,
            r.0.stage == RestoreWindowStage::AwaitCurrent,
            r.1 == RestoreCommand::<G, S>::Read,
    {
        (
            RestoreSequence { id, baseline_floating, geometry, size, stage: RestoreWindowStage::AwaitCurrent },
            RestoreCommand::Read,
        )
    }

    fn resize_floating(&mut self) -> (r: AdapterStep<RestoreCommand<G, S>, ()>)
        ensures
            (final(self).stage, r) == resize_floating::<G, S>(old(self).geometry),
            final(self).id == old(self).id,
            final(self).baseline_floating == old(self).baseline_floating,
            final(self).geometry == old(self).geometry,
            final(self).size == old(self).size,
    {
        match self.geometry {
            Some(g) => {
                self.stage = RestoreWindowStage::AwaitResize;
                AdapterStep::Do(RestoreCommand::ResizeTo(g))
            },
            None => {
                self.stage = RestoreWindowStage::Finished;
                AdapterStep::Finish(Err(NiriError::InvalidRestoreGeometry))
            },
        }
    }

    fn resize_tiled(&mut self) -> (r: AdapterStep<RestoreCommand<G, S>, ()>)
        ensures
            (final(self).stage, r) == resize_tiled::<G, S>(old(self).size),
            final(self).id == old(self).id,
            final(self).baseline_floating == old(self).baseline_floating,
            final(self).geometry == old(self).geometry,
            final(self).size == old(self).size,
    {
        match self.size {
            Some(s) => {
                self.stage = RestoreWindowStage::AwaitResize;
                AdapterStep::Do(RestoreCommand::ResizeToSize(s))
            },
            None => {
                self.stage = RestoreWindowStage::Finished;
                AdapterStep::Finish(Err(NiriError::InvalidRestoreGeometry))
            },
        }
    }

    /// Takes what the adapter saw and decides the next step.
    pub fn step(&mut self, event: AdapterEvent) -> (r: AdapterStep<RestoreCommand<G, S>, ()>)
        requires
            restore_window_accepts(old(self).stage, event),
        ensures
            (final(self).stage, r) == restore_window_transition(
                old(self).stage,
                old(self).id,
                old(self).baseline_floating,
                old(self).geometry,
                old(self).size,
                event,
            ),
            final(self).id == old(self).id,
            final(self).baseline_floating == old(self).baseline_floating,
            final(self).geometry == old(self).geometry,
            final(self).size == old(self).size,
    {
        let stage = self.stage;
        match event {
            AdapterEvent::Failed(e) => {
                self.stage = RestoreWindowStage::Finished;
                AdapterStep::Finish(Err(e))
            },
            AdapterEvent::Observed(floating) => match stage {
                RestoreWindowStage::AwaitCurrent => if self.baseline_floating {
                    if self.geometry.is_some() && !floating {
                        self.stage = RestoreWindowStage::AwaitFloat;
                        AdapterStep::Do(RestoreCommand::Float)
                    } else {
                        self.resize_floating()
                    }
                } else if floating {
                    self.stage = RestoreWindowStage::AwaitTile;
                    AdapterStep::Do(RestoreCommand::Tile)
                } else {
                    self.resize_tiled()
                },
                RestoreWindowStage::AwaitResized => match self.geometry {
                    Some(g) => {
                        self.stage = RestoreWindowStage::AwaitMove;
                        AdapterStep::Do(RestoreCommand::MoveTo(g))
                    },
                    None => {
                        self.stage = RestoreWindowStage::Finished;
                        AdapterStep::Finish(Err(NiriError::InvalidRestoreGeometry))
                    },
                },
                RestoreWindowStage::AwaitFinal => {
                    self.stage = RestoreWindowStage::Finished;
                    if floating == self.baseline_floating {
                        AdapterStep::Finish(Ok(()))
                    } else {
                        AdapterStep::Finish(Err(NiriError::PostconditionFailed(self.id)))
                    }
                },
                _ => AdapterStep::Finish(Ok(())),
            },
            AdapterEvent::Done => match stage {
                RestoreWindowStage::AwaitFloat => self.resize_floating(),
                RestoreWindowStage::AwaitTile => self.resize_tiled(),
                RestoreWindowStage::AwaitResize => if self.baseline_floating {
                    self.stage = RestoreWindowStage::AwaitResized;
                    AdapterStep::Do(RestoreCommand::Settle(true))
                } else {
                    self.stage = RestoreWindowStage::AwaitFinal;
                    AdapterStep::Do(RestoreCommand::Settle(false))
                },
                RestoreWindowStage::AwaitMove => {
                    self.stage = RestoreWindowStage::AwaitFinal;
                    AdapterStep::Do(RestoreCommand::Settle(true))
                },
                _ => AdapterStep::Finish(Ok(())),
            },
        }
    }
}

/// A failed command ends either sequence at once with that command's error.
pub proof fn law_failure_ends_sequence<G, S>(
    apply_stage: ApplyStage,
    id: u64,
    allow_float: bool,
    restore_stage: RestoreWindowStage,
    baseline_floating: bool,
    geometry: Option<G>,
    size: Option<S>,
    e: NiriError,
)
    ensures
        apply_transition(apply_stage, id, allow_float, AdapterEvent::Failed(e)) == (
            ApplyStage::Finished,
            AdapterStep::<ApplyCommand, bool>::Finish(Err(e)),
        ),
        restore_window_transition(restore_stage, id, baseline_floating, geometry, size, AdapterEvent::Failed(e))
            == (RestoreWindowStage::Finished, AdapterStep::<RestoreCommand<G, S>, ()>::Finish(Err(e))),
{
}

/// A tiled window is only converted to floating with permission: without it,
/// applying a zone ends right after the first read, before any change.
pub proof fn law_apply_tiled_needs_permission(id: u64, allow_float: bool)
    ensures
        !allow_float ==> apply_transition(ApplyStage::AwaitBefore, id, allow_float, AdapterEvent::Observed(false))
            == (ApplyStage::Finished, AdapterStep::<ApplyCommand, bool>::Finish(
            Err(NiriError::RequiresFloating(id)),
        )),
        allow_float ==> apply_transition(ApplyStage::AwaitBefore, id, allow_float, AdapterEvent::Observed(false))
            == (ApplyStage::AwaitFloat, AdapterStep::<ApplyCommand, bool>::Do(ApplyCommand::Float)),
{
}

/// Applying a zone succeeds only when the settled window was seen floating, and it
/// reports a conversion only when the window was floated on the way.
pub proof fn law_apply_success_means_floating(stage: ApplyStage, id: u64, allow_float: bool, event: AdapterEvent)
    requires
        apply_accepts(stage, event),
    ensures
        apply_transition(stage, id, allow_float, event).1 matches AdapterStep::Finish(Ok(converted)) ==> {
            &&& stage matches ApplyStage::AwaitSettle { converted: c } && c == converted
            &&& event == AdapterEvent::Observed(true)
        },
        apply_transition(stage, id, allow_float, event).0 matches ApplyStage::AwaitPlan { converted } ==> (
        converted <==> stage is AwaitFloat),
{
}

/// A restore follows its baseline: a floating baseline is never tiled or given a
/// bare size; a tiled one is never floated, moved or given a geometry, and every
/// wait for the layout to settle awaits the baseline's floating state.
pub proof fn law_restore_follows_baseline<G, S>(
    stage: RestoreWindowStage,
    id: u64,
    baseline_floating: bool,
    geometry: Option<G>,
    size: Option<S>,
    event: AdapterEvent,
)
    requires
        restore_stage_fits(stage, baseline_floating),
        restore_window_accepts(stage, event),
    ensures
        ({
            let (next, step) = restore_window_transition(stage, id, baseline_floating, geometry, size, event);
            &&& restore_stage_fits(next, baseline_floating)
            &&& step matches AdapterStep::Do(command) ==> match command {
                RestoreCommand::Float | RestoreCommand::ResizeTo(_) | RestoreCommand::MoveTo(_) => baseline_floating,
                RestoreCommand::Tile | RestoreCommand::ResizeToSize(_) => !baseline_floating,
                RestoreCommand::Settle(floating) => floating == baseline_floating,
                RestoreCommand::Read => false,
            }
        }),
{
}

/// A floating baseline without its geometry is refused as soon as the window has
/// been read, before anything is changed; a tiled baseline without its size is
/// refused once the window is tiled.
pub proof fn law_missing_baseline_is_refused<G, S>(id: u64, floating_now: bool, size: Option<S>, geometry: Option<G>)
    ensures
        restore_window_transition(
            RestoreWindowStage::AwaitCurrent,
            id,
            true,
            None::<G>,
            size,
            AdapterEvent::Observed(floating_now),
        ) == (RestoreWindowStage::Finished, AdapterStep::<RestoreCommand<G, S>, ()>::Finish(
            Err(NiriError::InvalidRestoreGeometry),
        )),
        restore_window_transition(
            RestoreWindowStage::AwaitCurrent,
            id,
            false,
            geometry,
            None::<S>,
            AdapterEvent::Observed(false),
        ) == (RestoreWindowStage::Finished, AdapterStep::<RestoreCommand<G, S>, ()>::Finish(
            Err(NiriError::InvalidRestoreGeometry),
        )),
        restore_window_transition(
            RestoreWindowStage::AwaitTile,
            id,
            false,
            geometry,
            None::<S>,
            AdapterEvent::Done,
        ) == (RestoreWindowStage::Finished, AdapterStep::<RestoreCommand<G, S>, ()>::Finish(
            Err(NiriError::InvalidRestoreGeometry),
        )),
{
}

/// A restore succeeds only when the settled window floats exactly when its
/// baseline did; otherwise it reports that the postcondition failed.
pub proof fn law_restore_ends_in_baseline_state<G, S>(
    id: u64,
    baseline_floating: bool,
    geometry: Option<G>,
    size: Option<S>,
    floating: bool,
)
    ensures
        restore_window_transition(
            RestoreWindowStage::AwaitFinal,
            id,
            baseline_floating,
            geometry,
            size,
            AdapterEvent::Observed(floating),
        ) == if floating == baseline_floating {
            (RestoreWindowStage::Finished, AdapterStep::<RestoreCommand<G, S>, ()>::Finish(Ok(())))
        } else {
            (
                RestoreWindowStage::Finished,
                AdapterStep::<RestoreCommand<G, S>, ()>::Finish(Err(NiriError::PostconditionFailed(id))),
            )
        },
{
}

/// The commands a restore issues from `stage` when the adapter reports `events` in
/// turn, and its result if it ends within them. The run stops at an event the stage
/// does not take.
pub open spec fn restore_window_run<G, S>(
    stage: RestoreWindowStage,
    id: u64,
    baseline_floating: bool,
    geometry: Option<G>,
    size: Option<S>,
    events: Seq<AdapterEvent>,
) -> (Seq<RestoreCommand<G, S>>, Option<Result<(), NiriError>>)
    decreases events.len(),
{
    if events.len() == 0 || !restore_window_accepts(stage, events[0]) {
        (Seq::empty(), None)
    } else {
        match restore_window_transition(stage, id, baseline_floating, geometry, size, events[0]) {
            (next, AdapterStep::Do(command)) => {
                let (rest, end) = restore_window_run(next, id, baseline_floating, geometry, size, events.drop_first());
                (seq![command] + rest, end)
            },
            (_, AdapterStep::Finish(result)) => (Seq::empty(), Some(result)),
        }
    }
}

/// The commands that bring a floating window back to the geometry `g`: resize to
/// its size, let it settle, move it by the remaining offset, let it settle again.
pub open spec fn floating_restore_commands<G, S>(g: G) -> Seq<RestoreCommand<G, S>> {
    seq![
        RestoreCommand::ResizeTo(g),
        RestoreCommand::Settle(true),
        RestoreCommand::MoveTo(g),
        RestoreCommand::Settle(true),
    ]
}

/// What is left of `floating_restore_commands(g)` when a floating restore awaits
/// the outcome in `stage`.
pub open spec fn floating_restore_rest<G, S>(stage: RestoreWindowStage, g: G) -> Seq<RestoreCommand<G, S>> {
    match stage {
        RestoreWindowStage::AwaitFloat => floating_restore_commands(g),
        RestoreWindowStage::AwaitResize => floating_restore_commands(g).skip(1),
        RestoreWindowStage::AwaitResized => floating_restore_commands(g).skip(2),
        RestoreWindowStage::AwaitMove => floating_restore_commands(g).skip(3),
        _ => Seq::empty(),
    }
}

proof fn lemma_floating_restore_rest<G, S>(
    stage: RestoreWindowStage,
    id: u64,
    g: G,
    size: Option<S>,
    events: Seq<AdapterEvent>,
)
    requires
        stage is AwaitFloat || stage is AwaitResize || stage is AwaitResized || stage is AwaitMove
            || stage is AwaitFinal,
    ensures
        restore_window_run(stage, id, true, Some(g), size, events).1 matches Some(Ok(_)) ==> restore_window_run(
            stage,
            id,
            true,
            Some(g),
            size,
            events,
        ).0 == floating_restore_rest::<G, S>(stage, g),
    decreases events.len(),
{
    let cmds = floating_restore_commands::<G, S>(g);
    if events.len() > 0 && restore_window_accepts(stage, events[0]) {
        let (next, step) = restore_window_transition(stage, id, true, Some(g), size, events[0]);
        if step is Do {
            lemma_floating_restore_rest(next, id, g, size, events.drop_first());
            assert(cmds.skip(1) =~= seq![cmds[1]] + cmds.skip(2));
            assert(cmds.skip(2) =~= seq![cmds[2]] + cmds.skip(3));
            assert(cmds.skip(3) =~= seq![cmds[3]] + Seq::<RestoreCommand<G, S>>::empty());
            assert(cmds =~= seq![cmds[0]] + cmds.skip(1));
        }
    }
}

/// Restoring a floating baseline with a known geometry: every restore that succeeds
/// resizes the window to the baseline size before it moves it, whether or not the
/// window floated when it was first read. Its commands after that read are exactly
/// resize, settle, move, settle, preceded by making the window float when it was
/// tiled.
pub proof fn law_floating_restore_resizes_before_move<G, S>(
    id: u64,
    g: G,
    size: Option<S>,
    events: Seq<AdapterEvent>,
)
    ensures
        ({
            let (cmds, end) = restore_window_run(RestoreWindowStage::AwaitCurrent, id, true, Some(g), size, events);
            end matches Some(Ok(_)) ==> {
                &&& events[0] matches AdapterEvent::Observed(floating) && cmds == if floating {
                    floating_restore_commands::<G, S>(g)
                } else {
                    seq![RestoreCommand::Float] + floating_restore_commands::<G, S>(g)
                }
                &&& exists|i: int, j: int|
                    0 <= i < j < cmds.len() && cmds[i] == RestoreCommand::<G, S>::ResizeTo(g) && cmds[j]
                        == RestoreCommand::<G, S>::MoveTo(g)
            }
        }),
{
    let (cmds, end) = restore_window_run(RestoreWindowStage::AwaitCurrent, id, true, Some(g), size, events);
    if end matches Some(Ok(_)) {
        let (next, step) = restore_window_transition(RestoreWindowStage::AwaitCurrent, id, true, Some(g), size, events[0]);
        lemma_floating_restore_rest(next, id, g, size, events.drop_first());
        let base = floating_restore_commands::<G, S>(g);
        assert(base.skip(1) =~= seq![base[1], base[2], base[3]]);
        if let AdapterEvent::Observed(floating) = events[0] {
            if floating {
                assert(cmds =~= base);
                assert(cmds[0] == RestoreCommand::<G, S>::ResizeTo(g) && cmds[2] == RestoreCommand::<G, S>::MoveTo(g));
            } else {
                assert(cmds =~= seq![RestoreCommand::Float] + base);
                assert(cmds[1] == RestoreCommand::<G, S>::ResizeTo(g) && cmds[3] == RestoreCommand::<G, S>::MoveTo(g));
            }
        }
    }
}

} // verus!
