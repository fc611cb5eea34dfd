//! Deciding when a window has settled after IPC actions. Niri applies layout
//! changes asynchronously, so the adapter polls the window; these watches decide,
//! from each poll, whether to keep polling, to accept the window, or to give up.
//! Times are milliseconds since the watch began.

use vstd::prelude::*;

verus! {

/// How long a window is always observed before it can be accepted.
pub const MIN_OBSERVE_MS: u64 = 250;

/// How long the layout must stay unchanged before the window is accepted.
pub const STABLE_FOR_MS: u64 = 120;

/// What the poller does after a poll.
#[derive(Debug, Clone, Copy, PartialEq, Eq, Structural)]
pub enum PollAction {
    /// Sleep and poll again.
    Wait,
    /// The window is in the awaited state; accept this poll's window.
    Accept,
    /// The deadline passed without the awaited state.
    TimedOut,
}

/// One poll while waiting for a window to reach a state (floating or tiled): accept
/// as soon as it is there, otherwise give up once the deadline has passed.
pub open spec fn poll_transition(reached: bool, elapsed_ms: u64, timeout_ms: u64) -> PollAction {
    if reached {
        PollAction::Accept
    } else if elapsed_ms >= timeout_ms {
        PollAction::TimedOut
    } else {
        PollAction::Wait
    }
}

/// Decides one poll while waiting for a window to become floating or tiled.
pub fn poll_state(reached: bool, elapsed_ms: u64, timeout_ms: u64) -> (r: PollAction)
    ensures
        r == poll_transition(reached, elapsed_ms, timeout_ms),
{
    if reached {
        PollAction::Accept
    } else if elapsed_ms >= timeout_ms {
        PollAction::TimedOut
    } else {
        PollAction::Wait
    }
}

/// Watches a window until its layout has been stable for `STABLE_FOR_MS`, after at
/// least `MIN_OBSERVE_MS`, or until `timeout_ms` has passed.
#[derive(Debug, Clone, Copy)]
pub struct SettleWatch {
    pub timeout_ms: u64,
    /// Since when the window has been in the awaited state with an unchanged layout.
    pub stable_since: Option<u64>,
}

/// The watch's next `stable_since` after a poll. `in_state` says whether the window
/// is floating (or tiled) as awaited; `unchanged` says whether the previous poll saw
/// it in the awaited state with the same layout.
pub open spec fn next_stable_since(stable_since: Option<u64>, elapsed_ms: u64, in_state: bool, unchanged: bool) -> Option<u64> {
    if !in_state {
        None
    } else if unchanged && stable_since is Some {
        stable_since
    } else {
        Some(elapsed_ms)
    }
}

/// Whether the window has been stable since `stable_since` for at least `STABLE_FOR_MS`.
pub open spec fn stable_for_long(stable_since: Option<u64>, elapsed_ms: u64) -> bool {
    match stable_since {
        Some(s) => elapsed_ms >= s && elapsed_ms - s >= STABLE_FOR_MS,
        None => false,
    }
}

/// The decision after a poll, given the updated `stable_since`.
pub open spec fn settle_action(stable_since: Option<u64>, elapsed_ms: u64, in_state: bool, timeout_ms: u64) -> PollAction {
    if in_state && elapsed_ms >= MIN_OBSERVE_MS && stable_for_long(stable_since, elapsed_ms) {
        PollAction::Accept
    } else if elapsed_ms >= timeout_ms {
        PollAction::TimedOut
    } else {
        PollAction::Wait
    }
}

impl SettleWatch {
    /// A watch that gives up after `timeout_ms`.
    pub fn new(timeout_ms: u64) -> (r: Self)
        ensures
            r.timeout_ms == timeout_ms,
            r.stable_since is None,
    {
        SettleWatch { timeout_ms, stable_since: None }
    }

    /// Takes one poll: `elapsed_ms` since the watch began, whether the window is in
    /// the awaited state, and whether its layout is unchanged since the previous poll
    /// that saw it in that state.
    pub fn poll(&mut self, elapsed_ms: u64, in_state: bool, unchanged: bool) -> (r: PollAction)
        ensures
            final(self).timeout_ms == old(self).timeout_ms,
            final(self).stable_since == next_stable_since(old(self).stable_since, elapsed_ms, in_state, unchanged),
            r == settle_action(final(self).stable_since, elapsed_ms, in_state, old(self).timeout_ms),
    {
        if in_state {
            match self.stable_since {
                Some(_) if unchanged => {},
                _ => {
                    self.stable_since = Some(elapsed_ms);
                },
            }
            let stable_long_enough = match self.stable_since {
                Some(since) => elapsed_ms >= since && elapsed_ms - since >= STABLE_FOR_MS,
                None => false,
            };
            if elapsed_ms >= MIN_OBSERVE_MS && stable_long_enough {
                return PollAction::Accept;
            }
        } else {
            self.stable_since = None;
        }
        if elapsed_ms >= self.timeout_ms {
            PollAction::TimedOut
        } else {
            PollAction::Wait
        }
    }
}

/// A window is only accepted as settled when it is in the awaited state, has been
/// watched for at least `MIN_OBSERVE_MS`, and its layout has not changed for the
/// last `STABLE_FOR_MS`; a change of layout or of state restarts the stable period.
pub proof fn law_settled_means_stable(stable_since: Option<u64>, elapsed_ms: u64, in_state: bool, unchanged: bool, timeout_ms: u64)
    ensures
        settle_action(next_stable_since(stable_since, elapsed_ms, in_state, unchanged), elapsed_ms, in_state, timeout_ms)
            == PollAction::Accept ==> {
            &&& in_state
            &&& elapsed_ms >= MIN_OBSERVE_MS
            &&& unchanged
            &&& stable_since matches Some(s) && elapsed_ms >= s && elapsed_ms - s >= STABLE_FOR_MS
        },
        !in_state ==> next_stable_since(stable_since, elapsed_ms, in_state, unchanged) is None,
        in_state && !unchanged ==> next_stable_since(stable_since, elapsed_ms, in_state, unchanged) == Some(elapsed_ms),
{
}

/// Waiting gives up only once the deadline has passed, and never while the
/// awaited state is there to accept: a window in the awaited state is accepted
/// even at the deadline by a plain wait.
pub proof fn law_gives_up_only_after_deadline(
    reached: bool,
    stable_since: Option<u64>,
    elapsed_ms: u64,
    in_state: bool,
    timeout_ms: u64,
)
    ensures
        poll_transition(reached, elapsed_ms, timeout_ms) == PollAction::TimedOut ==> elapsed_ms >= timeout_ms
            && !reached,
        reached ==> poll_transition(reached, elapsed_ms, timeout_ms) == PollAction::Accept,
        settle_action(stable_since, elapsed_ms, in_state, timeout_ms) == PollAction::TimedOut ==> elapsed_ms
            >= timeout_ms,
        elapsed_ms < timeout_ms ==> settle_action(stable_since, elapsed_ms, in_state, timeout_ms)
            != PollAction::TimedOut,
{
}

} // verus!
