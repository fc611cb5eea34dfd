//! Per-window snap bookkeeping. The geometry type is a parameter: this module
//! only stores and hands back geometry, it never computes with it.

use vstd::prelude::*;
use std::collections::HashMap;
use crate::backend::{WindowId, WindowSnapshot};
use crate::layout::ZoneId;

verus! {

broadcast use vstd::std_specs::hash::group_hash_axioms;

/// What is remembered about a snapped window: the geometry it had before its
/// first snap, the zone it is in, the zone it was in before, and the geometry
/// the backend actually applied.
#[derive(Debug, Clone)]
pub struct SnapRecord<G> {
    pub baseline: WindowSnapshot<G>,
    pub current_zone: ZoneId,
    pub previous_zone: Option<ZoneId>,
    pub applied_geometry: G,
}

/// The record after a successful snap of `before`'s window into `zone`: a window
/// seen for the first time gets `before` as its baseline; a window already snapped
/// keeps its baseline, and when the zone changes the old zone becomes the previous one.
pub open spec fn record_after_success<G>(
    prev: Option<SnapRecord<G>>,
    before: WindowSnapshot<G>,
    zone: ZoneId,
    applied: G,
) -> SnapRecord<G> {
    match prev {
        Some(r) => if r.current_zone@ != zone@ {
            SnapRecord {
                baseline: r.baseline,
                current_zone: zone,
                previous_zone: Some(r.current_zone),
                applied_geometry: applied,
            }
        } else {
            SnapRecord { applied_geometry: applied, ..r }
        },
        None => SnapRecord {
            baseline: before,
            current_zone: zone,
            previous_zone: None,
            applied_geometry: applied,
        },
    }
}

/// The store after recording a successful snap.
pub open spec fn store_after_success<G>(
    m: Map<WindowId, SnapRecord<G>>,
    before: WindowSnapshot<G>,
    zone: ZoneId,
    applied: G,
) -> Map<WindowId, SnapRecord<G>> {
    let prev = if m.contains_key(before.id) {
        Some(m[before.id])
    } else {
        None
    };
    m.insert(before.id, record_after_success(prev, before, zone, applied))
}

/// Snap records of all windows, keyed by window id.
#[derive(Debug)]
pub struct SnapStateStore<G> {
    records: HashMap<WindowId, SnapRecord<G>>,
}

impl<G> View for SnapStateStore<G> {
    type V = Map<WindowId, SnapRecord<G>>;

    closed spec fn view(&self) -> Map<WindowId, SnapRecord<G>> {
        self.records@
    }
}

impl<G> SnapStateStore<G> {
    /// An empty store.
    pub fn new() -> (r: Self)
        ensures
            r@ == Map::<WindowId, SnapRecord<G>>::empty(),
    {
        SnapStateStore { records: HashMap::new() }
    }

    /// The record of a window, if it is snapped.
    pub fn get(&self, id: WindowId) -> (r: Option<&SnapRecord<G>>)
        ensures
            match r {
                Some(rec) => self@.contains_key(id) && *rec == self@[id],
                None => !self@.contains_key(id),
            },
    {
        self.records.get(&id)
    }

    /// Records a verified snap of `before`'s window into `zone`.
    pub fn record_success(&mut self, before: WindowSnapshot<G>, zone: ZoneId, applied_geometry: G)
        ensures
            final(self)@ == store_after_success(old(self)@, before, zone, applied_geometry),
    {
        let id = before.id;
        match self.records.remove(&id) {
            Some(record) => {
                let updated = if !record.current_zone.same(&zone) {
                    SnapRecord {
                        baseline: record.baseline,
                        current_zone: zone,
                        previous_zone: Some(record.current_zone),
                        applied_geometry,
                    }
                } else {
                    SnapRecord {
                        baseline: record.baseline,
                        current_zone: record.current_zone,
                        previous_zone: record.previous_zone,
                        applied_geometry,
                    }
                };
                self.records.insert(id, updated);
            },
            None => {
                self.records.insert(
                    id,
                    SnapRecord {
                        baseline: before,
                        current_zone: zone,
                        previous_zone: None,
                        applied_geometry,
                    },
                );
            },
        }
        assert(self@ =~= store_after_success(old(self)@, before, zone, applied_geometry));
    }

    /// Forgets a window's record and hands it back.
    pub fn remove(&mut self, id: WindowId) -> (r: Option<SnapRecord<G>>)
        ensures
            final(self)@ == old(self)@.remove(id),
            match r {
                Some(rec) => old(self)@.contains_key(id) && rec == old(self)@[id],
                None => !old(self)@.contains_key(id),
            },
    {
        self.records.remove(&id)
    }

    /// Ends the snapped state of a window whose geometry was changed by hand.
    /// `still_applied` tells whether the window's current geometry still agrees with
    /// a recorded applied geometry. The record is dropped, and `true` returned,
    /// exactly when the window has a record and `still_applied` says no for it.
    pub fn clear_if_manual_change<F: Fn(&G) -> bool>(&mut self, id: WindowId, still_applied: F) -> (r:
        bool)
        requires
            forall|g: &G| #[trigger] still_applied.requires((g,)),
        ensures
            r ==> old(self)@.contains_key(id) && still_applied.ensures(
                (&old(self)@[id].applied_geometry,),
                false,
            ),
            !r ==> !old(self)@.contains_key(id) || still_applied.ensures(
                (&old(self)@[id].applied_geometry,),
                true,
            ),
            final(self)@ == if r {
                old(self)@.remove(id)
            } else {
                old(self)@
            },
    {
        let changed = match self.records.get(&id) {
            Some(record) => !still_applied(&record.applied_geometry),
            None => false,
        };
        if changed {
            self.records.remove(&id);
        }
        changed
    }
}

/// The store after recording the successes in `steps`, one after another.
pub open spec fn store_after_successes<G>(
    m: Map<WindowId, SnapRecord<G>>,
    steps: Seq<(WindowSnapshot<G>, ZoneId, G)>,
) -> Map<WindowId, SnapRecord<G>>
    decreases steps.len(),
{
    if steps.len() == 0 {
        m
    } else {
        let last = steps.last();
        store_after_success(store_after_successes(m, steps.drop_last()), last.0, last.1, last.2)
    }
}

/// A chain of snaps of one window keeps the baseline captured by the first snap:
/// however often the window moves between zones, restore goes back to the geometry
/// it had before the chain began.
pub proof fn law_snap_chain_keeps_first_baseline<G>(
    m: Map<WindowId, SnapRecord<G>>,
    first: WindowSnapshot<G>,
    first_zone: ZoneId,
    first_applied: G,
    later: Seq<(WindowSnapshot<G>, ZoneId, G)>,
)
    requires
        !m.contains_key(first.id),
        forall|k: int| 0 <= k < later.len() ==> (#[trigger] later[k]).0.id == first.id,
    ensures
        store_after_successes(
            store_after_success(m, first, first_zone, first_applied),
            later,
        ).contains_key(first.id),
        store_after_successes(
            store_after_success(m, first, first_zone, first_applied),
            later,
        )[first.id].baseline == first,
    decreases later.len(),
{
    if later.len() > 0 {
        let rest = later.drop_last();
        assert forall|k: int| 0 <= k < rest.len() implies (#[trigger] rest[k]).0.id == first.id by {
            assert(rest[k] == later[k]);
        }
        law_snap_chain_keeps_first_baseline(m, first, first_zone, first_applied, rest);
        assert(later.last() == later[later.len() - 1]);
    }
}

/// Moving a snapped window into a different zone makes the zone it left the
/// previous zone, keeps its baseline, and records the newly applied geometry.
pub proof fn law_zone_move_rotates_zones<G>(
    m: Map<WindowId, SnapRecord<G>>,
    before: WindowSnapshot<G>,
    zone: ZoneId,
    applied: G,
)
    requires
        m.contains_key(before.id),
        m[before.id].current_zone@ != zone@,
    ensures
        store_after_success(m, before, zone, applied)[before.id].current_zone == zone,
        store_after_success(m, before, zone, applied)[before.id].previous_zone == Some(
            m[before.id].current_zone,
        ),
        store_after_success(m, before, zone, applied)[before.id].baseline == m[before.id].baseline,
        store_after_success(m, before, zone, applied)[before.id].applied_geometry == applied,
{
}

/// Recording a success for one window leaves every other window's record as it was.
pub proof fn law_success_is_local<G>(
    m: Map<WindowId, SnapRecord<G>>,
    before: WindowSnapshot<G>,
    zone: ZoneId,
    applied: G,
    other: WindowId,
)
    requires
        other != before.id,
    ensures
        store_after_success(m, before, zone, applied).contains_key(other) == m.contains_key(other),
        m.contains_key(other) ==> store_after_success(m, before, zone, applied)[other] == m[other],
{
}

} // verus!
