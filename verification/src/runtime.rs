//! Snap state that outlives one command: one record per snapped window, kept for
//! the current compositor session. Geometry (`G`) and size (`S`) are type
//! parameters; comparing them within a tolerance is the caller's part, reported
//! through the `check` closures.

use vstd::prelude::*;
use crate::text::opt_string_view;

verus! {

/// The only runtime-state format version this library understands.
pub const STATE_VERSION: u32 = 1;

/// The saved state of one snapped window.
#[derive(Debug, Clone)]
pub struct WindowRecord<G, S> {
    pub id: u64,
    pub app_id: Option<String>,
    pub pid: Option<i32>,
    pub baseline_floating: bool,
    pub baseline_geometry: Option<G>,
    pub baseline_size: Option<S>,
    pub current_layout: String,
    pub current_zone: String,
    pub applied_geometry: G,
}

/// Who a window is: runtime ids are reused, so the app id and the process id are
/// checked as well.
#[derive(Debug, Clone)]
pub struct WindowIdentity {
    pub id: u64,
    pub app_id: Option<String>,
    pub pid: Option<i32>,
}

/// What the snap and restore commands know about the window they act on:
/// `visual_geometry` is its on-screen geometry when the compositor reports one,
/// `tile_size` its size in the layout.
#[derive(Debug, Clone)]
pub struct WindowFacts<G, S> {
    pub id: u64,
    pub app_id: Option<String>,
    pub pid: Option<i32>,
    pub is_floating: bool,
    pub visual_geometry: Option<G>,
    pub tile_size: S,
}

/// The records of one session.
#[derive(Debug, Clone)]
pub struct RuntimeState<G, S> {
    version: u32,
    session: String,
    windows: Vec<WindowRecord<G, S>>,
}

/// The record belongs to the same window as the identity.
pub open spec fn same_window<G, S>(r: WindowRecord<G, S>, app_id: Option<String>, pid: Option<i32>) -> bool {
    opt_string_view(r.app_id) == opt_string_view(app_id) && r.pid == pid
}

/// `k` is the first position in `ws` of a record for window `id`.
pub open spec fn first_at<G, S>(ws: Seq<WindowRecord<G, S>>, id: u64, k: int) -> bool {
    &&& 0 <= k < ws.len()
    &&& ws[k].id == id
    &&& forall|j: int| 0 <= j < k ==> #[trigger] ws[j].id != id
}

/// The first position of a record for window `id`, if any.
pub open spec fn find_first<G, S>(ws: Seq<WindowRecord<G, S>>, id: u64) -> Option<int> {
    if exists|k: int| first_at(ws, id, k) {
        Some(choose|k: int| first_at(ws, id, k))
    } else {
        None
    }
}

/// There is at most one first position.
pub proof fn lemma_first_at_unique<G, S>(ws: Seq<WindowRecord<G, S>>, id: u64, k1: int, k2: int)
    requires
        first_at(ws, id, k1),
        first_at(ws, id, k2),
    ensures
        k1 == k2,
{
    if k1 < k2 {
        assert(ws[k1].id != id);
    } else if k2 < k1 {
        assert(ws[k2].id != id);
    }
}

/// The records without the first one of window `id`.
pub open spec fn without_first<G, S>(ws: Seq<WindowRecord<G, S>>, id: u64) -> Seq<WindowRecord<G, S>> {
    match find_first(ws, id) {
        Some(k) => ws.remove(k),
        None => ws,
    }
}

/// The records after a snap of `update.id`: an existing record keeps its identity
/// and baseline and takes the new layout, zone and applied geometry; otherwise the
/// update is appended.
pub open spec fn after_upsert<G, S>(ws: Seq<WindowRecord<G, S>>, update: WindowRecord<G, S>) -> Seq<
    WindowRecord<G, S>,
> {
    match find_first(ws, update.id) {
        Some(k) => ws.update(
            k,
            WindowRecord {
                current_layout: update.current_layout,
                current_zone: update.current_zone,
                applied_geometry: update.applied_geometry,
                ..ws[k]
            },
        ),
        None => ws.push(update),
    }
}

/// The record belongs to a window that is still open.
pub open spec fn is_live<G, S>(r: WindowRecord<G, S>, live: Seq<WindowIdentity>) -> bool {
    exists|j: int| 0 <= j < live.len() && r.id == (#[trigger] live[j]).id && same_window(r, live[j].app_id, live[j].pid)
}

/// What reading a saved state file leads to.
#[derive(Debug, Clone, Copy, PartialEq, Eq, Structural)]
pub enum LoadDecision {
    /// The state belongs to this session and is kept.
    Keep,
    /// The state belongs to another session: start from an empty state.
    StartFresh,
    /// The state file has a format version this library does not read.
    UnsupportedVersion,
}

fn opt_string_eq(a: &Option<String>, b: &Option<String>) -> (r: bool)
    ensures
        r == (opt_string_view(*a) == opt_string_view(*b)),
{
    match (a, b) {
        (Some(x), Some(y)) => crate::text::text_eq(x.as_str(), y.as_str()),
        (None, None) => true,
        _ => false,
    }
}

fn opt_i32_eq(a: Option<i32>, b: Option<i32>) -> (r: bool)
    ensures
        r == (a == b),
{
    match (a, b) {
        (Some(x), Some(y)) => x == y,
        (None, None) => true,
        _ => false,
    }
}

fn clone_opt_string(a: &Option<String>) -> (r: Option<String>)
    ensures
        r == *a,
{
    match a {
        Some(s) => Some(s.clone()),
        None => None,
    }
}

/// How a snap command proceeds for a window.
#[derive(Debug, Clone)]
pub enum SnapPlan<G, S> {
    /// The window still sits, untouched, in the requested zone of the requested
    /// layout: nothing needs to be sent to the compositor.
    AlreadySnapped,
    /// Snap the window; the record keeps this baseline.
    Apply { baseline_floating: bool, baseline_geometry: Option<G>, baseline_size: S },
}

/// How a restore command proceeds for a window.
#[derive(Debug, Clone)]
pub enum RestorePlan<G, S> {
    /// The window has no saved snap state.
    Missing,
    /// The saved state was made for another window that had the same id; it was discarded.
    DifferentWindow,
    /// The window was moved or resized by hand since its snap; the saved state was discarded.
    ChangedManually,
    /// Restore the window to this baseline.
    Restore { baseline_floating: bool, baseline_geometry: Option<G>, baseline_size: Option<S> },
}

/// The records after dropping one of window `w.id` that was made for another window.
pub open spec fn identity_checked<G, S>(ws: Seq<WindowRecord<G, S>>, w: WindowFacts<G, S>) -> Seq<
    WindowRecord<G, S>,
> {
    match find_first(ws, w.id) {
        Some(k) => if !same_window(ws[k], w.app_id, w.pid) {
            ws.remove(k)
        } else {
            ws
        },
        None => ws,
    }
}

/// The geometry to compare with a record's applied geometry: the window's visual
/// geometry, when it floats and has one.
pub open spec fn current_for_check<G, S>(w: WindowFacts<G, S>) -> Option<G> {
    if w.is_floating {
        w.visual_geometry
    } else {
        None
    }
}

/// The baseline a snap starts from: the one saved for the window's snap chain,
/// completed from the window itself where nothing was saved.
pub open spec fn snap_baseline<G, S>(ws: Seq<WindowRecord<G, S>>, w: WindowFacts<G, S>) -> SnapPlan<G, S> {
    match find_first(ws, w.id) {
        Some(k) => SnapPlan::Apply {
            baseline_floating: ws[k].baseline_floating,
            baseline_geometry: match ws[k].baseline_geometry {
                Some(g) => Some(g),
                None => current_for_check(w),
            },
            baseline_size: match ws[k].baseline_size {
                Some(s) => s,
                None => w.tile_size,
            },
        },
        None => SnapPlan::Apply {
            baseline_floating: w.is_floating,
            baseline_geometry: current_for_check(w),
            baseline_size: w.tile_size,
        },
    }
}

/// What planning a snap of window `w` into `zone` of `layout` does, given the
/// answer `c` of the geometry check on the window's record (when there is one
/// after the identity check): a record that still matches the window in the same
/// zone makes the snap a no-op; a record whose geometry no longer matches is dropped.
pub open spec fn snap_plan_spec<G, S>(
    ws: Seq<WindowRecord<G, S>>,
    w: WindowFacts<G, S>,
    layout: Seq<char>,
    zone: Seq<char>,
    c: Result<bool, String>,
) -> (Seq<WindowRecord<G, S>>, Result<SnapPlan<G, S>, String>) {
    let ws1 = identity_checked(ws, w);
    match find_first(ws1, w.id) {
        None => (ws1, Ok(snap_baseline(ws1, w))),
        Some(k) => match c {
            Err(m) => (ws1, Err(m)),
            Ok(true) => if ws1[k].current_layout@ == layout && ws1[k].current_zone@ == zone {
                (ws1, Ok(SnapPlan::AlreadySnapped))
            } else {
                (ws1, Ok(snap_baseline(ws1, w)))
            },
            Ok(false) => (ws1.remove(k), Ok(snap_baseline(ws1.remove(k), w))),
        },
    }
}

/// What planning a restore of window `w` does, given the answer `c` of the
/// geometry check on its record.
pub open spec fn restore_plan_spec<G, S>(
    ws: Seq<WindowRecord<G, S>>,
    w: WindowFacts<G, S>,
    c: Result<bool, String>,
) -> (Seq<WindowRecord<G, S>>, Result<RestorePlan<G, S>, String>) {
    match find_first(ws, w.id) {
        None => (ws, Ok(RestorePlan::Missing)),
        Some(k) => if !same_window(ws[k], w.app_id, w.pid) {
            (ws.remove(k), Ok(RestorePlan::DifferentWindow))
        } else {
            match c {
                Err(m) => (ws, Err(m)),
                Ok(false) => (ws.remove(k), Ok(RestorePlan::ChangedManually)),
                Ok(true) => (
                    ws,
                    Ok(
                        RestorePlan::Restore {
                            baseline_floating: ws[k].baseline_floating,
                            baseline_geometry: ws[k].baseline_geometry,
                            baseline_size: ws[k].baseline_size,
                        },
                    ),
                ),
            }
        },
    }
}

impl<G: Copy, S: Copy> WindowRecord<G, S> {
    /// A copy of the record.
    pub fn duplicate(&self) -> (r: Self)
        ensures
            r == *self,
    {
        WindowRecord {
            id: self.id,
            app_id: clone_opt_string(&self.app_id),
            pid: self.pid,
            baseline_floating: self.baseline_floating,
            baseline_geometry: self.baseline_geometry,
            baseline_size: self.baseline_size,
            current_layout: self.current_layout.clone(),
            current_zone: self.current_zone.clone(),
            applied_geometry: self.applied_geometry,
        }
    }
}

impl<G: Copy, S: Copy> RuntimeState<G, S> {
    /// An empty state for a session.
    pub fn empty(session: String) -> (r: Self)
        ensures
            r.version() == STATE_VERSION,
            r.session()@ == session@,
            r.records().len() == 0,
    {
        RuntimeState { version: STATE_VERSION, session, windows: Vec::new() }
    }

    /// A state as read back from storage.
    pub fn from_parts(version: u32, session: String, windows: Vec<WindowRecord<G, S>>) -> (r: Self)
        ensures
            r.version() == version,
            r.session()@ == session@,
            r.records() == windows@,
    {
        RuntimeState { version, session, windows }
    }

    /// The window records, in order.
    pub closed spec fn records(&self) -> Seq<WindowRecord<G, S>> {
        self.windows@
    }

    /// The window records, in order.
    pub fn windows(&self) -> (r: &Vec<WindowRecord<G, S>>)
        ensures
            r@ == self.records(),
    {
        &self.windows
    }

    /// Takes the state apart into version, session and records.
    pub fn into_parts(self) -> (r: (u32, String, Vec<WindowRecord<G, S>>))
        ensures
            r.0 == self.version(),
            r.1 == self.session(),
            r.2@ == self.records(),
    {
        (self.version, self.session, self.windows)
    }

    pub closed spec fn version(&self) -> u32 {
        self.version
    }

    pub closed spec fn session(&self) -> String {
        self.session
    }

    /// The format version of this state.
    pub fn format_version(&self) -> (r: u32)
        ensures
            r == self.version(),
    {
        self.version
    }

    /// The session this state belongs to.
    pub fn session_name(&self) -> (r: &String)
        ensures
            *r == self.session(),
    {
        &self.session
    }

    /// Whether a state read back from storage may be used in `session`: a foreign
    /// format version is refused, a state of another session is replaced by an empty one.
    pub fn load_decision(&self, session: &str) -> (r: LoadDecision)
        ensures
            self.version() != STATE_VERSION ==> r == LoadDecision::UnsupportedVersion,
            self.version() == STATE_VERSION && self.session()@ != session@ ==> r
                == LoadDecision::StartFresh,
            self.version() == STATE_VERSION && self.session()@ == session@ ==> r == LoadDecision::Keep,
    {
        if self.version != STATE_VERSION {
            LoadDecision::UnsupportedVersion
        } else if !crate::text::text_eq(self.session.as_str(), session) {
            LoadDecision::StartFresh
        } else {
            LoadDecision::Keep
        }
    }

    fn position(&self, id: u64) -> (r: Option<usize>)
        ensures
            match r {
                Some(k) => first_at(self.records(), id, k as int) && find_first(self.records(), id) == Some(k as int),
                None => find_first(self.records(), id) is None && forall|j: int|
                    0 <= j < self.records().len() ==> #[trigger] self.records()[j].id != id,
            },
    {
        let n = self.windows.len();
        let mut k: usize = 0;
        while k < n
            invariant
                n == self.records().len(),
                k <= n,
                forall|j: int| 0 <= j < k ==> #[trigger] self.records()[j].id != id,
            decreases n - k,
        {
            if self.windows[k].id == id {
                assert(first_at(self.records(), id, k as int));
                proof {
                    let c = choose|c: int| first_at(self.records(), id, c);
                    lemma_first_at_unique(self.records(), id, c, k as int);
                }
                return Some(k);
            }
            k = k + 1;
        }
        None
    }

    /// The record of window `id` (the first one, should there be several).
    pub fn get(&self, id: u64) -> (r: Option<&WindowRecord<G, S>>)
        ensures
            match find_first(self.records(), id) {
                Some(k) => r == Some(&self.records()[k]),
                None => r is None,
            },
    {
        match self.position(id) {
            Some(k) => Some(&self.windows[k]),
            None => None,
        }
    }

    /// Forgets the record of window `id` and hands it back.
    pub fn remove(&mut self, id: u64) -> (r: Option<WindowRecord<G, S>>)
        ensures
            final(self).records() == without_first(old(self).records(), id),
            final(self).version() == old(self).version(),
            final(self).session() == old(self).session(),
            match find_first(old(self).records(), id) {
                Some(k) => r == Some(old(self).records()[k]),
                None => r is None,
            },
    {
        match self.position(id) {
            Some(k) => Some(self.windows.remove(k)),
            None => None,
        }
    }

    /// Records a snap: an existing record of the window takes the new layout, zone and
    /// applied geometry and keeps its identity and baseline; otherwise the update is added.
    pub fn upsert_snap(&mut self, update: WindowRecord<G, S>)
        ensures
            final(self).records() == after_upsert(old(self).records(), update),
            final(self).version() == old(self).version(),
            final(self).session() == old(self).session(),
    {
        match self.position(update.id) {
            Some(k) => {
                let existing = &self.windows[k];
                let record = WindowRecord {
                    id: existing.id,
                    app_id: clone_opt_string(&existing.app_id),
                    pid: existing.pid,
                    baseline_floating: existing.baseline_floating,
                    baseline_geometry: existing.baseline_geometry,
                    baseline_size: existing.baseline_size,
                    current_layout: update.current_layout,
                    current_zone: update.current_zone,
                    applied_geometry: update.applied_geometry,
                };
                self.windows.set(k, record);
            },
            None => {
                self.windows.push(update);
            },
        }
    }

    /// Drops the records of windows that are no longer open (a window is the same one
    /// only when id, app id and process id all agree) and tells whether any was dropped.
    pub fn retain_live(&mut self, live: &[WindowIdentity]) -> (r: bool)
        ensures
            final(self).records() == old(self).records().filter(|w: WindowRecord<G, S>| is_live(w, live@)),
            r == (final(self).records().len() != old(self).records().len()),
            final(self).version() == old(self).version(),
            final(self).session() == old(self).session(),
    {
        let ghost pred = |w: WindowRecord<G, S>| is_live(w, live@);
        let n = self.windows.len();
        let mut kept: Vec<WindowRecord<G, S>> = Vec::new();
        let mut i: usize = 0;
        while i < n
            invariant
                n == self.records().len(),
                i <= n,
                pred == (|w: WindowRecord<G, S>| is_live(w, live@)),
                kept@ == self.records().take(i as int).filter(pred),
            decreases n - i,
        {
            let record = &self.windows[i];
            let mut found = false;
            let m = live.len();
            let mut j: usize = 0;
            while j < m
                invariant
                    m == live@.len(),
                    j <= m,
                    !found ==> forall|t: int|
                        0 <= t < j ==> !(record.id == (#[trigger] live@[t]).id && same_window(
                            *record,
                            live@[t].app_id,
                            live@[t].pid,
                        )),
                    found ==> is_live(*record, live@),
                decreases m - j,
            {
                if !found && live[j].id == record.id && opt_string_eq(&live[j].app_id, &record.app_id)
                    && opt_i32_eq(live[j].pid, record.pid) {
                    found = true;
                }
                j = j + 1;
            }
            proof {
                reveal_with_fuel(Seq::<_>::filter, 1);
                assert(self.records().take(i + 1).drop_last() =~= self.records().take(i as int));
                assert(found == pred(*record));
            }
            if found {
                kept.push(record.duplicate());
            }
            i = i + 1;
        }
        assert(self.records().take(n as int) =~= self.records());
        let changed = kept.len() != self.windows.len();
        self.windows = kept;
        changed
    }
}


impl<G: Copy, S: Copy> RuntimeState<G, S> {
    fn baseline_for(&self, window: &WindowFacts<G, S>) -> (r: SnapPlan<G, S>)
        ensures
            r == snap_baseline(self.records(), *window),
    {
        let fallback = if window.is_floating {
            window.visual_geometry
        } else {
            None
        };
        match self.position(window.id) {
            Some(k) => {
                let record = &self.windows[k];
                let baseline_geometry = match record.baseline_geometry {
                    Some(g) => Some(g),
                    None => fallback,
                };
                let baseline_size = match record.baseline_size {
                    Some(size) => size,
                    None => window.tile_size,
                };
                SnapPlan::Apply {
                    baseline_floating: record.baseline_floating,
                    baseline_geometry,
                    baseline_size,
                }
            },
            None => SnapPlan::Apply {
                baseline_floating: window.is_floating,
                baseline_geometry: fallback,
                baseline_size: window.tile_size,
            },
        }
    }

    /// Plans a snap of `window` into `zone` of `layout`. A saved record made for
    /// another window with the same id is dropped first. `check` compares the record's
    /// applied geometry with the window's current geometry (`None` when the window does
    /// not float or has no visual geometry): `Ok(true)` when they agree, `Ok(false)`
    /// when not, `Err` when the saved geometry is unusable. A record that agrees and
    /// names the same layout and zone makes the snap a no-op; one that does not agree
    /// is dropped. The second result tells whether records were dropped.
    pub fn plan_snap<F: Fn(&G, &Option<G>) -> Result<bool, String>>(
        &mut self,
        window: &WindowFacts<G, S>,
        layout: &str,
        zone: &str,
        check: F,
    ) -> (r: (Result<SnapPlan<G, S>, String>, bool))
        requires
            forall|a: &G, b: &Option<G>| #[trigger] check.requires((a, b)),
        ensures
            exists|c: Result<bool, String>|
                {
                    &&& (find_first(identity_checked(old(self).records(), *window), window.id) matches Some(
                        k,
                    ) ==> check.ensures(
                        (
                            &identity_checked(old(self).records(), *window)[k].applied_geometry,
                            &current_for_check(*window),
                        ),
                        c,
                    ))
                    &&& (final(self).records(), r.0) == snap_plan_spec(
                        old(self).records(),
                        *window,
                        layout@,
                        zone@,
                        c,
                    )
                },
            r.1 == (final(self).records().len() != old(self).records().len()),
            final(self).version() == old(self).version(),
            final(self).session() == old(self).session(),
    {
        let ghost ws0 = self.records();
        let mut dirty = false;
        match self.position(window.id) {
            Some(k) => {
                let record = &self.windows[k];
                if !(opt_string_eq(&record.app_id, &window.app_id) && opt_i32_eq(record.pid, window.pid)) {
                    self.windows.remove(k);
                    dirty = true;
                }
            },
            None => {},
        }
        let ghost ws1 = self.records();
        assert(ws1 == identity_checked(ws0, *window));
        let current = if window.is_floating {
            window.visual_geometry
        } else {
            None
        };
        let ghost mut witness: Result<bool, String> = Ok(false);
        let result = match self.position(window.id) {
            None => Ok(self.baseline_for(window)),
            Some(k) => {
                let c = check(&self.windows[k].applied_geometry, &current);
                proof {
                    witness = c;
                }
                match c {
                    Err(m) => Err(m),
                    Ok(true) => {
                        let record = &self.windows[k];
                        if crate::text::text_eq(record.current_layout.as_str(), layout)
                            && crate::text::text_eq(record.current_zone.as_str(), zone) {
                            Ok(SnapPlan::AlreadySnapped)
                        } else {
                            Ok(self.baseline_for(window))
                        }
                    },
                    Ok(false) => {
                        self.windows.remove(k);
                        dirty = true;
                        Ok(self.baseline_for(window))
                    },
                }
            },
        };
        assert((self.records(), result) == snap_plan_spec(ws0, *window, layout@, zone@, witness));
        (result, dirty)
    }

    /// Plans a restore of `window`. A record made for another window, or one whose
    /// applied geometry no longer matches the window (`check`, as in `plan_snap`), is
    /// dropped and reported; otherwise the record's baseline is the one to restore.
    /// The second result tells whether a record was dropped.
    pub fn plan_restore<F: Fn(&G, &Option<G>) -> Result<bool, String>>(
        &mut self,
        window: &WindowFacts<G, S>,
        check: F,
    ) -> (r: (Result<RestorePlan<G, S>, String>, bool))
        requires
            forall|a: &G, b: &Option<G>| #[trigger] check.requires((a, b)),
        ensures
            exists|c: Result<bool, String>|
                {
                    &&& (find_first(old(self).records(), window.id) matches Some(k) ==> same_window(
                        old(self).records()[k],
                        window.app_id,
                        window.pid,
                    ) ==> check.ensures(
                        (&old(self).records()[k].applied_geometry, &current_for_check(*window)),
                        c,
                    ))
                    &&& (final(self).records(), r.0) == restore_plan_spec(old(self).records(), *window, c)
                },
            r.1 == (final(self).records().len() != old(self).records().len()),
            final(self).version() == old(self).version(),
            final(self).session() == old(self).session(),
    {
        let ghost ws0 = self.records();
        let ghost mut witness: Result<bool, String> = Ok(false);
        let mut dirty = false;
        let result = match self.position(window.id) {
            None => Ok(RestorePlan::Missing),
            Some(k) => {
                let record = &self.windows[k];
                if !(opt_string_eq(&record.app_id, &window.app_id) && opt_i32_eq(record.pid, window.pid)) {
                    self.windows.remove(k);
                    dirty = true;
                    Ok(RestorePlan::DifferentWindow)
                } else {
                    let current = if window.is_floating {
                        window.visual_geometry
                    } else {
                        None
                    };
                    let c = check(&record.applied_geometry, &current);
                    proof {
                        witness = c;
                    }
                    match c {
                        Err(m) => Err(m),
                        Ok(false) => {
                            self.windows.remove(k);
                            dirty = true;
                            Ok(RestorePlan::ChangedManually)
                        },
                        Ok(true) => {
                            let record = &self.windows[k];
                            Ok(
                                RestorePlan::Restore {
                                    baseline_floating: record.baseline_floating,
                                    baseline_geometry: record.baseline_geometry,
                                    baseline_size: record.baseline_size,
                                },
                            )
                        },
                    }
                }
            },
        };
        assert((self.records(), result) == restore_plan_spec(ws0, *window, witness));
        (result, dirty)
    }
}

/// Updating the record of a window that is already snapped keeps the identity and
/// the baseline saved by the first snap of the chain.
pub proof fn law_upsert_keeps_baseline<G, S>(ws: Seq<WindowRecord<G, S>>, update: WindowRecord<G, S>, k: int)
    requires
        first_at(ws, update.id, k),
    ensures
        after_upsert(ws, update).len() == ws.len(),
        after_upsert(ws, update)[k].baseline_floating == ws[k].baseline_floating,
        after_upsert(ws, update)[k].baseline_geometry == ws[k].baseline_geometry,
        after_upsert(ws, update)[k].baseline_size == ws[k].baseline_size,
        after_upsert(ws, update)[k].app_id == ws[k].app_id,
        after_upsert(ws, update)[k].pid == ws[k].pid,
        after_upsert(ws, update)[k].current_zone == update.current_zone,
        after_upsert(ws, update)[k].applied_geometry == update.applied_geometry,
{
    let c = choose|c: int| first_at(ws, update.id, c);
    lemma_first_at_unique(ws, update.id, c, k);
}

/// A saved record is never used for another window: whenever a snap is planned as a
/// no-op, or a restore is planned, the record it rests on was made for this window
/// (for records that name each window id once, as `upsert_snap` keeps them).
pub proof fn law_records_serve_only_their_window<G, S>(
    ws: Seq<WindowRecord<G, S>>,
    w: WindowFacts<G, S>,
    layout: Seq<char>,
    zone: Seq<char>,
    c: Result<bool, String>,
)
    requires
        forall|i: int, j: int| 0 <= i < j < ws.len() ==> #[trigger] ws[i].id != #[trigger] ws[j].id,
    ensures
        snap_plan_spec(ws, w, layout, zone, c).1 matches Ok(SnapPlan::AlreadySnapped) ==> (find_first(
            ws,
            w.id,
        ) matches Some(k) && same_window(ws[k], w.app_id, w.pid)),
        restore_plan_spec(ws, w, c).1 matches Ok(RestorePlan::Restore { .. }) ==> (find_first(
            ws,
            w.id,
        ) matches Some(k) && same_window(ws[k], w.app_id, w.pid)),
{
    let ws1 = identity_checked(ws, w);
    if let Some(k) = find_first(ws, w.id) {
        if !same_window(ws[k], w.app_id, w.pid) {
            // The dropped record was the only one with this id: ids are unique.
            if let Some(k1) = find_first(ws1, w.id) {
                assert(ws1[k1].id == w.id);
            }
        }
    }
}

/// A window whose geometry was changed by hand since its snap starts a new snap
/// chain: its record is dropped and the next snap takes the window as it is now as
/// the new baseline (for records that name each window id once).
pub proof fn law_manual_change_rebases<G, S>(
    ws: Seq<WindowRecord<G, S>>,
    w: WindowFacts<G, S>,
    layout: Seq<char>,
    zone: Seq<char>,
)
    requires
        forall|i: int, j: int| 0 <= i < j < ws.len() ==> #[trigger] ws[i].id != #[trigger] ws[j].id,
        find_first(ws, w.id) matches Some(k) && same_window(ws[k], w.app_id, w.pid),
    ensures
        snap_plan_spec(ws, w, layout, zone, Ok(false)).1 == Ok::<SnapPlan<G, S>, String>(
            SnapPlan::Apply {
                baseline_floating: w.is_floating,
                baseline_geometry: current_for_check(w),
                baseline_size: w.tile_size,
            },
        ),
        snap_plan_spec(ws, w, layout, zone, Ok(false)).0.len() == ws.len() - 1,
{
    let k = find_first(ws, w.id)->0;
    let ws2 = ws.remove(k);
    assert(identity_checked(ws, w) == ws);
    if exists|j: int| first_at(ws2, w.id, j) {
        let j = choose|j: int| first_at(ws2, w.id, j);
        if j < k {
            assert(ws2[j] == ws[j]);
        } else {
            assert(ws2[j] == ws[j + 1]);
        }
    }
}

/// A snap is planned as a no-op only when the geometry check agreed and the window
/// has a saved record that names both the requested layout and the requested zone;
/// a record in another layout, or in another zone, never makes a snap a no-op.
pub proof fn law_noop_snap_needs_same_layout_and_zone<G, S>(
    ws: Seq<WindowRecord<G, S>>,
    w: WindowFacts<G, S>,
    layout: Seq<char>,
    zone: Seq<char>,
    c: Result<bool, String>,
)
    ensures
        snap_plan_spec(ws, w, layout, zone, c).1 matches Ok(SnapPlan::AlreadySnapped) ==> {
            &&& c == Ok::<bool, String>(true)
            &&& exists|k: int|
                0 <= k < ws.len() && (#[trigger] ws[k]).id == w.id && ws[k].current_layout@ == layout
                    && ws[k].current_zone@ == zone
        },
        (forall|k: int| 0 <= k < ws.len() && (#[trigger] ws[k]).id == w.id ==> ws[k].current_layout@ != layout)
            ==> !(snap_plan_spec(ws, w, layout, zone, c).1 matches Ok(SnapPlan::AlreadySnapped)),
{
    let ws1 = identity_checked(ws, w);
    if let Some(k) = find_first(ws1, w.id) {
        assert(first_at(ws1, w.id, k));
        let k0: int = match find_first(ws, w.id) {
            Some(k0) => if !same_window(ws[k0], w.app_id, w.pid) {
                if k < k0 {
                    k
                } else {
                    k + 1
                }
            } else {
                k
            },
            None => k,
        };
        assert(0 <= k0 < ws.len() && ws[k0] == ws1[k]);
    }
}

} // verus!
