//! The refresh-gated snapshot cache: one shared snapshot plus its capture
//! timestamp, refreshed at most once per staleness window.
//!
//! The cache follows a double-checked refresh discipline. A caller first
//! checks staleness on the cheap shared path ([`SnapshotCache::try_cached`]).
//! Only if the snapshot is stale does it enter the exclusive section, where
//! the check is repeated ([`SnapshotCache::begin_refresh`]) — racing callers
//! may have refreshed in the meantime — and only a caller that still finds
//! the snapshot stale runs the provider and commits the result
//! ([`SnapshotCache::commit_refresh`]). [`SnapshotCache::acquire_at`] is the
//! whole sequence as it runs once the lock has serialized the callers.
//!
//! All timestamps are milliseconds of a monotonic clock.

use vstd::prelude::*;

use crate::errors::{ConfigError, ProviderError};
use crate::metrics::SnapshotData;

verus! {

/// An immutable set of metrics captured at one instant. A refresh replaces
/// the cache's snapshot wholesale; a snapshot handed to a caller never
/// changes under it.
#[derive(Debug)]
pub struct Snapshot {
    /// When the provider captured this data, in milliseconds.
    pub captured_at: u64,
    /// The captured metrics.
    pub data: SnapshotData,
}

/// How often the cache lets the provider run.
#[derive(Clone, Copy, PartialEq, Eq, Structural, Debug)]
pub struct CachePolicy {
    /// The staleness window: a snapshot older than this many milliseconds
    /// triggers a refresh. Zero disables caching: every call refreshes.
    pub refresh_interval_millis: u64,
}

impl CachePolicy {
    /// Validates a refresh interval read from configuration. A negative
    /// interval is a fatal configuration error.
    pub fn new(refresh_interval_millis: i64) -> (r: Result<CachePolicy, ConfigError>)
        ensures
            refresh_interval_millis >= 0 ==> r == Ok::<CachePolicy, ConfigError>(
                CachePolicy { refresh_interval_millis: refresh_interval_millis as u64 },
            ),
            refresh_interval_millis < 0 ==> r == Err::<CachePolicy, ConfigError>(
                ConfigError::NegativeRefreshInterval,
            ),
    {
        if refresh_interval_millis < 0 {
            Err(ConfigError::NegativeRefreshInterval)
        } else {
            Ok(CachePolicy { refresh_interval_millis: refresh_interval_millis as u64 })
        }
    }
}

/// The abstract state of a [`SnapshotCache`]: the staleness window and the
/// refresh state (last refresh time and cached snapshot, both absent before
/// the first successful refresh).
pub struct CacheView {
    /// The staleness window in milliseconds.
    pub interval: u64,
    /// When the last successful refresh ran, if one has.
    pub last_refresh: Option<u64>,
    /// The snapshot that refresh captured, if one has run.
    pub snapshot: Option<Snapshot>,
}

/// The refresh state is consistent: the snapshot and its timestamp are set
/// together, and the stored snapshot carries the last refresh time.
pub open spec fn cache_wf(c: CacheView) -> bool {
    match (c.last_refresh, c.snapshot) {
        (Some(lr), Some(s)) => s.captured_at == lr,
        (None, None) => true,
        _ => false,
    }
}

/// A refresh is due: nothing has been captured yet, or the last capture is
/// at least one staleness window old.
pub open spec fn due(c: CacheView, now: u64) -> bool {
    match c.last_refresh {
        None => true,
        Some(lr) => now >= lr + c.interval,
    }
}

/// The cache state after committing a snapshot captured now.
pub open spec fn refreshed(c: CacheView, now: u64, data: SnapshotData) -> CacheView {
    CacheView {
        interval: c.interval,
        last_refresh: Some(now),
        snapshot: Some(Snapshot { captured_at: now, data }),
    }
}

/// One whole acquire as it runs once the lock has serialized the callers:
/// the next cache state, the result handed to the caller (the capture
/// timestamp of the snapshot to serve, or the provider's error), and
/// whether the provider ran. `capture` is what the provider would return
/// were it run.
pub open spec fn spec_acquire(c: CacheView, now: u64, capture: Result<SnapshotData, ProviderError>)
    -> (CacheView, Result<u64, ProviderError>, bool) {
    if !due(c, now) {
        (c, Ok(c.last_refresh->Some_0), false)
    } else {
        match capture {
            Ok(data) => (refreshed(c, now, data), Ok(now), true),
            Err(e) => (c, Err(e), true),
        }
    }
}

/// Owns the shared snapshot and bounds how often the provider runs. In a
/// concurrent host it lives behind a shared/exclusive lock; the lock
/// serializes the refresh path, and these methods are the steps each caller
/// takes under it.
#[derive(Debug)]
pub struct SnapshotCache {
    interval: u64,
    last_refresh: Option<u64>,
    snapshot: Option<Snapshot>,
}

impl View for SnapshotCache {
    type V = CacheView;

    closed spec fn view(&self) -> CacheView {
        CacheView {
            interval: self.interval,
            last_refresh: self.last_refresh,
            snapshot: self.snapshot,
        }
    }
}

impl SnapshotCache {
    /// An empty cache: nothing captured yet, so the first acquire refreshes.
    pub fn new(policy: CachePolicy) -> (r: Self)
        ensures
            r@.interval == policy.refresh_interval_millis,
            r@.last_refresh is None,
            r@.snapshot is None,
            cache_wf(r@),
    {
        SnapshotCache { interval: policy.refresh_interval_millis, last_refresh: None, snapshot: None }
    }

    /// The staleness window this cache was built with.
    pub fn refresh_interval_millis(&self) -> (r: u64)
        ensures
            r == self@.interval,
    {
        self.interval
    }

    /// The fast path, taken under the shared lock: if no refresh is due,
    /// the capture timestamp of the snapshot to serve; otherwise `None`,
    /// and the caller proceeds to the exclusive section.
    pub fn try_cached(&self, now: u64) -> (r: Option<u64>)
        requires
            cache_wf(self@),
        ensures
            due(self@, now) ==> r is None,
            !due(self@, now) ==> r == self@.last_refresh && self@.snapshot is Some,
    {
        match self.last_refresh {
            None => None,
            Some(lr) => {
                if now >= lr && now - lr >= self.interval {
                    None
                } else {
                    Some(lr)
                }
            }
        }
    }

    /// The re-check under the exclusive lock. This second check is
    /// mandatory, not an optimization: every caller that raced past the
    /// fast path lands here, and only one may still find a refresh due —
    /// the rest see the timestamp a racer just committed.
    pub fn begin_refresh(&self, now: u64) -> (r: Option<u64>)
        requires
            cache_wf(self@),
        ensures
            due(self@, now) ==> r is None,
            !due(self@, now) ==> r == self@.last_refresh && self@.snapshot is Some,
    {
        self.try_cached(now)
    }

    /// Commits a successful capture, still under the exclusive lock: the
    /// snapshot and its timestamp are replaced together. On a failed
    /// capture there is nothing to commit; the state is left as it was and
    /// the error goes to this caller alone.
    pub fn commit_refresh(&mut self, now: u64, data: SnapshotData)
        requires
            cache_wf(old(self)@),
        ensures
            final(self)@ == refreshed(old(self)@, now, data),
            cache_wf(final(self)@),
    {
        self.last_refresh = Some(now);
        self.snapshot = Some(Snapshot { captured_at: now, data });
    }

    /// When the last successful refresh ran, if one has.
    pub fn last_refresh_millis(&self) -> (r: Option<u64>)
        ensures
            r == self@.last_refresh,
    {
        self.last_refresh
    }

    /// Borrows the cached snapshot.
    pub fn current(&self) -> (r: &Snapshot)
        requires
            self@.snapshot is Some,
        ensures
            *r == self@.snapshot->Some_0,
    {
        self.snapshot.as_ref().unwrap()
    }

    /// One whole acquire, as it runs once the lock has serialized the
    /// callers: fast check, exclusive re-check, and — only if a refresh is
    /// still due — the provider's result is committed. `capture` stands for
    /// what the provider returns when it runs; the second component of the
    /// result says whether it was consumed.
    ///
    /// The returned timestamp is never more than one staleness window old,
    /// and the last refresh time never moves backwards.
    pub fn acquire_at(&mut self, now: u64, capture: Result<SnapshotData, ProviderError>)
        -> (r: (Result<u64, ProviderError>, bool))
        requires
            cache_wf(old(self)@),
        ensures
            cache_wf(final(self)@),
            (final(self)@, r.0, r.1) == spec_acquire(old(self)@, now, capture),
            // A served snapshot is fresh: captured now, or within the window.
            r.0 matches Ok(ts) ==> final(self)@.last_refresh == Some(ts)
                && final(self)@.snapshot is Some
                && final(self)@.snapshot->Some_0.captured_at == ts
                && (ts == now || ts + final(self)@.interval > now),
            // A failed refresh leaves the cached snapshot untouched.
            r.0 is Err ==> final(self)@ == old(self)@,
            // The last refresh time is monotone.
            old(self)@.last_refresh matches Some(lr) ==> final(self)@.last_refresh matches Some(lr2)
                && lr2 >= lr,
            final(self)@.interval == old(self)@.interval,
    {
        // Step 1: the cheap shared-lock check.
        if let Some(ts) = self.try_cached(now) {
            return (Ok(ts), false);
        }
        // Steps 2-3: enter the exclusive section and re-check.
        match self.begin_refresh(now) {
            Some(ts) => {
                // A racer refreshed while this caller waited for the lock.
                (Ok(ts), false)
            }
            None => {
                // Steps 4-5: still due, so this caller runs the provider.
                match capture {
                    Ok(data) => {
                        self.commit_refresh(now, data);
                        (Ok(now), true)
                    }
                    Err(e) => (Err(e), true),
                }
            }
        }
    }
}

/// What one caller does inside the exclusive section when its capture
/// succeeds: re-check, refresh if still due, and observe a timestamp.
/// Returns the next state, the observed timestamp, and whether the
/// provider ran.
pub open spec fn locked_step(c: CacheView, now: u64, data: SnapshotData) -> (CacheView, u64, bool) {
    if due(c, now) {
        (refreshed(c, now, data), now, true)
    } else {
        (c, c.last_refresh->Some_0, false)
    }
}

/// A batch of callers that the exclusive lock has serialized, all at the
/// same instant, each with a successful capture at hand: the final state,
/// the timestamp each caller observed, and how many captures ran.
pub open spec fn run_batch(c: CacheView, now: u64, datas: Seq<SnapshotData>)
    -> (CacheView, Seq<u64>, nat)
    decreases datas.len(),
{
    if datas.len() == 0 {
        (c, Seq::empty(), 0)
    } else {
        let first = locked_step(c, now, datas[0]);
        let rest = run_batch(first.0, now, datas.drop_first());
        (rest.0, seq![first.1] + rest.1, rest.2 + if first.2 { 1nat } else { 0nat })
    }
}

/// A locked step is exactly an acquire whose capture succeeds: the batch
/// semantics speak about the same transitions [`SnapshotCache::acquire_at`]
/// promises.
pub proof fn lemma_locked_step_is_acquire(c: CacheView, now: u64, data: SnapshotData)
    ensures
        ({
            let (c1, ts, ran) = locked_step(c, now, data);
            let (c2, r, ran2) = spec_acquire(c, now, Ok(data));
            c1 == c2 && r == Ok::<u64, ProviderError>(ts) && ran == ran2
        }),
{
}

/// While the snapshot is fresh, a batch of callers runs no capture at all,
/// leaves the cache as it is, and every caller observes the cached capture
/// timestamp.
pub proof fn lemma_fresh_batch_no_refresh(c: CacheView, now: u64, datas: Seq<SnapshotData>)
    requires
        cache_wf(c),
        !due(c, now),
    ensures
        ({
            let (c2, observed, captures) = run_batch(c, now, datas);
            c2 == c && captures == 0 && observed.len() == datas.len()
                && forall|i: int| 0 <= i < observed.len() ==> observed[i] == c.last_refresh->Some_0
        }),
    decreases datas.len(),
{
    if datas.len() > 0 {
        lemma_fresh_batch_no_refresh(c, now, datas.drop_first());
    }
}

/// Any number of callers racing past the fast path while the snapshot is
/// stale run the provider exactly once: the first into the exclusive
/// section refreshes, and the re-check stops all the others. Every caller
/// observes the same, just-captured timestamp.
pub proof fn lemma_refresh_storm(c: CacheView, now: u64, datas: Seq<SnapshotData>)
    requires
        cache_wf(c),
        due(c, now),
        c.interval > 0,
        datas.len() >= 1,
    ensures
        ({
            let (c2, observed, captures) = run_batch(c, now, datas);
            captures == 1 && observed.len() == datas.len()
                && (forall|i: int| 0 <= i < observed.len() ==> observed[i] == now)
                && c2.last_refresh == Some(now)
        }),
{
    let c1 = refreshed(c, now, datas[0]);
    assert(!due(c1, now));
    lemma_fresh_batch_no_refresh(c1, now, datas.drop_first());
}

/// With a zero refresh interval the cache is disabled: every caller in the
/// batch runs the provider.
pub proof fn lemma_zero_interval_always_captures(c: CacheView, now: u64, datas: Seq<SnapshotData>)
    requires
        cache_wf(c),
        c.interval == 0,
        c.last_refresh matches Some(lr) ==> lr <= now,
    ensures
        run_batch(c, now, datas).2 == datas.len(),
    decreases datas.len(),
{
    if datas.len() > 0 {
        let c1 = refreshed(c, now, datas[0]);
        lemma_zero_interval_always_captures(c1, now, datas.drop_first());
    }
}

/// Monotonic visibility: once an acquire serves a snapshot captured at
/// some instant, no acquire that starts afterwards serves an older
/// capture.
pub proof fn lemma_monotonic_visibility(
    c: CacheView,
    now1: u64,
    now2: u64,
    cap1: Result<SnapshotData, ProviderError>,
    cap2: Result<SnapshotData, ProviderError>,
)
    requires
        cache_wf(c),
        now1 <= now2,
    ensures
        ({
            let (c1, r1, ran1) = spec_acquire(c, now1, cap1);
            let (c2, r2, ran2) = spec_acquire(c1, now2, cap2);
            r1 matches Ok(ts1) ==> (r2 matches Ok(ts2) ==> ts2 >= ts1)
        }),
{
}

/// Acquire is idempotent within a staleness window: a second call that
/// falls inside the window of the snapshot the first call served returns
/// the identical capture timestamp, without running the provider.
pub proof fn lemma_acquire_idempotent(
    c: CacheView,
    now1: u64,
    now2: u64,
    cap1: Result<SnapshotData, ProviderError>,
    cap2: Result<SnapshotData, ProviderError>,
)
    requires
        cache_wf(c),
        spec_acquire(c, now1, cap1).1 matches Ok(ts1) && now2 < ts1 + c.interval,
    ensures
        ({
            let (c1, r1, ran1) = spec_acquire(c, now1, cap1);
            let (c2, r2, ran2) = spec_acquire(c1, now2, cap2);
            r2 == r1 && !ran2 && c2 == c1
        }),
{
}

} // verus!
