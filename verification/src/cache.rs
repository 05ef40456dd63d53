//! TTL-bounded single-slot snapshot cache.
//!
//! The sequential logic (what a slot holds, when it is fresh, what a lookup
//! returns) lives in [`CacheState`] with exact contracts. [`SystemStatsCache`]
//! shares one `CacheState` between threads through vstd's verified
//! reader-writer lock: every value that enters the lock satisfies
//! [`CacheState::inv`], so a concurrent reader can only ever observe a whole,
//! internally consistent snapshot — never a torn or half-written one — and
//! always receives its own clone, decoupled from later replacements. Replaced
//! snapshots are reclaimed by ownership: moving a new value into the slot
//! drops the old one exactly once.

use crate::engine::{spec_breakdown, DeltaCpuEngine};
use crate::stats::{
    cpu_lines_model, lemma_equiv_preserves_wf, memory_model, sat_sub64, stats_equiv,
    zero_breakdown, StatsError, SystemStats,
};
use std::sync::Arc;
use vstd::prelude::*;
use vstd::rwlock::RwLock;

verus! {

/// Relies on `std::time::SystemTime::now` and `duration_since`: milliseconds
/// of wall-clock time since the Unix epoch. Nothing is assumed of the value;
/// a clock standing before the epoch reads as 0.
#[verifier::external_body]
fn now_millis() -> u64 {
    match std::time::SystemTime::now().duration_since(std::time::UNIX_EPOCH) {
        Ok(d) => d.as_millis() as u64,
        Err(_) => 0,
    }
}

/// The timestamp recorded for an update made at time `now`. The value 0 is
/// reserved to mean "never updated", so an update at clock reading 0 is
/// recorded as 1.
pub open spec fn spec_stamp(now: u64) -> u64 {
    if now == 0 {
        1
    } else {
        now
    }
}

/// The sequential contents of the cache: at most one snapshot, the time it
/// was installed, and the fixed time-to-live.
pub struct CacheState {
    slot: Option<SystemStats>,
    last_update: u64,
    ttl_millis: u64,
}

impl CacheState {
    /// The held snapshot, if any.
    pub closed spec fn spec_slot(self) -> Option<SystemStats> {
        self.slot
    }

    /// Milliseconds-since-epoch of the last update; 0 when never updated.
    pub closed spec fn spec_last_update(self) -> u64 {
        self.last_update
    }

    /// The staleness threshold in milliseconds.
    pub closed spec fn spec_ttl(self) -> u64 {
        self.ttl_millis
    }

    /// A timestamp is recorded exactly when a snapshot is held, and any held
    /// snapshot is internally consistent.
    pub open spec fn inv(self) -> bool {
        (self.spec_last_update() == 0 <==> self.spec_slot() is None) && (self.spec_slot()
            matches Some(s) ==> s.wf())
    }

    /// Is the held snapshot still within its time-to-live at time `now`?
    /// A clock that moved backwards counts as no elapsed time.
    pub open spec fn is_fresh(self, now: u64) -> bool {
        self.spec_last_update() != 0 && sat_sub64(now, self.spec_last_update()) <= self.spec_ttl()
    }

    /// What a lookup at time `now` yields: the held snapshot while fresh,
    /// nothing when empty or expired.
    pub open spec fn spec_lookup(self, now: u64) -> Option<SystemStats> {
        if self.is_fresh(now) {
            self.spec_slot()
        } else {
            None
        }
    }

    /// An empty cache with the given time-to-live.
    pub fn new(ttl_millis: u64) -> (c: Self)
        ensures
            c.inv(),
            c.spec_slot() is None,
            c.spec_last_update() == 0,
            c.spec_ttl() == ttl_millis,
    {
        CacheState { slot: None, last_update: 0, ttl_millis }
    }

    /// Look the snapshot up at time `now`, yielding a clone of it exactly
    /// when it is present and fresh.
    pub fn lookup(&self, now: u64) -> (r: Option<SystemStats>)
        requires
            self.inv(),
        ensures
            r is Some <==> self.is_fresh(now),
            r matches Some(s) ==> (self.spec_slot() matches Some(c) && stats_equiv(s, c)
                && s.wf()),
    {
        if self.last_update == 0 {
            return None;
        }
        let age = if now >= self.last_update {
            now - self.last_update
        } else {
            0
        };
        if age > self.ttl_millis {
            return None;
        }
        match &self.slot {
            Some(s) => {
                let c = s.clone();
                proof {
                    lemma_equiv_preserves_wf(c, *s);
                }
                Some(c)
            },
            None => {
                assert(false);
                None
            },
        }
    }

    /// Install `stats` as the current snapshot at time `now`, replacing (and
    /// thereby releasing) whatever was held before.
    pub fn store(&mut self, stats: SystemStats, now: u64)
        requires
            old(self).inv(),
            stats.wf(),
        ensures
            final(self).inv(),
            final(self).spec_slot() == Some(stats),
            final(self).spec_last_update() == spec_stamp(now),
            final(self).spec_ttl() == old(self).spec_ttl(),
    {
        self.slot = Some(stats);
        self.last_update = if now == 0 {
            1
        } else {
            now
        };
    }
}

/// Freshness law: a state just produced by an update at time `now` serves the
/// installed snapshot to every lookup within the time-to-live of the recorded
/// stamp, and nothing to any lookup past it.
pub proof fn lemma_update_then_lookup(c: CacheState, s: SystemStats, now: u64, t: u64)
    requires
        c.inv(),
        c.spec_slot() == Some(s),
        c.spec_last_update() == spec_stamp(now),
    ensures
        sat_sub64(t, spec_stamp(now)) <= c.spec_ttl() ==> c.spec_lookup(t) == Some(s),
        sat_sub64(t, spec_stamp(now)) > c.spec_ttl() ==> c.spec_lookup(t) is None,
{
}

/// Emptiness law: a cache that holds no snapshot yields nothing at any time.
pub proof fn lemma_empty_lookup(c: CacheState, t: u64)
    requires
        c.inv(),
        c.spec_slot() is None,
    ensures
        c.spec_lookup(t) is None,
{
}

/// What one collection cycle must have produced from the given readings and
/// the prior engine state: the snapshot's hostname, memory figures and CPU
/// breakdown are each a function of the inputs; only the capture time is the
/// clock's choice.
pub open spec fn collected_from(
    s: SystemStats,
    engine: DeltaCpuEngine,
    stat_text: Seq<u8>,
    meminfo_text: Seq<u8>,
    hostname: Seq<char>,
) -> bool {
    let model = cpu_lines_model(stat_text);
    let mem = memory_model(meminfo_text);
    &&& model.0 is Some
    &&& s.hostname@ == hostname
    &&& s.memory_total == mem.total
    &&& s.memory_used == mem.used
    &&& s.memory_available == mem.available
    &&& s.memory_cached == mem.cached
    &&& s.memory_free == mem.free
    &&& s.cpu_stats.core_count == model.1.len()
    &&& s.cpu_stats.per_core@.len() == model.1.len()
    &&& s.cpu_usage_centipercent == s.cpu_stats.overall.total_centipercent
    &&& (engine.is_primed() ==> s.cpu_stats.overall == spec_breakdown(
        engine.spec_prev_overall()->0,
        model.0->0,
    ))
    &&& (!engine.is_primed() ==> s.cpu_stats.overall == zero_breakdown())
    &&& (engine.is_primed() ==> (forall|i: int|
        0 <= i < model.1.len() ==> s.cpu_stats.per_core@[i] == (if i
            < engine.spec_prev_cores().len() {
            spec_breakdown(engine.spec_prev_cores()[i], model.1[i])
        } else {
            zero_breakdown()
        })))
    &&& (!engine.is_primed() ==> (forall|i: int|
        0 <= i < model.1.len() ==> s.cpu_stats.per_core@[i] == zero_breakdown()))
}

/// The predicate every value stored in the cache's lock satisfies: the
/// structural invariant, with the time-to-live the cache was created with.
pub open spec fn cache_pred(ttl_millis: u64) -> spec_fn(CacheState) -> bool {
    |c: CacheState| c.inv() && c.spec_ttl() == ttl_millis
}

/// Concurrent, process-wide snapshot cache: one [`CacheState`] behind vstd's
/// verified reader-writer lock. Readers never block each other; an update
/// replaces the slot's snapshot wholesale, so its predecessor is dropped
/// exactly once and no reader's clone is ever invalidated. A read takes the
/// shared side of the lock: it can briefly wait out a concurrent install's
/// write section (there is no verified lock-free cell to build on), but
/// recollection runs outside the lock, so readers never stall behind a
/// refresh.
pub struct SystemStatsCache {
    inner: RwLock<CacheState, spec_fn(CacheState) -> bool>,
    ttl: Ghost<u64>,
}

/// Shared handle to one cache instance.
pub type CacheRef = Arc<SystemStatsCache>;

impl SystemStatsCache {
    /// The staleness threshold this cache was created with, in milliseconds.
    pub closed spec fn spec_ttl(self) -> u64 {
        self.ttl@
    }

    /// The lock is governed by [`cache_pred`] at the configured threshold.
    pub closed spec fn wf(self) -> bool {
        self.inner.pred() == cache_pred(self.ttl@)
    }

    /// An empty cache whose snapshots stay valid for `ttl_millis`.
    pub fn new(ttl_millis: u64) -> (c: Self)
        ensures
            c.wf(),
            c.spec_ttl() == ttl_millis,
    {
        let state = CacheState::new(ttl_millis);
        assert(cache_pred(ttl_millis)(state));
        SystemStatsCache {
            inner: RwLock::new(state, Ghost(cache_pred(ttl_millis))),
            ttl: Ghost(ttl_millis),
        }
    }

    /// Read the cache at the current wall-clock time: a clone of the held
    /// snapshot while fresh, nothing when never populated or expired. Any
    /// returned snapshot is whole and internally consistent.
    pub fn get(&self) -> (r: Option<SystemStats>)
        requires
            self.wf(),
        ensures
            r matches Some(s) ==> s.wf(),
    {
        let now = now_millis();
        let handle = self.inner.acquire_read();
        let r = handle.borrow().lookup(now);
        handle.release_read();
        r
    }

    /// Unconditionally install `new_stats` as the current snapshot, stamped
    /// with the current wall-clock time. The replaced snapshot is released
    /// exactly once, by ownership.
    pub fn update(&self, new_stats: SystemStats)
        requires
            self.wf(),
            new_stats.wf(),
    {
        let now = now_millis();
        let (mut state, write_handle) = self.inner.acquire_write();
        state.store(new_stats, now);
        write_handle.release_write(state);
    }

    /// Serve from the cache while fresh; otherwise run one collection cycle
    /// over the supplied counter readings, install the result, and return it.
    ///
    /// Succeeds whenever the cache is fresh or the CPU counter text carries an
    /// aggregate line; the only error is the parser's, and a failed cycle
    /// leaves both the cache and the engine untouched. When a cycle did run
    /// (visible as a changed engine), the engine holds the parsed sample and
    /// the returned snapshot is pinned, field by field, to the supplied
    /// readings and the prior engine state (see [`collected_from`]).
    pub fn get_or_update(
        &self,
        engine: &mut DeltaCpuEngine,
        stat_text: &[u8],
        meminfo_text: &[u8],
        hostname: String,
    ) -> (r: Result<SystemStats, StatsError>)
        requires
            self.wf(),
        ensures
            r matches Ok(s) ==> s.wf(),
            cpu_lines_model(stat_text@).0 is Some ==> r is Ok,
            r matches Err(e) ==> (e matches StatsError::ParseError(m) && m@
                == "无法找到 CPU 统计信息"@ && cpu_lines_model(stat_text@).0 is None),
            cpu_lines_model(stat_text@).0 is None ==> *final(engine) == *old(engine),
            cpu_lines_model(stat_text@).0 matches Some(co) ==> (*final(engine) == *old(engine) || (
            final(engine).spec_prev_overall() == Some(co) && final(engine).spec_prev_cores()
                == cpu_lines_model(stat_text@).1)),
            r matches Ok(s) ==> (*final(engine) != *old(engine) ==> collected_from(
                s,
                *old(engine),
                stat_text@,
                meminfo_text@,
                hostname@,
            )),
    {
        if let Some(s) = self.get() {
            return Ok(s);
        }
        let (current_overall, current_per_core) = match crate::stats::parse_all_cpu_times(
            stat_text,
        ) {
            Ok(p) => p,
            Err(e) => {
                return Err(e);
            },
        };
        let cpu_stats = engine.compute(current_overall, current_per_core);
        let memory = crate::stats::parse_memory_info(meminfo_text);
        let now = now_millis();
        let snapshot = crate::stats::build_snapshot(hostname, cpu_stats, memory, now);
        let published = snapshot.clone();
        proof {
            lemma_equiv_preserves_wf(published, snapshot);
        }
        self.update(published);
        Ok(snapshot)
    }
}

/// Saturating conversion from seconds to milliseconds.
pub open spec fn secs_to_millis(s: u64) -> u64 {
    if s * 1000 > u64::MAX {
        u64::MAX
    } else {
        (s * 1000) as u64
    }
}

/// Shared cache whose snapshots stay valid for `ttl_seconds`.
pub fn create_cache(ttl_seconds: u64) -> (c: CacheRef)
    ensures
        c.wf(),
        c.spec_ttl() == secs_to_millis(ttl_seconds),
{
    let ttl_millis = if ttl_seconds > u64::MAX / 1000 {
        u64::MAX
    } else {
        ttl_seconds * 1000
    };
    Arc::new(SystemStatsCache::new(ttl_millis))
}

} // verus!
