//! Token-bucket rate limiting per service category and for all services.
//!
//! Time is given in milliseconds by the caller; capacity is counted in
//! thousandths of a permit, so that a rate in permits per second refills
//! exactly `rate` thousandths per millisecond.

use vstd::prelude::*;

verus! {

/// Thousandths of a permit in one permit.
pub const PERMIT: u64 = 1000;

/// The services whose calls are counted, and the category of all of them.
#[derive(Clone, Copy, Debug, PartialEq, Eq)]
pub enum Api {
    All,
    Directions,
    Elevation,
    Geocoding,
    Places,
    TimeZone,
}

/// Number of categories.
pub const CATEGORIES: usize = 6;

impl Api {
    pub open spec fn spec_index(self) -> int {
        match self {
            Api::All => 0,
            Api::Directions => 1,
            Api::Elevation => 2,
            Api::Geocoding => 3,
            Api::Places => 4,
            Api::TimeZone => 5,
        }
    }

    /// The slot of this category in a limiter.
    pub fn index(self) -> (r: usize)
        ensures
            r as int == self.spec_index(),
            r < CATEGORIES,
    {
        match self {
            Api::All => 0,
            Api::Directions => 1,
            Api::Elevation => 2,
            Api::Geocoding => 3,
            Api::Places => 4,
            Api::TimeZone => 5,
        }
    }
}

/// A token bucket: up to `capacity` permits, refilled at `rate` permits per
/// second.
#[derive(Clone, Copy, Debug, PartialEq, Eq)]
pub struct Bucket {
    pub capacity: u32,
    pub rate: u32,
    /// Thousandths of a permit at hand.
    pub available: u64,
    /// The time of the last refill, in milliseconds.
    pub last_ms: u64,
}

/// The bucket after lazy refill at time `now`: what has accrued since the
/// last refill, up to capacity.
pub open spec fn refilled(b: Bucket, now: u64) -> Bucket {
    if now <= b.last_ms {
        b
    } else {
        let full = b.capacity * PERMIT;
        let grown = b.available + b.rate * (now - b.last_ms);
        Bucket { available: if grown >= full { full as u64 } else { grown as u64 }, last_ms: now, ..b }
    }
}

/// Milliseconds until a bucket short of one permit holds one.
pub open spec fn wait_for(b: Bucket) -> u64 {
    if b.available >= PERMIT {
        0
    } else if b.rate == 0 {
        u64::MAX
    } else {
        ((PERMIT - b.available + b.rate - 1) / (b.rate as int)) as u64
    }
}

/// One acquisition at time `now`: the bucket afterwards, and whether a
/// permit was granted.
pub open spec fn acquired(b: Bucket, now: u64) -> (Bucket, bool) {
    let r = refilled(b, now);
    if r.available >= PERMIT {
        (Bucket { available: (r.available - PERMIT) as u64, ..r }, true)
    } else {
        (r, false)
    }
}

/// Acquisitions at the given times, in order: the bucket afterwards, and the
/// number of permits granted.
pub open spec fn acquired_all(b: Bucket, times: Seq<u64>) -> (Bucket, nat)
    decreases times.len(),
{
    if times.len() == 0 {
        (b, 0)
    } else {
        let (before, granted) = acquired_all(b, times.drop_last());
        let (after, ok) = acquired(before, times.last());
        (after, if ok { granted + 1 } else { granted })
    }
}

impl Bucket {
    pub open spec fn wf(&self) -> bool {
        self.available <= self.capacity * PERMIT
    }

    /// A full bucket, last refilled at `now`.
    pub fn new(capacity: u32, rate: u32, now: u64) -> (r: Bucket)
        ensures
            r.wf(),
            r == (Bucket { capacity, rate, available: (capacity * PERMIT) as u64, last_ms: now }),
    {
        Bucket { capacity, rate, available: capacity as u64 * PERMIT, last_ms: now }
    }

    /// Adds what has accrued since the last refill, up to capacity.
    pub fn refill(&mut self, now: u64)
        requires
            old(self).wf(),
        ensures
            final(self).wf(),
            *final(self) == refilled(*old(self), now),
    {
        if now > self.last_ms {
            let full: u64 = self.capacity as u64 * PERMIT;
            let elapsed: u64 = now - self.last_ms;
            assert((self.rate as u128) * (elapsed as u128) <= 0x1_0000_0000_0000_0000_0000_0000u128)
                by (nonlinear_arith)
                requires
                    self.rate <= 0xffff_ffffu32,
                    elapsed <= 0xffff_ffff_ffff_ffffu64,
            ;
            let gain: u128 = self.rate as u128 * elapsed as u128;
            let room: u64 = full - self.available;
            if gain >= room as u128 {
                self.available = full;
            } else {
                self.available = self.available + gain as u64;
            }
            self.last_ms = now;
        }
    }

    /// Milliseconds until this bucket holds one permit (`u64::MAX` where it
    /// never refills).
    pub fn wait_ms(&self) -> (r: u64)
        requires
            self.wf(),
        ensures
            r == wait_for(*self),
    {
        if self.available >= PERMIT {
            0
        } else if self.rate == 0 {
            u64::MAX
        } else {
            let need: u64 = PERMIT - self.available;
            (need + self.rate as u64 - 1) / self.rate as u64
        }
    }

    /// Refills at `now`, then takes one permit if there is one.
    pub fn try_acquire(&mut self, now: u64) -> (r: bool)
        requires
            old(self).wf(),
        ensures
            final(self).wf(),
            (*final(self), r) == acquired(*old(self), now),
    {
        self.refill(now);
        if self.available >= PERMIT {
            self.available = self.available - PERMIT;
            true
        } else {
            false
        }
    }
}

/// A bucket slot after refill at `now`; an empty slot has no limit.
pub open spec fn slot_refilled(o: Option<Bucket>, now: u64) -> Option<Bucket> {
    match o {
        Some(b) => Some(refilled(b, now)),
        None => None,
    }
}

/// Whether a slot can give a permit.
pub open spec fn slot_ready(o: Option<Bucket>) -> bool {
    match o {
        Some(b) => b.available >= PERMIT,
        None => true,
    }
}

/// A slot after one permit is taken from it.
pub open spec fn slot_taken(o: Option<Bucket>) -> Option<Bucket> {
    match o {
        Some(b) => Some(Bucket { available: (b.available - PERMIT) as u64, ..b }),
        None => None,
    }
}

/// Milliseconds until a slot can give a permit.
pub open spec fn slot_wait(o: Option<Bucket>) -> u64 {
    match o {
        Some(b) => wait_for(b),
        None => 0,
    }
}

pub open spec fn slot_wf(o: Option<Bucket>) -> bool {
    match o {
        Some(b) => b.wf(),
        None => true,
    }
}

/// The buckets of every category, shared by all requests of a client.
#[derive(Clone, Debug)]
pub struct RateLimiter {
    buckets: Vec<Option<Bucket>>,
}

impl RateLimiter {
    /// One slot per category, indexed by `Api::spec_index`.
    pub closed spec fn view(&self) -> Seq<Option<Bucket>> {
        self.buckets@
    }

    pub open spec fn wf(&self) -> bool {
        &&& self@.len() == CATEGORIES
        &&& forall|i: int| 0 <= i < CATEGORIES ==> #[trigger] slot_wf(self@[i])
    }

    /// A limiter that limits nothing.
    pub fn new() -> (r: RateLimiter)
        ensures
            r.wf(),
            forall|i: int| 0 <= i < CATEGORIES ==> r@[i].is_none(),
    {
        let mut buckets: Vec<Option<Bucket>> = Vec::new();
        let mut i: usize = 0;
        while i < CATEGORIES
            invariant
                i <= CATEGORIES,
                buckets@.len() == i,
                forall|j: int| 0 <= j < i ==> buckets@[j].is_none(),
            decreases CATEGORIES - i,
        {
            buckets.push(None);
            i = i + 1;
        }
        RateLimiter { buckets }
    }

    /// Limits `api` to `capacity` permits at once, refilled at `rate` per
    /// second from `now`.
    pub fn with_rate(&mut self, api: Api, capacity: u32, rate: u32, now: u64)
        requires
            old(self).wf(),
        ensures
            final(self).wf(),
            final(self)@ == old(self)@.update(
                api.spec_index(),
                Some(Bucket { capacity, rate, available: (capacity * PERMIT) as u64, last_ms: now }),
            ),
    {
        let b = Bucket::new(capacity, rate, now);
        let i = api.index();
        self.buckets.set(i, Some(b));
        assert forall|j: int| 0 <= j < CATEGORIES implies #[trigger] slot_wf(self@[j]) by {
            if j != i as int {
                assert(self@[j] == old(self)@[j]);
            }
        }
    }

    fn refill_slot(&mut self, i: usize, now: u64)
        requires
            old(self).wf(),
            i < CATEGORIES,
        ensures
            final(self).wf(),
            final(self)@ == old(self)@.update(i as int, slot_refilled(old(self)@[i as int], now)),
    {
        if let Some(mut b) = self.buckets[i] {
            assert(slot_wf(self@[i as int]));
            b.refill(now);
            self.buckets.set(i, Some(b));
        } else {
            assert(self@ =~= old(self)@.update(i as int, slot_refilled(old(self)@[i as int], now)));
        }
        assert forall|j: int| 0 <= j < CATEGORIES implies #[trigger] slot_wf(self@[j]) by {
            if j != i as int {
                assert(self@[j] == old(self)@[j]);
            }
        }
    }

    fn take_slot(&mut self, i: usize)
        requires
            old(self).wf(),
            i < CATEGORIES,
            slot_ready(old(self)@[i as int]),
        ensures
            final(self).wf(),
            final(self)@ == old(self)@.update(i as int, slot_taken(old(self)@[i as int])),
    {
        if let Some(b) = self.buckets[i] {
            assert(slot_wf(self@[i as int]));
            let t = Bucket { available: b.available - PERMIT, ..b };
            self.buckets.set(i, Some(t));
        } else {
            assert(self@ =~= old(self)@.update(i as int, slot_taken(old(self)@[i as int])));
        }
        assert forall|j: int| 0 <= j < CATEGORIES implies #[trigger] slot_wf(self@[j]) by {
            if j != i as int {
                assert(self@[j] == old(self)@[j]);
            }
        }
    }

    fn slot_wait_ms(&self, i: usize) -> (r: u64)
        requires
            self.wf(),
            i < CATEGORIES,
        ensures
            r == slot_wait(self@[i as int]),
    {
        match self.buckets[i] {
            Some(b) => {
                assert(slot_wf(self@[i as int]));
                b.wait_ms()
            },
            None => 0,
        }
    }

    /// Refills the buckets of `api` and of all services at `now`; where both
    /// hold a permit, takes one from each and returns `Ok`, else takes
    /// nothing and returns the milliseconds to wait before trying again.
    pub fn try_acquire(&mut self, api: Api, now: u64) -> (r: Result<(), u64>)
        requires
            old(self).wf(),
        ensures
            final(self).wf(),
            ({
                let a = api.spec_index();
                let all = slot_refilled(old(self)@[0], now);
                let own = slot_refilled(old(self)@[a], now);
                let refreshed = old(self)@.update(0, all).update(a, own);
                &&& r.is_ok() <==> (slot_ready(all) && slot_ready(own))
                &&& r.is_ok() ==> final(self)@ == refreshed.update(0, slot_taken(all)).update(
                    a,
                    if a == 0 { slot_taken(all) } else { slot_taken(own) },
                )
                &&& r.is_err() ==> final(self)@ == refreshed && r == Err::<(), u64>(
                    if slot_wait(all) >= slot_wait(own) { slot_wait(all) } else { slot_wait(own) },
                )
            }),
    {
        let a = api.index();
        self.refill_slot(0, now);
        if a != 0 {
            self.refill_slot(a, now);
        }
        let ready_all = match self.buckets[0] {
            Some(b) => b.available >= PERMIT,
            None => true,
        };
        let ready_own = match self.buckets[a] {
            Some(b) => b.available >= PERMIT,
            None => true,
        };
        if ready_all && ready_own {
            self.take_slot(0);
            if a != 0 {
                self.take_slot(a);
            }
            Ok(())
        } else {
            let wa = self.slot_wait_ms(0);
            let wo = self.slot_wait_ms(a);
            Err(if wa >= wo { wa } else { wo })
        }
    }
}

/// Over any run of acquisitions at times up to `t_end`, each permit granted
/// was either in the bucket at the start or accrued at `rate` since its last
/// refill: with no time elapsed at most `capacity` permits are granted, and
/// granting `n` permits beyond capacity takes at least `(n - capacity) / rate`.
pub proof fn lemma_grants_bounded(b: Bucket, times: Seq<u64>, t_end: u64)
    requires
        b.wf(),
        b.last_ms <= t_end,
        forall|i: int| 0 <= i < times.len() ==> times[i] <= t_end,
    ensures
        acquired_all(b, times).1 * PERMIT <= b.available + b.rate * (t_end - b.last_ms),
        acquired_all(b, times).1 * PERMIT <= b.capacity * PERMIT + b.rate * (t_end - b.last_ms),
        t_end == b.last_ms ==> acquired_all(b, times).1 <= b.capacity,
{
    lemma_grants_invariant(b, times, t_end);
    let (after, g) = acquired_all(b, times);
    assert(b.rate * (after.last_ms - b.last_ms) <= b.rate * (t_end - b.last_ms))
        by (nonlinear_arith)
        requires
            after.last_ms <= t_end,
            b.last_ms <= after.last_ms,
    ;
    if t_end == b.last_ms {
        assert(b.rate * (t_end - b.last_ms) == 0) by (nonlinear_arith)
            requires t_end == b.last_ms;
        assert(g <= b.capacity) by (nonlinear_arith)
            requires g * 1000 <= b.capacity * 1000;
    }
}

proof fn lemma_grants_invariant(b: Bucket, times: Seq<u64>, t_end: u64)
    requires
        b.wf(),
        b.last_ms <= t_end,
        forall|i: int| 0 <= i < times.len() ==> times[i] <= t_end,
    ensures
        acquired_all(b, times).0.wf(),
        acquired_all(b, times).0.capacity == b.capacity,
        acquired_all(b, times).0.rate == b.rate,
        b.last_ms <= acquired_all(b, times).0.last_ms <= t_end,
        acquired_all(b, times).1 * PERMIT + acquired_all(b, times).0.available
            <= b.available + b.rate * (acquired_all(b, times).0.last_ms - b.last_ms),
    decreases times.len(),
{
    if times.len() > 0 {
        let prefix = times.drop_last();
        assert forall|i: int| 0 <= i < prefix.len() implies prefix[i] <= t_end by {
            assert(prefix[i] == times[i]);
        }
        lemma_grants_invariant(b, prefix, t_end);
        let (before, g) = acquired_all(b, prefix);
        let now = times.last();
        assert(now == times[times.len() - 1]);
        let r = refilled(before, now);
        if now > before.last_ms {
            assert(r.available <= before.available + before.rate * (now - before.last_ms));
            assert(b.rate * (now - b.last_ms) == b.rate * (before.last_ms - b.last_ms) + b.rate * (
            now - before.last_ms)) by (nonlinear_arith);
        }
    }
}

} // verus!
