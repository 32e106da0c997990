//! The retry coordinator's decisions: after each classified attempt, stop
//! with the result or wait an exponentially growing interval and try again,
//! within a budget of elapsed time.

use vstd::prelude::*;
use crate::classify::{Classified, Failure};
use crate::error::{ClientError, permanent_error, spec_permanent_error};

verus! {

/// Thousandths in one: multipliers and jitter are given in thousandths.
pub const MILLE: u64 = 1000;

/// An exponential backoff schedule, all times in milliseconds.
#[derive(Clone, Copy, Debug, PartialEq, Eq)]
pub struct Schedule {
    /// The wait after the first failed attempt.
    pub base_ms: u64,
    /// The growth of the wait per attempt, in thousandths (1500 is 1.5).
    pub multiplier_mille: u32,
    /// The longest single wait.
    pub max_interval_ms: u64,
    /// The longest total wait.
    pub max_elapsed_ms: u64,
    /// How far a wait may be randomised either way, in thousandths.
    pub jitter_mille: u32,
}

/// The unrandomised interval after `n` growth steps, each rounded down.
pub open spec fn grown(base: nat, multiplier: nat, n: nat) -> nat
    decreases n,
{
    if n == 0 {
        base
    } else {
        grown(base, multiplier, (n - 1) as nat) * multiplier / 1000
    }
}

/// The interval after `n` growth steps scaled by `jitter` thousandths, and
/// capped at the schedule's longest wait.
pub open spec fn spec_interval(s: Schedule, n: nat, jitter: nat) -> nat {
    let v = grown(s.base_ms as nat, s.multiplier_mille as nat, n) * jitter / 1000;
    if v >= s.max_interval_ms { s.max_interval_ms as nat } else { v }
}

/// The jitter, in thousandths, that a random draw selects: evenly over
/// `1000 - jitter_mille ..= 1000 + jitter_mille`.
pub open spec fn spec_jitter(s: Schedule, random: u32) -> nat {
    (1000 - s.jitter_mille + (random as int) % (2 * s.jitter_mille + 1)) as nat
}

proof fn lemma_grown_monotone(base: nat, multiplier: nat, k: nat, n: nat)
    requires
        multiplier >= 1000,
        k <= n,
    ensures
        grown(base, multiplier, k) <= grown(base, multiplier, n),
    decreases n - k,
{
    if k < n {
        lemma_grown_monotone(base, multiplier, k, (n - 1) as nat);
        let g = grown(base, multiplier, (n - 1) as nat);
        assert(g * multiplier / 1000 >= g) by (nonlinear_arith)
            requires multiplier >= 1000;
    }
}

impl Schedule {
    /// Growth never shrinks a wait, and jitter stays within one either way.
    pub open spec fn wf(&self) -> bool {
        self.multiplier_mille >= 1000 && self.jitter_mille <= 1000
    }

    /// The wait after `n` growth steps, scaled by `jitter` thousandths.
    pub fn interval(&self, n: u32, jitter: u32) -> (r: u64)
        requires
            self.wf(),
            jitter <= 2000,
        ensures
            r as nat == spec_interval(*self, n as nat, jitter as nat),
    {
        let ghost base = self.base_ms as nat;
        let ghost m = self.multiplier_mille as nat;
        if jitter == 0 {
            assert(grown(base, m, n as nat) * 0 / 1000 == 0) by (nonlinear_arith);
            return 0;
        }
        let max: u128 = self.max_interval_ms as u128;
        let mut g: u128 = self.base_ms as u128;
        let mut k: u32 = 0;
        while k < n
            invariant
                self.wf(),
                1 <= jitter,
                k <= n,
                max == self.max_interval_ms,
                g as nat == grown(base, m, k as nat),
                g < 0x4000_0000_0000_0000_0000_0000_0000u128,
                m == self.multiplier_mille as nat,
                base == self.base_ms as nat,
                m >= 1000,
                jitter <= 2000,
            decreases n - k,
        {
            assert(g * (jitter as u128) <= 0xffff_ffff_ffff_ffff_ffff_ffff_ffff_ffffu128)
                by (nonlinear_arith)
                requires
                    g < 0x4000_0000_0000_0000_0000_0000_0000u128,
                    jitter <= 2000u32,
            ;
            let product: u128 = g * jitter as u128;
            assert(product == g * jitter);
            let scaled: u128 = product / 1000;
            if scaled >= max {
                proof {
                    lemma_grown_monotone(base, m, k as nat, n as nat);
                    let gn = grown(base, m, n as nat);
                    assert(gn * jitter / 1000 >= g * jitter / 1000) by (nonlinear_arith)
                        requires gn >= g;
                    assert(gn * jitter / 1000 >= max);
                    assert(spec_interval(*self, n as nat, jitter as nat) == self.max_interval_ms);
                }
                return self.max_interval_ms;
            }
            assert(g < 0x1_0000_0000_0000_0000_0000u128) by (nonlinear_arith)
                requires
                    g * jitter / 1000 < max,
                    max <= 0xffff_ffff_ffff_ffffu128,
                    jitter >= 1,
            ;
            assert(g * (self.multiplier_mille as u128) <= 0xffff_ffff_ffff_ffff_ffff_ffff_ffffu128)
                by (nonlinear_arith)
                requires
                    g < 0x1_0000_0000_0000_0000_0000u128,
                    self.multiplier_mille <= 0xffff_ffffu32,
            ;
            let product: u128 = g * self.multiplier_mille as u128;
            assert(product == g * m);
            g = product / 1000;
            assert(g < 0x4000_0000_0000_0000_0000_0000_0000u128) by (nonlinear_arith)
                requires
                    product <= 0xffff_ffff_ffff_ffff_ffff_ffff_ffffu128,
                    g == product / 1000,
            ;
            assert(grown(base, m, (k + 1) as nat) == grown(base, m, k as nat) * m / 1000);
            k = k + 1;
        }
        assert(g * (jitter as u128) <= 0xffff_ffff_ffff_ffff_ffff_ffff_ffff_ffffu128)
            by (nonlinear_arith)
            requires
                g < 0x4000_0000_0000_0000_0000_0000_0000u128,
                jitter <= 2000u32,
        ;
        let scaled: u128 = g * jitter as u128 / 1000;
        if scaled >= max {
            self.max_interval_ms
        } else {
            scaled as u64
        }
    }

    /// The jitter that `random` selects.
    pub fn jitter(&self, random: u32) -> (r: u32)
        requires
            self.wf(),
        ensures
            r as nat == spec_jitter(*self, random),
            1000 - self.jitter_mille <= r <= 1000 + self.jitter_mille,
    {
        let span: u32 = 2 * self.jitter_mille + 1;
        1000 - self.jitter_mille + random % span
    }
}

/// What the coordinator does after an attempt.
#[derive(Clone, Copy, Debug, PartialEq, Eq)]
pub enum Step {
    /// Return the attempt's payload.
    Succeeded,
    /// Stop with this error.
    Failed(ClientError),
    /// Wait this many milliseconds, then make the next attempt.
    Wait(u64),
}

/// The coordinator's record of one call: the attempts made and the time
/// waited so far, against its schedule and an optional deadline.
#[derive(Clone, Copy, Debug, PartialEq, Eq)]
pub struct Retry {
    pub schedule: Schedule,
    pub attempts: u32,
    pub elapsed_ms: u64,
    pub deadline_ms: Option<u64>,
}

/// The wait after a transient failure: the service's hint where it gave
/// one, else the schedule's interval for the attempts made so far.
pub open spec fn spec_wait(r: Retry, hint: Option<u64>, random: u32) -> nat {
    match hint {
        Some(h) => h as nat,
        None => spec_interval(r.schedule, r.attempts as nat, spec_jitter(r.schedule, random)),
    }
}

/// The coordinator's state and decision after an attempt classified `c`.
pub open spec fn stepped(r: Retry, c: Classified, hint: Option<u64>, random: u32) -> (Retry, Step) {
    let counted = Retry { attempts: if r.attempts < u32::MAX { (r.attempts + 1) as u32 } else { r.attempts }, ..r };
    match c {
        Classified::Success => (counted, Step::Succeeded),
        Classified::Permanent(f) => (counted, Step::Failed(spec_permanent_error(f))),
        Classified::Transient(f) => {
            let total = r.elapsed_ms + spec_wait(r, hint, random);
            if r.attempts == u32::MAX || total > r.schedule.max_elapsed_ms {
                (counted, Step::Failed(ClientError::RetryBudgetExhausted(f)))
            } else if r.deadline_ms.is_some() && total > r.deadline_ms.unwrap() {
                (counted, Step::Failed(ClientError::CancelledOrTimedOut))
            } else {
                (
                    Retry { elapsed_ms: total as u64, ..counted },
                    Step::Wait(spec_wait(r, hint, random) as u64),
                )
            }
        },
    }
}

impl Retry {
    /// A coordinator before its first attempt.
    pub fn new(schedule: Schedule, deadline_ms: Option<u64>) -> (r: Retry)
        ensures
            r == (Retry { schedule, attempts: 0, elapsed_ms: 0, deadline_ms }),
    {
        Retry { schedule, attempts: 0, elapsed_ms: 0, deadline_ms }
    }

    /// Records an attempt classified `c` and decides what follows: on
    /// success or a permanent failure, stop; on a transient one, wait the
    /// service's `retry_after` hint or the schedule's interval with the
    /// jitter that `random` selects, unless that wait would take the total
    /// past the schedule's budget or the deadline.
    pub fn on_outcome(&mut self, c: Classified, retry_after: Option<u64>, random: u32) -> (r: Step)
        requires
            old(self).schedule.wf(),
            old(self).elapsed_ms <= old(self).schedule.max_elapsed_ms,
        ensures
            final(self).schedule.wf(),
            final(self).elapsed_ms <= final(self).schedule.max_elapsed_ms,
            (*final(self), r) == stepped(*old(self), c, retry_after, random),
    {
        let before = self.attempts;
        if self.attempts < u32::MAX {
            self.attempts = self.attempts + 1;
        }
        match c {
            Classified::Success => Step::Succeeded,
            Classified::Permanent(f) => Step::Failed(permanent_error(f)),
            Classified::Transient(f) => {
                let wait: u64 = match retry_after {
                    Some(h) => h,
                    None => {
                        let j = self.schedule.jitter(random);
                        self.schedule.interval(before, j)
                    },
                };
                if before == u32::MAX || wait > self.schedule.max_elapsed_ms - self.elapsed_ms {
                    return Step::Failed(ClientError::RetryBudgetExhausted(f));
                }
                let total: u64 = self.elapsed_ms + wait;
                match self.deadline_ms {
                    Some(d) => {
                        if total > d {
                            return Step::Failed(ClientError::CancelledOrTimedOut);
                        }
                    },
                    None => {},
                }
                self.elapsed_ms = total;
                Step::Wait(wait)
            },
        }
    }
}

/// A call that fails transiently twice and then succeeds, under a schedule
/// without jitter whose budget covers both waits, succeeds at the third
/// attempt, after waiting the base interval and then the base interval
/// times the multiplier.
pub proof fn lemma_succeeds_at_third_attempt(
    s: Schedule,
    f1: Failure,
    f2: Failure,
    x1: u32,
    x2: u32,
    x3: u32,
)
    requires
        s.wf(),
        s.jitter_mille == 0,
        s.base_ms * s.multiplier_mille / 1000 <= s.max_interval_ms,
        s.base_ms <= s.max_interval_ms,
        s.base_ms + s.base_ms * s.multiplier_mille / 1000 <= s.max_elapsed_ms,
    ensures
        ({
            let r0 = Retry { schedule: s, attempts: 0, elapsed_ms: 0, deadline_ms: None };
            let (r1, st1) = stepped(r0, Classified::Transient(f1), None, x1);
            let (r2, st2) = stepped(r1, Classified::Transient(f2), None, x2);
            let (r3, st3) = stepped(r2, Classified::Success, None, x3);
            &&& st1 == Step::Wait(s.base_ms)
            &&& st2 == Step::Wait((s.base_ms * s.multiplier_mille / 1000) as u64)
            &&& st3 == Step::Succeeded
            &&& r3.attempts == 3
            &&& r3.elapsed_ms == s.base_ms + s.base_ms * s.multiplier_mille / 1000
        }),
{
    let base = s.base_ms as nat;
    let m = s.multiplier_mille as nat;
    assert(spec_jitter(s, x1) == 1000) by {
        assert((x1 as int) % 1 == 0);
    }
    assert(spec_jitter(s, x2) == 1000) by {
        assert((x2 as int) % 1 == 0);
    }
    assert(grown(base, m, 0) == base);
    assert(grown(base, m, 1) == base * m / 1000) by {
        assert(grown(base, m, 1) == grown(base, m, 0) * m / 1000);
    }
    assert(base * 1000 / 1000 == base) by (nonlinear_arith);
    let g1 = base * m / 1000;
    assert(g1 * 1000 / 1000 == g1) by (nonlinear_arith);
}

/// A permanent failure at the first attempt ends the call there, with no
/// wait, whatever the schedule.
pub proof fn lemma_permanent_stops_at_once(
    s: Schedule,
    f: Failure,
    deadline_ms: Option<u64>,
    hint: Option<u64>,
    random: u32,
)
    ensures
        ({
            let r0 = Retry { schedule: s, attempts: 0, elapsed_ms: 0, deadline_ms };
            let (r1, st) = stepped(r0, Classified::Permanent(f), hint, random);
            &&& st == Step::Failed(spec_permanent_error(f))
            &&& r1.attempts == 1
            &&& r1.elapsed_ms == 0
        }),
{
}

/// Where the budget is smaller than the waits before a third attempt, a
/// call that only ever fails transiently ends with the budget exhausted
/// after at most two attempts.
pub proof fn lemma_budget_ends_transient_run(
    s: Schedule,
    f1: Failure,
    f2: Failure,
    x1: u32,
    x2: u32,
)
    requires
        s.wf(),
        s.max_elapsed_ms < spec_interval(s, 0, spec_jitter(s, x1)) + spec_interval(
            s,
            1,
            spec_jitter(s, x2),
        ),
    ensures
        ({
            let r0 = Retry { schedule: s, attempts: 0, elapsed_ms: 0, deadline_ms: None };
            let (r1, st1) = stepped(r0, Classified::Transient(f1), None, x1);
            let (r2, st2) = stepped(r1, Classified::Transient(f2), None, x2);
            ||| (st1 == Step::Failed(ClientError::RetryBudgetExhausted(f1)) && r1.attempts == 1)
            ||| (st1 is Wait && st2 == Step::Failed(ClientError::RetryBudgetExhausted(f2))
                && r2.attempts == 2)
        }),
{
}

} // verus!
