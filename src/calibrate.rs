//! The timing calibrator: runs one algorithm in ever larger batches until one
//! batch gives a stable per-call latency or the time budget runs out.
use crate::sampling::SampleAlgorithm;
use rand::rngs::SmallRng;
use std::time::{Duration, Instant};
use vstd::prelude::*;

verus! {

/// The time budget of one calibration, in nanoseconds (half a second).
pub const BUDGET_NANOS: u64 = 500_000_000;

/// The largest budget-to-batch ratio by which a batch grows in proportion;
/// above it the batch only triples.
pub const GROWTH_CAP: u64 = 60;

/// What the calibrator does after a batch has been timed.
#[derive(PartialEq, Eq, Structural, Clone, Copy, Debug)]
pub enum CalibrationStep {
    /// Stop: the mean latency of one call, in nanoseconds.
    Finish(u64),
    /// Time another batch of `iterations` calls, with `remaining` nanoseconds
    /// of budget left.
    Repeat { iterations: u32, remaining: u64 },
}

/// `x` held to the range of `u32`.
pub open spec fn clamp_u32(x: int) -> u32 {
    if x > u32::MAX {
        u32::MAX
    } else {
        x as u32
    }
}

/// The next batch size after a batch of `iterations` calls took `t`
/// nanoseconds and left `rest` of the budget: in proportion to `rest / t`
/// (rounded down) where that ratio is at most [`GROWTH_CAP`], else three
/// times as large. The count stops growing at `u32::MAX`.
pub open spec fn grown(iterations: u32, rest: u64, t: u64) -> u32 {
    if t > 0 && rest <= GROWTH_CAP * t {
        clamp_u32(iterations * rest / t as int)
    } else {
        clamp_u32(iterations * 3)
    }
}

/// The calibrator's decision once a batch of `iterations` calls took `t`
/// nanoseconds with `remaining` nanoseconds of budget before it.
///
/// It stops with `t / iterations` when the batch overran the budget, or when
/// what is left after it is less than the batch took. Otherwise it repeats
/// with the budget reduced by `t` and the batch grown as [`grown`] says. A
/// batch that took no measurable time and can no longer grow also stops.
pub open spec fn step_of(iterations: u32, remaining: u64, t: u64) -> CalibrationStep {
    if remaining < t {
        CalibrationStep::Finish(t / iterations as u64)
    } else if remaining - t < t {
        CalibrationStep::Finish(t / iterations as u64)
    } else if t == 0 && iterations == u32::MAX {
        CalibrationStep::Finish(0)
    } else {
        CalibrationStep::Repeat {
            iterations: grown(iterations, (remaining - t) as u64, t),
            remaining: (remaining - t) as u64,
        }
    }
}

/// The decision after the batches that took the times `ts`, in order, from a
/// first batch of one call with the whole budget before it; `None` where a
/// decision before the last one already stopped.
pub open spec fn decision_after(ts: Seq<u64>) -> Option<CalibrationStep>
    decreases ts.len(),
{
    if ts.len() == 0 {
        Some(CalibrationStep::Repeat { iterations: 1, remaining: BUDGET_NANOS })
    } else {
        match decision_after(ts.drop_last()) {
            Some(CalibrationStep::Repeat { iterations, remaining }) => Some(
                step_of(iterations, remaining, ts.last()),
            ),
            _ => None,
        }
    }
}

/// `r` is what a calibration reports when its batches took the times `ts`:
/// every decision before the last batch said to repeat, the last batch ran
/// `r.iterations` calls in `r.batch_nanos`, and the decision on it stopped
/// with `r.per_call_nanos`.
pub open spec fn calibrated_by(ts: Seq<u64>, r: Calibration) -> bool {
    &&& ts.len() >= 1
    &&& ts.len() == r.batches
    &&& ts.last() == r.batch_nanos
    &&& match decision_after(ts.drop_last()) {
        Some(CalibrationStep::Repeat { iterations, remaining }) => iterations == r.iterations
            && step_of(iterations, remaining, r.batch_nanos) == CalibrationStep::Finish(
            r.per_call_nanos,
        ),
        _ => false,
    }
}

/// [`step_of`] at run time.
pub fn calibrate_step(iterations: u32, remaining: u64, t: u64) -> (r: CalibrationStep)
    requires
        iterations >= 1,
    ensures
        r == step_of(iterations, remaining, t),
        r matches CalibrationStep::Repeat { iterations: n, remaining: rest } ==> iterations <= n
            && rest <= remaining && (rest < remaining || iterations < n),
{
    if remaining < t {
        return CalibrationStep::Finish(t / iterations as u64);
    }
    let rest = remaining - t;
    if rest < t {
        return CalibrationStep::Finish(t / iterations as u64);
    }
    if t == 0 && iterations == u32::MAX {
        return CalibrationStep::Finish(0);
    }
    let wide: u128 = iterations as u128;
    let next: u128 = if t > 0 && rest as u128 <= GROWTH_CAP as u128 * t as u128 {
        assert(wide * rest <= u32::MAX * u64::MAX) by (nonlinear_arith)
            requires
                wide <= u32::MAX,
                rest <= u64::MAX,
        ;
        assert(wide * rest / (t as int) >= wide) by (nonlinear_arith)
            requires
                t > 0,
                rest >= t,
                wide >= 1,
        ;
        wide * rest as u128 / t as u128
    } else {
        wide * 3
    };
    let iterations_next: u32 = if next > u32::MAX as u128 {
        u32::MAX
    } else {
        next as u32
    };
    CalibrationStep::Repeat { iterations: iterations_next, remaining: rest }
}

/// The outcome of one calibration.
#[derive(PartialEq, Eq, Structural, Clone, Copy, Debug)]
pub struct Calibration {
    /// Mean latency of one call in the last batch, in nanoseconds.
    pub per_call_nanos: u64,
    /// Calls in the last batch.
    pub iterations: u32,
    /// Time the last batch took, in nanoseconds.
    pub batch_nanos: u64,
    /// Batches timed.
    pub batches: u64,
}

/// std's `Instant`, carried through the library as an opaque value.
#[verifier::external_type_specification]
#[verifier::external_body]
pub struct ExInstant(std::time::Instant);

/// Relies on `std::time::Instant::now`: a reading of the monotonic clock.
#[verifier::external_body]
fn clock_now() -> (r: Instant) {
    Instant::now()
}

/// Relies on `std::time::Instant::elapsed`: the time passed since `start`.
#[verifier::external_body]
fn elapsed_since(start: &Instant) -> (r: Duration) {
    start.elapsed()
}

/// Relies on `std::time::Duration::as_nanos`: the whole nanoseconds of `d`.
#[verifier::external_body]
fn nanos_of(d: Duration) -> (r: u128) {
    d.as_nanos()
}

/// Relies on `std::hint::black_box`: hands `v` to the optimizer as used, so
/// that the calls that filled it cannot be left out.
#[verifier::external_body]
fn keep_observable(v: &[u32]) {
    std::hint::black_box(v);
}

/// Nanoseconds since `start`, held at `u64::MAX`.
fn nanos_since(start: &Instant) -> (r: u64) {
    let n = nanos_of(elapsed_since(start));
    if n > u64::MAX as u128 {
        u64::MAX
    } else {
        n as u64
    }
}

/// A bound on the batches a calibration can still time with `remaining`
/// budget and batches of `iterations` calls: each batch that does not stop
/// lowers the budget or grows the batch.
pub open spec fn progress_left(remaining: u64, iterations: u32) -> int {
    remaining * 0x1_0000_0000 + (u32::MAX - iterations)
}

/// Estimates the latency of one call of `alg` at domain size `length` and
/// sample count `amount`, drawing from the caller's generator `rng`.
///
/// The first batch is one call. Each batch runs its calls back to back on one
/// reused buffer, keeps each result observable, and is timed as a whole;
/// [`calibrate_step`] then decides on the timing alone whether to stop and
/// how large the next batch is. A first batch that alone takes more than half
/// the budget ends the calibration.
///
/// The clock decides the batch times, so the result is stated over them: it
/// is what [`calibrated_by`] says for some sequence of batch times.
pub fn time_test<A: SampleAlgorithm>(
    alg: &A,
    rng: &mut SmallRng,
    length: u32,
    amount: u32,
) -> (r: Calibration)
    requires
        amount <= length,
    ensures
        r.iterations >= 1,
        r.per_call_nanos == r.batch_nanos / r.iterations as u64,
        r.batches >= 1,
        r.batches == 1 ==> r.iterations == 1 && BUDGET_NANOS < 2 * r.batch_nanos,
        r.batch_nanos > 0 || r.iterations == u32::MAX,
        r.iterations <= r.batch_nanos ==> r.per_call_nanos > 0,
        exists|ts: Seq<u64>| #[trigger] calibrated_by(ts, r),
{
    let mut v: Vec<u32> = vec![0u32; amount as usize];
    let mut iterations: u32 = 1;
    let mut remaining: u64 = BUDGET_NANOS;
    let mut batches: u64 = 0;
    let ghost ts: Seq<u64> = Seq::empty();
    loop
        invariant
            v@.len() == amount as nat,
            amount <= length,
            iterations >= 1,
            batches == 0 ==> iterations == 1 && remaining == BUDGET_NANOS,
            ts.len() == batches,
            decision_after(ts) == Some(CalibrationStep::Repeat { iterations, remaining }),
            batches + progress_left(remaining, iterations) <= progress_left(BUDGET_NANOS, 1),
        decreases remaining, u32::MAX - iterations,
    {
        let start = clock_now();
        let mut j: u32 = 0;
        while j < iterations
            invariant
                v@.len() == amount as nat,
                amount <= length,
                j <= iterations,
            decreases iterations - j,
        {
            alg.generate(rng, length, v.as_mut_slice());
            keep_observable(v.as_slice());
            j = j + 1;
        }
        let t = nanos_since(&start);
        batches = batches + 1;
        let ghost before = ts;
        proof {
            ts = ts.push(t);
            assert(ts.drop_last() =~= before);
        }
        match calibrate_step(iterations, remaining, t) {
            CalibrationStep::Finish(per_call) => {
                let r = Calibration { per_call_nanos: per_call, iterations, batch_nanos: t, batches };
                assert(calibrated_by(ts, r));
                assert(iterations <= t ==> t / iterations as u64 >= 1) by (nonlinear_arith)
                    requires
                        iterations >= 1,
                ;
                return r;
            },
            CalibrationStep::Repeat { iterations: next, remaining: rest } => {
                iterations = next;
                remaining = rest;
            },
        }
    }
}

} // verus!
