//! The decisions of the 200 ms micro-benchmark loop: how many more rounds
//! of 64 calls to run before reading the clock again, and the figures
//! reported at the end.

use vstd::prelude::*;

verus! {

/// The time budget of one benchmark, in nanoseconds.
pub const BUDGET_NS: u64 = 200_000_000;

/// The number of rounds of 64 calls to run next, after `diff_ns`
/// nanoseconds were spent so far; `None` once the budget is exceeded. The
/// next batch is sized to fill about nine tenths of the remaining budget at
/// the pace seen so far, and is at least one round.
pub fn next_repeat(diff_ns: u64) -> (res: Option<u64>)
    requires
        diff_ns > 0,
    ensures
        diff_ns > BUDGET_NS ==> res is None,
        diff_ns <= BUDGET_NS ==> res == Some((1 + (BUDGET_NS - diff_ns) as u64 / diff_ns / 10 * 9) as u64),
{
    if diff_ns > BUDGET_NS {
        None
    } else {
        let remaining = BUDGET_NS - diff_ns;
        proof {
            assert(remaining / diff_ns <= remaining) by (nonlinear_arith)
                requires
                    diff_ns > 0,
            ;
        }
        Some(1 + remaining / diff_ns / 10 * 9)
    }
}

/// The figures reported for a benchmark.
#[derive(Copy, Clone, Debug, PartialEq, Eq, Structural)]
pub struct BenchReport {
    /// Average nanoseconds per call.
    pub avg_ns: u64,
    pub iterations: u64,
    /// Millions of calls per second.
    pub m_iter_per_sec: u64,
    /// Thousands of calls per second.
    pub k_iter_per_sec: u64,
}

/// The figures for `iterations` calls that took `diff_ns` nanoseconds in
/// all. The divisions need a positive call count and at least a millisecond.
pub fn report(diff_ns: u64, iterations: u64) -> (res: BenchReport)
    requires
        iterations > 0,
        diff_ns >= 1_000_000,
        1_000 * iterations <= u64::MAX,
    ensures
        res.avg_ns == diff_ns / iterations,
        res.iterations == iterations,
        res.m_iter_per_sec == (1_000 * iterations) as u64 / diff_ns,
        res.k_iter_per_sec == iterations / (diff_ns / 1_000_000),
{
    BenchReport {
        avg_ns: diff_ns / iterations,
        iterations,
        m_iter_per_sec: 1_000 * iterations / diff_ns,
        k_iter_per_sec: iterations / (diff_ns / 1_000_000),
    }
}

} // verus!
