//! The decisions of the parallel runner: how a trial budget is split across
//! workers, and what the reduced tally of a parallel run accounts for.
//!
//! The runner gives each of `workers` workers `total / workers` trials and
//! drops the remainder, mirroring the sequential half-split policy.  Each
//! worker owns an independent engine and source and produces a partial tally;
//! the coordinator merges the partial tallies with `reduce_tallies`, whose
//! field-wise addition is commutative and associative, so the result does not
//! depend on the order in which workers complete.

use vstd::prelude::*;
use vstd::arithmetic::div_mod::lemma_basic_div;
use crate::engine::run_tally;
use crate::engine::lemma_short_run_zero;
use crate::tally::TallySpec;
use crate::tally::add_tally;
use crate::tally::sum_tallies;
use crate::tally::total_trials;
use crate::tally::zero_tally;

verus! {

/// The trial share each of `workers` workers receives from a budget of
/// `total` trials; the remainder, at most `workers - 1` trials, is dropped.
pub fn split_trials(total: u64, workers: u64) -> (per: u64)
    requires
        1 <= workers,
    ensures
        per == total / workers,
{
    total / workers
}

/// Summing worker tallies that each account for the same number of trials
/// accounts for exactly that number times the worker count.
pub proof fn lemma_uniform_sum_total(parts: Seq<TallySpec>, per: nat)
    requires
        forall|i: int| 0 <= i < parts.len() ==> total_trials(#[trigger] parts[i]) == per,
    ensures
        total_trials(sum_tallies(parts)) == parts.len() * per,
    decreases parts.len(),
{
    if parts.len() == 0 {
        assert(parts.len() * per == 0);
    } else {
        lemma_uniform_sum_total(parts.drop_last(), per);
        assert((parts.len() - 1) * per + per == parts.len() * per) by (nonlinear_arith);
    }
}

/// A parallel run of `n` trials over `w` workers accounts for exactly
/// `w * (n / w)` trials: each worker receives `n / w` trials and, when that
/// share is even, plays all of them.  (An odd share loses one trial per
/// worker to the sequential half split.)
pub proof fn lemma_parallel_accounting(parts: Seq<TallySpec>, n: u64, w: u64)
    requires
        1 <= w,
        parts.len() == w,
        (n / w) % 2 == 0,
        forall|i: int|
            0 <= i < parts.len() ==> total_trials(#[trigger] parts[i]) == 2 * (((n / w) / 2) as nat),
    ensures
        total_trials(sum_tallies(parts)) == w * ((n / w) as nat),
{
    lemma_uniform_sum_total(parts, 2 * (((n / w) / 2) as nat));
    assert(2 * ((n / w) / 2) == n / w);
}

/// The combined tally of workers that each ran `per` trials from identically
/// seeded sources accounts for the per-worker even-trimmed total times the
/// worker count.
pub proof fn lemma_identical_workers(f: spec_fn(nat) -> u32, per: u64, parts: Seq<TallySpec>)
    requires
        forall|i: int| 0 <= i < parts.len() ==> #[trigger] parts[i] == run_tally(f, 0, per),
    ensures
        total_trials(sum_tallies(parts)) == parts.len() * (2 * ((per / 2) as nat)),
{
    crate::engine::lemma_sequential_accounting(f, 0, per);
    lemma_uniform_sum_total(parts, 2 * ((per / 2) as nat));
}

/// A parallel run is independent of the order in which workers complete:
/// however two runs of the same worker set arrange their partial tallies,
/// the reduced tally is the same.
pub proof fn lemma_parallel_schedule_independent(
    f: spec_fn(nat) -> u32,
    per: u64,
    parts1: Seq<TallySpec>,
    parts2: Seq<TallySpec>,
)
    requires
        parts1.len() == parts2.len(),
        forall|i: int| 0 <= i < parts1.len() ==> #[trigger] parts1[i] == run_tally(f, 0, per),
        forall|i: int| 0 <= i < parts2.len() ==> #[trigger] parts2[i] == run_tally(f, 0, per),
    ensures
        sum_tallies(parts1) == sum_tallies(parts2),
{
    assert(parts1 =~= parts2);
}

/// Summing all-zero worker tallies gives the all-zero tally.
pub proof fn lemma_sum_zero_tallies(parts: Seq<TallySpec>)
    requires
        forall|i: int| 0 <= i < parts.len() ==> #[trigger] parts[i] == zero_tally(),
    ensures
        sum_tallies(parts) == zero_tally(),
    decreases parts.len(),
{
    if parts.len() > 0 {
        lemma_sum_zero_tallies(parts.drop_last());
        assert(add_tally(zero_tally(), zero_tally()) == zero_tally());
    }
}

/// With more workers than trials, each worker's share is zero, every worker
/// returns the all-zero tally, and so does the whole run: no crash, no work.
pub proof fn lemma_more_workers_than_trials(f: spec_fn(nat) -> u32, start: nat, n: u64, w: u64)
    requires
        1 <= w,
        n < w,
    ensures
        n / w == 0,
        run_tally(f, start, n / w) == zero_tally(),
{
    lemma_basic_div(n as int, w as int);
    lemma_short_run_zero(f, start, n / w);
}

} // verus!
