//! The trial engine and the sequential runner.
//!
//! One trial simulates a single round of the three-door puzzle: a random
//! winning door is drawn, the contestant's initial pick is always door 0, the
//! host opens the first door that is neither winning nor picked, and the
//! contestant either switches to the one remaining other door or stays.  A
//! sequential run splits its trial budget into two equal halves, the first
//! played switching and the second staying, and tallies wins and losses; an
//! odd trial is dropped, not executed under either strategy.

use vstd::prelude::*;
use crate::doors::doors_view;
use crate::doors::eliminate_first_eligible;
use crate::doors::first_other_door;
use crate::doors::new_doors;
use crate::rng::RandomSource;
use crate::rng::XorShiftSource;
use crate::rng::xorshift_outputs;
use crate::tally::Results;
use crate::tally::TallySpec;
use crate::tally::total_trials;
use crate::tally::zero_tally;

verus! {

/// Did a trial win, given the winning door and the strategy?  The initial
/// pick is always door 0, so staying wins exactly when door 0 wins, and
/// switching wins exactly when it does not: the host's elimination leaves
/// precisely one other door, and that door wins whenever door 0 loses.
pub open spec fn trial_outcome(winning: i8, switch_doors: bool) -> bool {
    if switch_doors {
        winning != 0
    } else {
        winning == 0
    }
}

/// The winning door selected by one raw 32-bit draw.
pub open spec fn drawn_door(r: u32) -> i8 {
    (r % 3) as i8
}

/// Did a trial driven by the raw draw `r` win, under the given strategy?
pub open spec fn trial_won(r: u32, switch_doors: bool) -> bool {
    trial_outcome(drawn_door(r), switch_doors)
}

/// How many of the `count` trials fed by the stream values at positions
/// `start .. start + count` win, under the given strategy.
pub open spec fn wins_in(f: spec_fn(nat) -> u32, start: nat, count: nat, switch_doors: bool) -> nat
    decreases count,
{
    if count == 0 {
        0
    } else {
        wins_in(f, start, (count - 1) as nat, switch_doors) + if trial_won(
            f((start + count - 1) as nat),
            switch_doors,
        ) {
            1nat
        } else {
            0nat
        }
    }
}

/// No more trials win than are played.
pub proof fn lemma_wins_in_le(f: spec_fn(nat) -> u32, start: nat, count: nat, switch_doors: bool)
    ensures
        wins_in(f, start, count, switch_doors) <= count,
    decreases count,
{
    if count > 0 {
        lemma_wins_in_le(f, start, (count - 1) as nat, switch_doors);
    }
}

/// The tally of a sequential run of `iterations` trials starting at position
/// `start` of the stream `f`: the first `iterations / 2` trials switch, the
/// next `iterations / 2` stay, and an odd remainder trial is dropped.
pub open spec fn run_tally(f: spec_fn(nat) -> u32, start: nat, iterations: u64) -> TallySpec {
    let half = (iterations / 2) as nat;
    TallySpec {
        switched_wins: wins_in(f, start, half, true),
        switched_losses: (half - wins_in(f, start, half, true)) as nat,
        stayed_wins: wins_in(f, start + half, half, false),
        stayed_losses: (half - wins_in(f, start + half, half, false)) as nat,
    }
}

/// For every trial count, the four counters of a sequential run sum to
/// exactly `2 * (iterations / 2)`: the even-trimmed total is fully accounted
/// for, no trial is lost or counted twice.
pub proof fn lemma_sequential_accounting(f: spec_fn(nat) -> u32, start: nat, iterations: u64)
    ensures
        total_trials(run_tally(f, start, iterations)) == 2 * ((iterations / 2) as nat),
{
    let half = (iterations / 2) as nat;
    lemma_wins_in_le(f, start, half, true);
    lemma_wins_in_le(f, start + half, half, false);
}

/// A run of zero or one trials executes nothing: both halves are empty and
/// the tally is all zero, not an error.
pub proof fn lemma_short_run_zero(f: spec_fn(nat) -> u32, start: nat, iterations: u64)
    requires
        iterations < 2,
    ensures
        run_tally(f, start, iterations) == zero_tally(),
{
    assert(iterations / 2 == 0);
}

/// The trial engine and sequential runner, generic over its random source.
pub struct MontyHall<R> {
    rng: R,
}

impl<R: RandomSource> MontyHall<R> {
    /// The stream of the engine's random source.
    pub closed spec fn source_outputs(&self) -> spec_fn(nat) -> u32 {
        self.rng.outputs()
    }

    /// The position of the engine's random source inside its stream.
    pub closed spec fn source_pos(&self) -> nat {
        self.rng.pos()
    }

    /// An engine that owns the given random source.
    pub fn new_with_rng(rng: R) -> (m: Self)
        ensures
            m.source_outputs() == rng.outputs(),
            m.source_pos() == rng.pos(),
    {
        MontyHall { rng }
    }

    /// Play a single trial: draw the winning door, open the first eligible
    /// door, switch or stay, and report whether the final pick wins.  The
    /// outcome is a pure function of the source's stream and position, which
    /// advances by exactly one draw.
    pub fn play_single(&mut self, switch_doors: bool) -> (won: bool)
        ensures
            final(self).source_outputs() == old(self).source_outputs(),
            final(self).source_pos() == old(self).source_pos() + 1,
            won == trial_won((old(self).source_outputs())(old(self).source_pos()), switch_doors),
    {
        let mut doors = new_doors();
        let r = self.rng.next_u32();
        let correct_door: i8 = (r % 3) as i8;
        let choice: i8 = 0;
        let _removed = eliminate_first_eligible(&mut doors, correct_door, choice);
        proof {
            if correct_door == 0 {
                assert(doors_view(doors) =~= seq![0i8, 2i8]);
            } else if correct_door == 1 {
                assert(doors_view(doors) =~= seq![0i8, 1i8]);
            } else {
                assert(doors_view(doors) =~= seq![0i8, 2i8]);
            }
        }
        let mut picked: i8 = choice;
        if switch_doors {
            assert(doors_view(doors)[1] != choice);
            picked = first_other_door(&doors, choice);
            assert(picked == doors_view(doors)[1]);
        }
        picked == correct_door
    }

    /// Play `iterations` trials: the first `iterations / 2` switching, the
    /// next `iterations / 2` staying; an odd remainder trial is dropped.  The
    /// tally is a pure function of the source's stream and position, and the
    /// source advances by exactly one draw per executed trial.
    pub fn play_multiple(&mut self, iterations: u64) -> (results: Results)
        ensures
            final(self).source_outputs() == old(self).source_outputs(),
            final(self).source_pos() == old(self).source_pos() + 2 * ((iterations / 2) as nat),
            results@ == run_tally(old(self).source_outputs(), old(self).source_pos(), iterations),
    {
        let half = iterations / 2;
        let ghost f = self.source_outputs();
        let ghost p0 = self.source_pos();
        let mut results = Results::default();
        let mut k: u64 = 0;
        while k < half
            invariant
                self.source_outputs() == f,
                self.source_pos() == p0 + k,
                k <= half,
                results.switched.wins == wins_in(f, p0, k as nat, true),
                results.switched.losses == k - results.switched.wins,
                results.stayed.wins == 0,
                results.stayed.losses == 0,
            decreases half - k,
        {
            proof {
                lemma_wins_in_le(f, p0, k as nat, true);
            }
            let won = self.play_single(true);
            if won {
                results.switched.wins = results.switched.wins + 1;
            } else {
                results.switched.losses = results.switched.losses + 1;
            }
            k = k + 1;
        }
        let ghost half_n = half as nat;
        let mut k2: u64 = 0;
        while k2 < half
            invariant
                self.source_outputs() == f,
                self.source_pos() == p0 + half_n + k2,
                half_n == half,
                k2 <= half,
                results.switched.wins == wins_in(f, p0, half_n, true),
                results.switched.losses == half - results.switched.wins,
                results.stayed.wins == wins_in(f, p0 + half_n, k2 as nat, false),
                results.stayed.losses == k2 - results.stayed.wins,
            decreases half - k2,
        {
            proof {
                lemma_wins_in_le(f, p0 + half_n, k2 as nat, false);
            }
            let won = self.play_single(false);
            if won {
                results.stayed.wins = results.stayed.wins + 1;
            } else {
                results.stayed.losses = results.stayed.losses + 1;
            }
            k2 = k2 + 1;
        }
        proof {
            lemma_wins_in_le(f, p0, half_n, true);
            lemma_wins_in_le(f, p0 + half_n, half_n, false);
        }
        results
    }
}

impl Default for MontyHall<XorShiftSource> {
    /// The default engine: a xorshift source seeded with 0, so that every
    /// default engine replays the identical stream of trials.
    fn default() -> (m: Self)
        ensures
            m.source_outputs() == xorshift_outputs(0),
            m.source_pos() == 0,
    {
        MontyHall::new_with_rng(XorShiftSource::new(0))
    }
}

} // verus!
