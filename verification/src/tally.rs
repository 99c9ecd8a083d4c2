//! The aggregate data model: win/loss counters per strategy, and the
//! order-independent reduction that merges partial tallies.

use vstd::prelude::*;

verus! {

/// Win and loss counters for one strategy.
#[derive(Clone, Copy, Debug, PartialEq, Eq, Structural)]
pub struct ResultSet {
    pub wins: u64,
    pub losses: u64,
}

/// Aggregate win/loss counters for the two strategies of a run: one set for
/// trials that switched doors, one for trials that stayed.
#[derive(Clone, Copy, Debug, PartialEq, Eq, Structural)]
pub struct Results {
    pub switched: ResultSet,
    pub stayed: ResultSet,
}

/// The mathematical model of a `Results` value: four unbounded counters.
pub ghost struct TallySpec {
    pub switched_wins: nat,
    pub switched_losses: nat,
    pub stayed_wins: nat,
    pub stayed_losses: nat,
}

impl View for Results {
    type V = TallySpec;

    open spec fn view(&self) -> TallySpec {
        TallySpec {
            switched_wins: self.switched.wins as nat,
            switched_losses: self.switched.losses as nat,
            stayed_wins: self.stayed.wins as nat,
            stayed_losses: self.stayed.losses as nat,
        }
    }
}

/// The tally of a run that executed no trials.
pub open spec fn zero_tally() -> TallySpec {
    TallySpec { switched_wins: 0, switched_losses: 0, stayed_wins: 0, stayed_losses: 0 }
}

/// Field-wise addition of two tallies.
pub open spec fn add_tally(a: TallySpec, b: TallySpec) -> TallySpec {
    TallySpec {
        switched_wins: a.switched_wins + b.switched_wins,
        switched_losses: a.switched_losses + b.switched_losses,
        stayed_wins: a.stayed_wins + b.stayed_wins,
        stayed_losses: a.stayed_losses + b.stayed_losses,
    }
}

/// How many trials a tally accounts for.
pub open spec fn total_trials(t: TallySpec) -> nat {
    t.switched_wins + t.switched_losses + t.stayed_wins + t.stayed_losses
}

/// Every counter of the tally fits a 64-bit machine word.
pub open spec fn tally_fits(t: TallySpec) -> bool {
    &&& t.switched_wins <= u64::MAX
    &&& t.switched_losses <= u64::MAX
    &&& t.stayed_wins <= u64::MAX
    &&& t.stayed_losses <= u64::MAX
}

/// Field-wise comparison of two tallies.
pub open spec fn tally_le(a: TallySpec, b: TallySpec) -> bool {
    &&& a.switched_wins <= b.switched_wins
    &&& a.switched_losses <= b.switched_losses
    &&& a.stayed_wins <= b.stayed_wins
    &&& a.stayed_losses <= b.stayed_losses
}

impl Default for Results {
    /// A fresh, all-zero tally.
    fn default() -> (r: Self)
        ensures
            r@ == zero_tally(),
    {
        Results {
            switched: ResultSet { wins: 0, losses: 0 },
            stayed: ResultSet { wins: 0, losses: 0 },
        }
    }
}

impl Results {
    /// Add another tally into this one, field by field.
    pub fn combine(&mut self, other: &Results)
        requires
            tally_fits(add_tally(old(self)@, other@)),
        ensures
            final(self)@ == add_tally(old(self)@, other@),
    {
        self.switched.wins = self.switched.wins + other.switched.wins;
        self.switched.losses = self.switched.losses + other.switched.losses;
        self.stayed.wins = self.stayed.wins + other.stayed.wins;
        self.stayed.losses = self.stayed.losses + other.stayed.losses;
    }

    /// Are the win rates of both strategies defined, i.e. did each strategy
    /// execute at least one trial?  A caller must not derive a rate from a
    /// tally for which this is false: the ratio would be a division by zero.
    pub fn rates_defined(&self) -> (ok: bool)
        ensures
            ok == (self@.switched_wins + self@.switched_losses > 0 && self@.stayed_wins
                + self@.stayed_losses > 0),
    {
        (self.switched.wins > 0 || self.switched.losses > 0) && (self.stayed.wins > 0
            || self.stayed.losses > 0)
    }

    /// Add another tally into this one if no counter overflows; report
    /// whether the addition fits, leaving this tally unchanged when not.
    pub fn try_combine(&mut self, other: &Results) -> (ok: bool)
        ensures
            ok == tally_fits(add_tally(old(self)@, other@)),
            ok ==> final(self)@ == add_tally(old(self)@, other@),
            !ok ==> *final(self) == *old(self),
    {
        if self.switched.wins <= u64::MAX - other.switched.wins
            && self.switched.losses <= u64::MAX - other.switched.losses
            && self.stayed.wins <= u64::MAX - other.stayed.wins
            && self.stayed.losses <= u64::MAX - other.stayed.losses {
            self.combine(other);
            true
        } else {
            false
        }
    }
}

/// Combining tallies is commutative: merging two partial tallies gives the
/// same result in either order.
pub proof fn lemma_add_tally_commutative(a: TallySpec, b: TallySpec)
    ensures
        add_tally(a, b) == add_tally(b, a),
{
}

/// Combining tallies is associative: a three-way merge does not depend on
/// which pair is merged first.
pub proof fn lemma_add_tally_associative(a: TallySpec, b: TallySpec, c: TallySpec)
    ensures
        add_tally(add_tally(a, b), c) == add_tally(a, add_tally(b, c)),
{
}

/// Reducing three partial tallies gives an identical result in every one of
/// the six possible orders, so the parallel reduction does not depend on the
/// order in which workers complete.
pub proof fn lemma_reduce_order_independent(a: TallySpec, b: TallySpec, c: TallySpec)
    ensures
        add_tally(add_tally(a, b), c) == add_tally(add_tally(a, c), b),
        add_tally(add_tally(a, b), c) == add_tally(add_tally(b, a), c),
        add_tally(add_tally(a, b), c) == add_tally(add_tally(b, c), a),
        add_tally(add_tally(a, b), c) == add_tally(add_tally(c, a), b),
        add_tally(add_tally(a, b), c) == add_tally(add_tally(c, b), a),
{
}

/// The left-to-right sum of a batch of tallies.
pub open spec fn sum_tallies(s: Seq<TallySpec>) -> TallySpec
    decreases s.len(),
{
    if s.len() == 0 {
        zero_tally()
    } else {
        add_tally(sum_tallies(s.drop_last()), s.last())
    }
}

/// The models of a batch of `Results` values.
pub open spec fn tallies_of(s: Seq<Results>) -> Seq<TallySpec> {
    s.map(|i: int, r: Results| r@)
}

/// Extending a prefix sum by one element adds that element.
pub proof fn lemma_sum_tallies_take_step(s: Seq<TallySpec>, i: int)
    requires
        0 <= i < s.len(),
    ensures
        sum_tallies(s.take(i + 1)) == add_tally(sum_tallies(s.take(i)), s[i]),
{
    assert(s.take(i + 1).drop_last() =~= s.take(i));
    assert(s.take(i + 1).last() == s[i]);
}

/// A prefix sum never exceeds the full sum in any field.
pub proof fn lemma_sum_tallies_prefix_le(s: Seq<TallySpec>, i: int)
    requires
        0 <= i <= s.len(),
    ensures
        tally_le(sum_tallies(s.take(i)), sum_tallies(s)),
    decreases s.len() - i,
{
    if i == s.len() {
        assert(s.take(i) =~= s);
    } else {
        lemma_sum_tallies_prefix_le(s, i + 1);
        lemma_sum_tallies_take_step(s, i);
    }
}

/// Merge a batch of partial tallies into one, field by field.  The result is
/// the sum of the batch; no partial tally is dropped or counted twice.
pub fn reduce_tallies(parts: &Vec<Results>) -> (total: Results)
    requires
        tally_fits(sum_tallies(tallies_of(parts@))),
    ensures
        total@ == sum_tallies(tallies_of(parts@)),
{
    let mut total = Results::default();
    let mut i: usize = 0;
    while i < parts.len()
        invariant
            0 <= i <= parts@.len(),
            total@ == sum_tallies(tallies_of(parts@).take(i as int)),
            tally_fits(sum_tallies(tallies_of(parts@))),
        decreases parts@.len() - i,
    {
        proof {
            lemma_sum_tallies_take_step(tallies_of(parts@), i as int);
            lemma_sum_tallies_prefix_le(tallies_of(parts@), i as int + 1);
        }
        total.combine(&parts[i]);
        i = i + 1;
    }
    proof {
        assert(tallies_of(parts@).take(parts@.len() as int) =~= tallies_of(parts@));
    }
    total
}

/// Merge a batch of partial tallies into one, field by field, checking for
/// overflow: `None` exactly when the sum of the batch does not fit the 64-bit
/// counters, `Some` of the sum otherwise.
pub fn checked_reduce(parts: &Vec<Results>) -> (total: Option<Results>)
    ensures
        total is Some <==> tally_fits(sum_tallies(tallies_of(parts@))),
        total matches Some(t) ==> t@ == sum_tallies(tallies_of(parts@)),
{
    let mut total = Results::default();
    let mut i: usize = 0;
    while i < parts.len()
        invariant
            0 <= i <= parts@.len(),
            total@ == sum_tallies(tallies_of(parts@).take(i as int)),
        decreases parts@.len() - i,
    {
        proof {
            lemma_sum_tallies_take_step(tallies_of(parts@), i as int);
        }
        let ok = total.try_combine(&parts[i]);
        if !ok {
            proof {
                lemma_sum_tallies_prefix_le(tallies_of(parts@), i as int + 1);
            }
            return None;
        }
        i = i + 1;
    }
    proof {
        assert(tallies_of(parts@).take(parts@.len() as int) =~= tallies_of(parts@));
    }
    Some(total)
}

} // verus!
