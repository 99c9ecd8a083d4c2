//! The door set of one trial: a fixed-capacity vector of the `tinyvec` crate
//! holding the three door identifiers, from which the host removes one door.
//!
//! The set starts as `[0, 1, 2]`; during a trial the first door that is
//! neither the winning door nor the contestant's choice is removed, leaving
//! exactly two doors with the choice among them.  First-match removal is a
//! fixed policy of the engine, not a random tie-break.

use vstd::prelude::*;
use tinyvec::ArrayVec;

verus! {

#[verifier::external_type_specification]
#[verifier::external_body]
#[verifier::reject_recursive_types(A)]
pub struct ExArrayVec<A>(ArrayVec<A>);

/// The doors that an `ArrayVec` holds, in order.
pub uninterp spec fn doors_view(v: ArrayVec<[i8; 3]>) -> Seq<i8>;

/// Relies on `ArrayVec::from` (the `From<A>` impl): the vector holds the
/// whole array, in order, and a three-element array is within the `u16`
/// length limit, so the call does not panic.
#[verifier::external_body]
fn av_from_array(a: [i8; 3]) -> (v: ArrayVec<[i8; 3]>)
    ensures
        doors_view(v) == a@,
{
    ArrayVec::from(a)
}

/// Relies on `ArrayVec::len`: the number of elements held.
#[verifier::external_body]
fn av_len(v: &ArrayVec<[i8; 3]>) -> (n: usize)
    ensures
        n == doors_view(*v).len(),
{
    v.len()
}

/// Relies on the `Index` impl of `ArrayVec` (indexing into its slice): the
/// element at `i`, which is in bounds, so the call does not panic.
#[verifier::external_body]
fn av_get(v: &ArrayVec<[i8; 3]>, i: usize) -> (x: i8)
    requires
        i < doors_view(*v).len(),
    ensures
        x == doors_view(*v)[i as int],
{
    v[i]
}

/// Relies on `ArrayVec::remove`: the element at `i` is returned and the
/// elements after it shift down by one; `i` is in bounds, so the call does
/// not panic.
#[verifier::external_body]
fn av_remove(v: &mut ArrayVec<[i8; 3]>, i: usize) -> (x: i8)
    requires
        i < doors_view(*old(v)).len(),
    ensures
        x == doors_view(*old(v))[i as int],
        doors_view(*final(v)) == doors_view(*old(v)).remove(i as int),
{
    v.remove(i)
}

/// A door the host may open: neither the winning door nor the chosen one.
pub open spec fn is_eligible(door: i8, winning: i8, choice: i8) -> bool {
    door != winning && door != choice
}

/// The full door set at the start of a trial.
pub open spec fn all_doors() -> Seq<i8> {
    seq![0i8, 1i8, 2i8]
}

/// The position of the first door of `[0, 1, 2]` that the host opens: the
/// first one that is neither winning nor chosen.
pub open spec fn elim_index(winning: i8, choice: i8) -> int {
    if is_eligible(0, winning, choice) {
        0
    } else if is_eligible(1, winning, choice) {
        1
    } else {
        2
    }
}

/// The doors left after the host opens the first eligible one.
pub open spec fn remaining_doors(winning: i8, choice: i8) -> Seq<i8> {
    all_doors().remove(elim_index(winning, choice))
}

/// Door-elimination invariant: whatever the winning door and the initial
/// choice, opening the first eligible door leaves exactly two doors, and both
/// the initial choice and the winning door are still among them.
pub proof fn lemma_door_elimination(winning: i8, choice: i8)
    requires
        0 <= winning < 3,
        0 <= choice < 3,
    ensures
        remaining_doors(winning, choice).len() == 2,
        remaining_doors(winning, choice).contains(choice),
        remaining_doors(winning, choice).contains(winning),
        is_eligible(all_doors()[elim_index(winning, choice)], winning, choice),
{
    let e = elim_index(winning, choice);
    let r = remaining_doors(winning, choice);
    assert(r.len() == 2);
    if e == 0 {
        assert(r =~= seq![1i8, 2i8]);
        assert(r[0] == 1i8 && r[1] == 2i8);
    } else if e == 1 {
        assert(r =~= seq![0i8, 2i8]);
        assert(r[0] == 0i8 && r[1] == 2i8);
    } else {
        assert(r =~= seq![0i8, 1i8]);
        assert(r[0] == 0i8 && r[1] == 1i8);
    }
    assert(r.contains(choice)) by {
        if choice == r[0] {
        } else {
            assert(choice == r[1]);
        }
    }
    assert(r.contains(winning)) by {
        if winning == r[0] {
        } else {
            assert(winning == r[1]);
        }
    }
}

/// Build the door set `[0, 1, 2]` of a fresh trial.
pub fn new_doors() -> (v: ArrayVec<[i8; 3]>)
    ensures
        doors_view(v) == all_doors(),
{
    let v = av_from_array([0i8, 1i8, 2i8]);
    proof {
        assert(doors_view(v) =~= all_doors());
    }
    v
}

/// Open (remove) the first door that is neither winning nor chosen, as the
/// host of the puzzle does.  Exactly two doors remain, the choice among them.
pub fn eliminate_first_eligible(doors: &mut ArrayVec<[i8; 3]>, winning: i8, choice: i8) -> (removed:
    i8)
    requires
        doors_view(*old(doors)) == all_doors(),
        0 <= winning < 3,
        0 <= choice < 3,
    ensures
        doors_view(*final(doors)) == remaining_doors(winning, choice),
        removed == all_doors()[elim_index(winning, choice)],
        is_eligible(removed, winning, choice),
        doors_view(*final(doors)).len() == 2,
        doors_view(*final(doors)).contains(choice),
{
    proof {
        lemma_door_elimination(winning, choice);
    }
    let mut i: usize = 0;
    loop
        invariant
            doors_view(*doors) == all_doors(),
            0 <= winning < 3,
            0 <= choice < 3,
            0 <= i <= elim_index(winning, choice),
            forall|j: int| 0 <= j < i ==> !is_eligible(all_doors()[j], winning, choice),
        ensures
            doors_view(*doors) == all_doors(),
            i == elim_index(winning, choice),
        decreases 3 - i,
    {
        let d = av_get(doors, i);
        if d != winning && d != choice {
            assert(i == elim_index(winning, choice));
            break;
        }
        i = i + 1;
        assert(i <= elim_index(winning, choice));
    }
    let removed = av_remove(doors, i);
    proof {
        lemma_door_elimination(winning, choice);
    }
    removed
}

/// The first remaining door that differs from `choice`: the door a switching
/// contestant takes.
pub fn first_other_door(doors: &ArrayVec<[i8; 3]>, choice: i8) -> (d: i8)
    requires
        exists|j: int|
            0 <= j < doors_view(*doors).len() && doors_view(*doors)[j] != choice,
    ensures
        exists|j: int|
            {
                &&& 0 <= j < doors_view(*doors).len()
                &&& doors_view(*doors)[j] == d
                &&& d != choice
                &&& forall|k: int| 0 <= k < j ==> doors_view(*doors)[k] == choice
            },
{
    let ghost w = choose|j: int|
        0 <= j < doors_view(*doors).len() && doors_view(*doors)[j] != choice;
    let n = av_len(doors);
    let mut i: usize = 0;
    loop
        invariant
            exists|j: int|
                0 <= j < doors_view(*doors).len() && doors_view(*doors)[j] != choice,
            0 <= i <= doors_view(*doors).len(),
            forall|k: int| 0 <= k < i ==> doors_view(*doors)[k] == choice,
            n == doors_view(*doors).len(),
        decreases n - i,
    {
        proof {
            if i >= n {
                let j = choose|j: int|
                    0 <= j < doors_view(*doors).len() && doors_view(*doors)[j] != choice;
                assert(doors_view(*doors)[j] == choice);
            }
        }
        assert(i < n);
        let d = av_get(doors, i);
        if d != choice {
            return d;
        }
        i = i + 1;
    }
}

} // verus!
