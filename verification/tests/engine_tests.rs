use monty_rs::engine::MontyHall;
use monty_rs::rng::XorShiftSource;
use monty_rs::tally::Results;

use rand_core::RngCore;
use rand_core::SeedableRng;
use rand_xorshift::XorShiftRng;

fn total_of(r: &Results) -> u64 {
    r.switched.wins + r.switched.losses + r.stayed.wins + r.stayed.losses
}

#[test]
fn single_trial_matches_raw_xorshift_stream() {
    // The engine must replay exactly the stream of the underlying generator:
    // switching wins iff the drawn winning door is not door 0.
    let mut raw = XorShiftRng::seed_from_u64(123);
    let mut monty = MontyHall::new_with_rng(XorShiftSource::new(123));
    for i in 0..200u32 {
        let winning = raw.next_u32() % 3;
        let switch = i % 2 == 0;
        let won = monty.play_single(switch);
        let expected = if switch { winning != 0 } else { winning == 0 };
        assert_eq!(won, expected, "trial {} diverged from the raw stream", i);
    }
}

#[test]
fn single_trial_is_deterministic_for_equal_seeds() {
    let mut a = MontyHall::new_with_rng(XorShiftSource::new(42));
    let mut b = MontyHall::new_with_rng(XorShiftSource::new(42));
    for _ in 0..100 {
        assert_eq!(a.play_single(true), b.play_single(true));
    }
    let mut c = MontyHall::new_with_rng(XorShiftSource::new(42));
    let mut d = MontyHall::new_with_rng(XorShiftSource::new(42));
    for _ in 0..100 {
        assert_eq!(c.play_single(false), d.play_single(false));
    }
}

#[test]
fn sequential_run_accounts_for_even_trimmed_total() {
    for n in [0u64, 1, 2, 3, 7, 10, 101, 1000] {
        let mut monty = MontyHall::new_with_rng(XorShiftSource::new(7));
        let results = monty.play_multiple(n);
        assert_eq!(total_of(&results), 2 * (n / 2));
        assert_eq!(results.switched.wins + results.switched.losses, n / 2);
        assert_eq!(results.stayed.wins + results.stayed.losses, n / 2);
    }
}

#[test]
fn sequential_run_is_deterministic_for_equal_seeds() {
    let mut a = MontyHall::new_with_rng(XorShiftSource::new(9));
    let mut b = MontyHall::new_with_rng(XorShiftSource::new(9));
    assert_eq!(a.play_multiple(10_000), b.play_multiple(10_000));
}

#[test]
fn boundary_zero_and_one_trials_yield_all_zero_tally() {
    let mut monty = MontyHall::default();
    let r0 = monty.play_multiple(0);
    assert_eq!(total_of(&r0), 0);
    let r1 = monty.play_multiple(1);
    assert_eq!(total_of(&r1), 0);
    assert_eq!(r1.switched.wins, 0);
    assert_eq!(r1.switched.losses, 0);
    assert_eq!(r1.stayed.wins, 0);
    assert_eq!(r1.stayed.losses, 0);
}

#[test]
fn million_trials_converge_to_the_classical_rates() {
    let mut monty = MontyHall::default();
    let results = monty.play_multiple(1_000_000);
    let switched = results.switched.wins as f64
        / (results.switched.wins + results.switched.losses) as f64;
    let stayed =
        results.stayed.wins as f64 / (results.stayed.wins + results.stayed.losses) as f64;
    assert!((switched - 0.6667).abs() < 0.005, "switch rate {} too far", switched);
    assert!((stayed - 0.3333).abs() < 0.005, "stay rate {} too far", stayed);
}

#[test]
fn switching_and_staying_outcomes_are_complementary() {
    // On the same draw, exactly one of the two strategies wins.
    let mut a = MontyHall::new_with_rng(XorShiftSource::new(5));
    let mut b = MontyHall::new_with_rng(XorShiftSource::new(5));
    for _ in 0..300 {
        let switch_won = a.play_single(true);
        let stay_won = b.play_single(false);
        assert_ne!(switch_won, stay_won);
    }
}
