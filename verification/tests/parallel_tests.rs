use monty_rs::engine::MontyHall;
use monty_rs::parallel::split_trials;
use monty_rs::rng::XorShiftSource;
use monty_rs::tally::reduce_tallies;
use monty_rs::tally::Results;

fn total_of(r: &Results) -> u64 {
    r.switched.wins + r.switched.losses + r.stayed.wins + r.stayed.losses
}

fn worker_tallies(n: u64, w: u64) -> Vec<Results> {
    // Each worker owns a fresh, identically seeded source, as the parallel
    // runner builds them.
    let per = split_trials(n, w);
    let mut parts = Vec::new();
    for _ in 0..w {
        let mut monty = MontyHall::new_with_rng(XorShiftSource::new(0));
        parts.push(monty.play_multiple(per));
    }
    parts
}

#[test]
fn split_drops_the_remainder() {
    assert_eq!(split_trials(10, 3), 3);
    assert_eq!(split_trials(9, 3), 3);
    assert_eq!(split_trials(2, 3), 0);
    assert_eq!(split_trials(0, 4), 0);
    assert_eq!(split_trials(7, 1), 7);
}

#[test]
fn parallel_total_is_workers_times_share() {
    for (n, w) in [(1000u64, 4u64), (999, 7), (12, 5), (100, 1)] {
        let parts = worker_tallies(n, w);
        let total = reduce_tallies(&parts);
        assert_eq!(total_of(&total), w * 2 * ((n / w) / 2));
        // With an even per-worker share, that is exactly w * (n / w).
        if (n / w) % 2 == 0 {
            assert_eq!(total_of(&total), w * (n / w));
        }
    }
}

#[test]
fn parallel_run_is_independent_of_completion_order() {
    let n = 4000u64;
    let w = 4u64;
    let forward = worker_tallies(n, w);
    let mut backward = worker_tallies(n, w);
    backward.reverse();
    assert_eq!(reduce_tallies(&forward), reduce_tallies(&backward));
}

#[test]
fn more_workers_than_trials_yields_all_zero_tally() {
    let parts = worker_tallies(5, 8);
    for p in &parts {
        assert_eq!(total_of(p), 0);
    }
    let total = reduce_tallies(&parts);
    assert_eq!(total, Results::default());
}
