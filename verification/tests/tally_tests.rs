use monty_rs::tally::checked_reduce;
use monty_rs::tally::reduce_tallies;
use monty_rs::tally::ResultSet;
use monty_rs::tally::Results;

fn tally(sw: u64, sl: u64, tw: u64, tl: u64) -> Results {
    Results {
        switched: ResultSet { wins: sw, losses: sl },
        stayed: ResultSet { wins: tw, losses: tl },
    }
}

#[test]
fn default_tally_is_all_zero() {
    let r = Results::default();
    assert_eq!(r, tally(0, 0, 0, 0));
}

#[test]
fn combine_adds_field_wise() {
    let mut a = tally(1, 2, 3, 4);
    a.combine(&tally(10, 20, 30, 40));
    assert_eq!(a, tally(11, 22, 33, 44));
}

#[test]
fn try_combine_reports_overflow_and_leaves_tally_unchanged() {
    let mut a = tally(u64::MAX, 0, 0, 0);
    let ok = a.try_combine(&tally(1, 0, 0, 0));
    assert!(!ok);
    assert_eq!(a, tally(u64::MAX, 0, 0, 0));
    let ok2 = a.try_combine(&tally(0, 5, 6, 7));
    assert!(ok2);
    assert_eq!(a, tally(u64::MAX, 5, 6, 7));
}

#[test]
fn rates_are_defined_only_after_trials_under_both_strategies() {
    assert!(!Results::default().rates_defined());
    assert!(!tally(1, 2, 0, 0).rates_defined());
    assert!(!tally(0, 0, 1, 2).rates_defined());
    assert!(tally(0, 1, 1, 0).rates_defined());
    assert!(tally(3, 4, 5, 6).rates_defined());
}

#[test]
fn reduction_is_order_independent() {
    let a = tally(1, 2, 3, 4);
    let b = tally(10, 20, 30, 40);
    let c = tally(100, 200, 300, 400);
    let expected = tally(111, 222, 333, 444);
    let orders = [
        vec![a, b, c],
        vec![a, c, b],
        vec![b, a, c],
        vec![b, c, a],
        vec![c, a, b],
        vec![c, b, a],
    ];
    for parts in orders {
        assert_eq!(reduce_tallies(&parts), expected);
    }
}

#[test]
fn reduce_of_empty_batch_is_zero() {
    let parts: Vec<Results> = vec![];
    assert_eq!(reduce_tallies(&parts), Results::default());
}

#[test]
fn checked_reduce_detects_overflow() {
    let parts = vec![tally(u64::MAX, 0, 0, 0), tally(1, 0, 0, 0)];
    assert_eq!(checked_reduce(&parts), None);
    let fine = vec![tally(1, 2, 3, 4), tally(5, 6, 7, 8)];
    assert_eq!(checked_reduce(&fine), Some(tally(6, 8, 10, 12)));
}
