use approx_host::stdio::{DupStep, StdioDups};

#[test]
fn three_duplicates_become_the_standard_streams() {
    let mut dups = StdioDups::new();
    assert!(matches!(dups.record(5), DupStep::Duplicate));
    assert!(matches!(dups.record(6), DupStep::Duplicate));
    assert!(matches!(dups.record(7), DupStep::Ready(5, 6, 7)));
}

#[test]
fn failure_on_first_duplicate_releases_nothing() {
    let mut dups = StdioDups::new();
    match dups.record(-1) {
        DupStep::Abandon(v) => assert_eq!(Vec::<i32>::new(), v),
        _ => panic!("expected the attempt to be abandoned"),
    }
}

#[test]
fn failure_on_third_duplicate_releases_the_first_two() {
    let mut dups = StdioDups::new();
    assert!(matches!(dups.record(3), DupStep::Duplicate));
    assert!(matches!(dups.record(4), DupStep::Duplicate));
    match dups.record(-1) {
        DupStep::Abandon(v) => assert_eq!(vec![3, 4], v),
        _ => panic!("expected the attempt to be abandoned"),
    }
}

#[test]
fn helper_starts_afresh_after_a_failure() {
    let mut dups = StdioDups::new();
    assert!(matches!(dups.record(9), DupStep::Duplicate));
    match dups.record(-1) {
        DupStep::Abandon(v) => assert_eq!(vec![9], v),
        _ => panic!("expected the attempt to be abandoned"),
    }
    assert!(matches!(dups.record(10), DupStep::Duplicate));
    assert!(matches!(dups.record(11), DupStep::Duplicate));
    assert!(matches!(dups.record(12), DupStep::Ready(10, 11, 12)));
}
