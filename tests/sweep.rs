use approx_host::sweep::{expiry_cutoff, should_delete, EntryAction, EntryKind, SweepTally};

#[test]
fn cutoff_is_max_age_before_now() {
    assert_eq!(70, expiry_cutoff(100, 30));
    assert_eq!(0, expiry_cutoff(100, 100));
}

#[test]
fn cutoff_stops_at_the_epoch() {
    assert_eq!(0, expiry_cutoff(10, 30));
}

#[test]
fn files_older_than_cutoff_are_deleted() {
    assert!(should_delete(69, 70));
    assert!(!should_delete(70, 70));
    assert!(!should_delete(71, 70));
    assert!(!should_delete(5, 0));
}

#[test]
fn times_before_epoch_read_as_large() {
    assert!(!should_delete(-1, 1_000_000));
    assert!(should_delete(i64::MIN, u64::MAX));
    assert!(!should_delete(-1, u64::MAX));
}

#[test]
fn sweep_counts_and_decides() {
    let mut t = SweepTally::new();
    assert_eq!(EntryAction::Descend, t.visit(EntryKind::Dir, 0, 50));
    assert_eq!(EntryAction::Delete, t.visit(EntryKind::File, 10, 50));
    assert_eq!(EntryAction::Keep, t.visit(EntryKind::File, 60, 50));
    assert_eq!(EntryAction::Skip, t.visit(EntryKind::Other, 10, 50));
    assert_eq!(1, t.dirs());
    assert_eq!(2, t.files());
    assert_eq!(1, t.deleted());
}
