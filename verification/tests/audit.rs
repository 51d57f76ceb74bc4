use zero_on_free::audit::AllocInfo;

#[test]
fn a_new_record_is_empty() {
    let info: AllocInfo<4> = AllocInfo::new();
    assert_eq!(info.free_count(), 0);
    assert_eq!(info.capacity(), 4);
    for slot in 0..4 {
        assert!(!info.entry(slot));
    }
    assert!(info.verify_all_zeroed());
}

#[test]
fn a_free_goes_to_the_entry_that_the_counter_points_at() {
    let mut info: AllocInfo<4> = AllocInfo::new();
    info.record(true);
    assert_eq!(info.free_count(), 1);
    assert!(info.entry(0));
    assert!(!info.entry(1));
    assert!(info.verify_all_zeroed());

    info.record(false);
    assert_eq!(info.free_count(), 2);
    assert!(!info.entry(1));
    assert!(!info.verify_all_zeroed());
}

#[test]
fn the_log_is_written_round_and_round() {
    let mut info: AllocInfo<4> = AllocInfo::new();
    for _ in 0..4 {
        info.record(true);
    }
    assert!(info.verify_all_zeroed());

    // Free number 4 goes to entry 4 % 4 = 0, over free number 0.
    info.record(false);
    assert_eq!(info.free_count(), 5);
    assert!(!info.entry(0));
    assert!(info.entry(1) && info.entry(2) && info.entry(3));
    assert!(!info.verify_all_zeroed());

    // Frees number 5, 6 and 7 leave entry 0 as it is.
    for _ in 0..3 {
        info.record(true);
        assert!(!info.verify_all_zeroed());
    }
    // Free number 8 goes to entry 0 again.
    info.record(true);
    assert_eq!(info.free_count(), 9);
    assert!(info.verify_all_zeroed());
}

#[test]
fn only_written_entries_are_looked_at() {
    let mut info: AllocInfo<4> = AllocInfo::new();
    info.record(true);
    info.record(true);
    // Entries 2 and 3 were never written and are false.
    assert!(!info.entry(2));
    assert!(!info.entry(3));
    assert!(info.verify_all_zeroed());
}

#[test]
fn clear_sets_the_counter_back_and_keeps_the_entries() {
    let mut info: AllocInfo<2> = AllocInfo::new();
    info.record(false);
    info.record(true);
    assert!(!info.verify_all_zeroed());

    info.clear();
    assert_eq!(info.free_count(), 0);
    assert!(!info.entry(0));
    assert!(info.entry(1));
    assert!(info.verify_all_zeroed());

    info.record(true);
    assert!(info.entry(0));
    assert!(info.verify_all_zeroed());
    info.record(false);
    assert!(!info.entry(1));
    assert!(!info.verify_all_zeroed());
}

#[test]
fn inspect_records_what_the_block_holds() {
    let mut info: AllocInfo<3> = AllocInfo::new();
    info.inspect(&[0, 0, 0]);
    info.inspect(&[0, 1, 0]);
    info.inspect(&[]);
    assert_eq!(info.free_count(), 3);
    assert!(info.entry(0));
    assert!(!info.entry(1));
    assert!(info.entry(2));
    assert!(!info.verify_all_zeroed());
}

#[test]
fn a_log_of_one_entry_holds_the_last_free() {
    let mut info: AllocInfo<1> = AllocInfo::new();
    info.record(false);
    assert!(!info.verify_all_zeroed());
    info.record(true);
    assert!(info.verify_all_zeroed());
    info.record(false);
    assert!(!info.verify_all_zeroed());
    assert_eq!(info.free_count(), 3);
}
