use rgb_pwm::config::{ConfigStore, DEFAULT_FRAME_RATE};
use rgb_pwm::LevelTriple;

#[test]
fn fresh_store_is_dark_at_the_default_frame_rate() {
    let store = ConfigStore::new();
    assert_eq!(store.read_levels(), [0, 0, 0]);
    assert_eq!(store.read_frame_rate(), 100);
    assert_eq!(DEFAULT_FRAME_RATE, 100);
}

#[test]
fn update_levels_replaces_the_triple() {
    let mut store = ConfigStore::new();
    store.update_levels(|levels| *levels = [1, 2, 3]);
    assert_eq!(store.read_levels(), [1, 2, 3]);
}

#[test]
fn update_levels_can_change_one_slot() {
    let mut store = ConfigStore::new();
    store.update_levels(|levels| *levels = [4, 5, 6]);
    store.update_levels(|levels| levels[1] = 15);
    assert_eq!(store.read_levels(), [4, 15, 6]);
}

#[test]
fn update_levels_sees_the_stored_value() {
    let mut store = ConfigStore::new();
    store.update_levels(|levels| *levels = [1, 2, 3]);
    store.update_levels(|levels| {
        for level in levels.iter_mut() {
            *level += 10;
        }
    });
    assert_eq!(store.read_levels(), [11, 12, 13]);
}

#[test]
fn update_levels_leaves_the_frame_rate() {
    let mut store = ConfigStore::new();
    store.update_frame_rate(|frame_rate| *frame_rate = 60);
    store.update_levels(|levels| *levels = [7, 8, 9]);
    assert_eq!(store.read_frame_rate(), 60);
}

#[test]
fn update_frame_rate_replaces_the_frame_rate() {
    let mut store = ConfigStore::new();
    store.update_frame_rate(|frame_rate| *frame_rate = 160);
    assert_eq!(store.read_frame_rate(), 160);
}

#[test]
fn update_frame_rate_sees_the_stored_value() {
    let mut store = ConfigStore::new();
    store.update_frame_rate(|frame_rate| *frame_rate += 10);
    assert_eq!(store.read_frame_rate(), 110);
}

#[test]
fn update_frame_rate_leaves_the_levels() {
    let mut store = ConfigStore::new();
    store.update_levels(|levels| *levels = [3, 2, 1]);
    store.update_frame_rate(|frame_rate| *frame_rate = 10);
    assert_eq!(store.read_levels(), [3, 2, 1]);
}

#[test]
fn a_mutator_that_changes_nothing_leaves_the_store_as_it_was() {
    let mut store = ConfigStore::new();
    store.update_levels(|levels| *levels = [9, 9, 9]);
    store.update_levels(|_levels| {});
    store.update_frame_rate(|_frame_rate| {});
    assert_eq!(store.read_levels(), [9, 9, 9]);
    assert_eq!(store.read_frame_rate(), 100);
}

#[test]
fn reading_does_not_change_the_store() {
    let mut store = ConfigStore::new();
    store.update_levels(|levels| *levels = [5, 6, 7]);
    let first = store.read_levels();
    let second = store.read_levels();
    assert_eq!(first, second);
    assert_eq!(store.read_frame_rate(), store.read_frame_rate());
}

#[test]
fn a_read_is_a_copy() {
    let mut store = ConfigStore::new();
    let mut copy = store.read_levels();
    copy[0] = 12;
    assert_eq!(store.read_levels(), [0, 0, 0]);
    store.update_levels(|levels| levels[2] = 3);
    assert_eq!(copy, [12, 0, 0]);
}

#[test]
fn the_store_accepts_levels_out_of_range() {
    let mut store = ConfigStore::new();
    store.update_levels(|levels| *levels = [16, 17, u32::MAX]);
    assert_eq!(store.read_levels(), [16, 17, u32::MAX]);
}

#[test]
fn the_store_accepts_a_frame_rate_of_zero() {
    let mut store = ConfigStore::new();
    store.update_frame_rate(|frame_rate| *frame_rate = 0);
    assert_eq!(store.read_frame_rate(), 0);
}

#[test]
fn two_updates_leave_one_of_the_two_triples_in_either_order() {
    let a: LevelTriple = [1, 2, 3];
    let b: LevelTriple = [13, 14, 15];

    let mut store = ConfigStore::new();
    store.update_levels(|levels| *levels = a);
    store.update_levels(|levels| *levels = b);
    assert_eq!(store.read_levels(), b);

    let mut store = ConfigStore::new();
    store.update_levels(|levels| *levels = b);
    store.update_levels(|levels| *levels = a);
    assert_eq!(store.read_levels(), a);
}

#[test]
fn two_updates_never_leave_a_mix_of_slots() {
    let a: LevelTriple = [1, 2, 3];
    let b: LevelTriple = [13, 14, 15];
    for a_goes_first in [true, false] {
        let mut store = ConfigStore::new();
        if a_goes_first {
            store.update_levels(|levels| *levels = a);
            store.update_levels(|levels| *levels = b);
        } else {
            store.update_levels(|levels| *levels = b);
            store.update_levels(|levels| *levels = a);
        }
        let seen = store.read_levels();
        assert!(seen == a || seen == b, "a mix of both: {:?}", seen);
    }
}
