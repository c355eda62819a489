use alarm_clock::alarm::model::{Alarm, IntensityCurve, RecurrencePattern};
use alarm_clock::alarm::store::{AlarmStore, MergeOutcome};

fn mk_alarm(id: &str, name: &str, time: &str, is_active: bool) -> Alarm {
    Alarm {
        id: id.to_string(),
        created_at: "2024-01-01T00:00:00.000000000Z".to_string(),
        updated_at: "2024-01-02T00:00:00.000000000Z".to_string(),
        name: name.to_string(),
        time: time.to_string(),
        color: "#ff0000".to_string(),
        length: 10,
        is_active,
        intensity_curve: IntensityCurve {
            start_intensity: 0,
            end_intensity: 100,
            curve: "linear".to_string(),
            hyper_parameter: None,
            control_points: None,
        },
        recurrence: RecurrencePattern {
            reccurence_type: "daily".to_string(),
            days: None,
            custom_dates: None,
        },
    }
}

#[test]
fn new_store_is_empty() {
    let store = AlarmStore::new(8);
    assert_eq!(store.len(), 0);
    assert_eq!(store.capacity(), 8);
}

#[test]
fn merge_appends_new_id() {
    let mut store = AlarmStore::new(8);
    let r = store.merge(mk_alarm("a1", "wake", "07:00", true));
    assert_eq!(r, MergeOutcome::Added);
    assert_eq!(store.len(), 1);
    assert_eq!(store.get(0).id, "a1");
    assert_eq!(store.get(0).name, "wake");
}

#[test]
fn merge_same_id_twice_keeps_one_entry_with_latest_values() {
    let mut store = AlarmStore::new(8);
    assert_eq!(store.merge(mk_alarm("a1", "wake", "07:00", true)), MergeOutcome::Added);
    assert_eq!(store.merge(mk_alarm("a1", "wake late", "09:30", false)), MergeOutcome::Updated);
    assert_eq!(store.len(), 1);
    assert_eq!(store.get(0).id, "a1");
    assert_eq!(store.get(0).name, "wake late");
    assert_eq!(store.get(0).time, "09:30");
    assert!(!store.get(0).is_active);
}

#[test]
fn merge_updates_in_place_keeping_order() {
    let mut store = AlarmStore::new(8);
    store.merge(mk_alarm("a1", "one", "07:00", true));
    store.merge(mk_alarm("a2", "two", "08:00", true));
    store.merge(mk_alarm("a3", "three", "09:00", true));
    let r = store.merge(mk_alarm("a2", "two updated", "08:30", false));
    assert_eq!(r, MergeOutcome::Updated);
    assert_eq!(store.len(), 3);
    assert_eq!(store.get(0).id, "a1");
    assert_eq!(store.get(1).id, "a2");
    assert_eq!(store.get(1).name, "two updated");
    assert_eq!(store.get(2).id, "a3");
}

#[test]
fn merging_one_more_id_than_capacity_keeps_exactly_capacity_entries() {
    let mut store = AlarmStore::new(8);
    for i in 0..8 {
        let id = format!("id{}", i);
        assert_eq!(store.merge(mk_alarm(&id, "n", "06:00", true)), MergeOutcome::Added);
    }
    // The ninth distinct id is rejected, observably, without a crash.
    let r = store.merge(mk_alarm("id8", "n", "06:00", true));
    assert_eq!(r, MergeOutcome::RejectedFull);
    assert_eq!(store.len(), 8);
    for i in 0..8 {
        assert_eq!(store.get(i).id, format!("id{}", i));
    }
}

#[test]
fn full_store_still_updates_known_id() {
    let mut store = AlarmStore::new(2);
    store.merge(mk_alarm("a1", "one", "07:00", true));
    store.merge(mk_alarm("a2", "two", "08:00", true));
    assert_eq!(store.merge(mk_alarm("a3", "three", "09:00", true)), MergeOutcome::RejectedFull);
    assert_eq!(store.merge(mk_alarm("a1", "one updated", "07:15", true)), MergeOutcome::Updated);
    assert_eq!(store.len(), 2);
    assert_eq!(store.get(0).name, "one updated");
}

#[test]
fn tiny_capacity_store_rejects_second_id() {
    let mut store = AlarmStore::new(1);
    assert_eq!(store.merge(mk_alarm("a1", "one", "07:00", true)), MergeOutcome::Added);
    assert_eq!(store.merge(mk_alarm("a2", "two", "08:00", true)), MergeOutcome::RejectedFull);
    assert_eq!(store.len(), 1);
    assert_eq!(store.get(0).id, "a1");
}
