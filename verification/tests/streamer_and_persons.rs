use rustling_wolf::handle_from_world::{
    classify_add_person, added_person_events, filter_safe, insertion_failed_result,
    rejection_result, AddPersonStep, SafeVillageInternal, VillageInternal,
};
use rustling_wolf::night_events::NightEventsStorage;
use rustling_wolf::outlet_data::AddPersonResult;
use rustling_wolf::periods::RawPeriod;
use rustling_wolf::person::Person;
use rustling_wolf::roles::Role;
use rustling_wolf::streamer::{ExitFlag, InternalStreamer};
use rustling_wolf::tower::Tower;
use rustling_wolf::world_inlet::{FromVillage, WorldInlet};
use rustling_wolf::world_outlet::VillageLiteInfo;

#[test]
fn extension_adds_to_the_remainder() {
    // 30s budget, 12s consumed by the last wait: 18s remain. An extension of
    // 5s leaves exactly 23s, never resetting the elapsed time.
    let mut s = InternalStreamer::new(30000);
    s.record_elapsed(12000);
    s.increase_timeout(5000);
    let next_bound = s.begin_wait();
    assert_eq!(next_bound, 23000);
}

#[test]
fn begin_wait_subtracts_elapsed_time() {
    let mut s = InternalStreamer::new(30000);
    s.record_elapsed(10000);
    assert_eq!(s.begin_wait(), 20000);
    // Nothing recorded since: the budget stays put.
    assert_eq!(s.begin_wait(), 20000);
}

#[test]
fn overlong_measurement_is_capped() {
    let mut s = InternalStreamer::new(1000);
    s.record_elapsed(5000);
    assert_eq!(s.begin_wait(), 0);
}

#[test]
fn reset_restores_a_fresh_budget() {
    let mut s = InternalStreamer::new(1000);
    s.record_elapsed(600);
    s.mark_timed_out();
    assert_eq!(s.get_exit_err(), ExitFlag::TimedOut);
    s.reset(2500);
    assert_eq!(s.get_exit_err(), ExitFlag::NotExited);
    assert!(!s.village_dead());
    assert_eq!(s.begin_wait(), 2500);
}

#[test]
fn die_is_filtered_out_of_safe_events() {
    assert!(filter_safe(VillageInternal::Die).is_none());
    assert!(matches!(
        filter_safe(VillageInternal::PersonsFilled),
        Some(SafeVillageInternal::PersonsFilled)
    ));
    match filter_safe(VillageInternal::WolvesVictimSelected("p1".to_string())) {
        Some(SafeVillageInternal::WolvesVictimSelected(p)) => assert_eq!(p, "p1"),
        other => panic!("unexpected filtering: {:?}", other),
    }
}

#[test]
fn joins_are_rejected_outside_populating() {
    assert_eq!(
        classify_add_person(RawPeriod::FirstNight, 0, 7, false),
        AddPersonStep::NotPopulating
    );
    match rejection_result(AddPersonStep::NotPopulating) {
        AddPersonResult::Failed(msg) => assert_eq!(msg, "Not populating!"),
        other => panic!("unexpected result: {:?}", other),
    }
}

#[test]
fn joins_after_the_maximum_signal_filled() {
    assert_eq!(classify_add_person(RawPeriod::Populating, 7, 7, false), AddPersonStep::Filled);
    assert_eq!(classify_add_person(RawPeriod::Populating, 9, 7, false), AddPersonStep::Filled);
}

#[test]
fn duplicate_name_is_rejected() {
    // The same name a second time within one populating phase: the first
    // request inserts, the second is classified a duplicate, and the count
    // grows by exactly one.
    assert_eq!(classify_add_person(RawPeriod::Populating, 3, 7, false), AddPersonStep::Insert);
    let (result, filled) = added_person_events("p-42".to_string(), 3, 7);
    match result {
        AddPersonResult::Added { person_id, current_count } => {
            assert_eq!(person_id, "p-42");
            assert_eq!(current_count, 4);
        }
        other => panic!("unexpected result: {:?}", other),
    }
    assert!(!filled);
    assert_eq!(classify_add_person(RawPeriod::Populating, 4, 7, true), AddPersonStep::DuplicateName);
    match rejection_result(AddPersonStep::DuplicateName) {
        AddPersonResult::Failed(msg) => assert_eq!(msg, "The person name is duplicated"),
        other => panic!("unexpected result: {:?}", other),
    }
}

#[test]
fn the_last_join_signals_filled() {
    let (result, filled) = added_person_events("p-7".to_string(), 6, 7);
    match result {
        AddPersonResult::Added { current_count, .. } => assert_eq!(current_count, 7),
        other => panic!("unexpected result: {:?}", other),
    }
    assert!(filled);
}

#[test]
fn failed_insertion_is_reported() {
    match insertion_failed_result() {
        AddPersonResult::Failed(msg) => assert_eq!(msg, "Error while inserting person."),
        other => panic!("unexpected result: {:?}", other),
    }
}

#[test]
fn night_storage_records_each_choice_independently() {
    let mut storage = NightEventsStorage::new();
    let (w, d, s) = storage.wolves_doctor_seer_choices();
    assert_eq!((w, d, s), (None, None, None));
    storage.set_wolves_choice("a");
    storage.set_doctor_choice("b");
    storage.set_seer_choice("c");
    let (w, d, s) = storage.wolves_doctor_seer_choices();
    assert_eq!(w.as_deref(), Some("a"));
    assert_eq!(d.as_deref(), Some("b"));
    assert_eq!(s.as_deref(), Some("c"));
}

#[test]
fn person_fields_and_role() {
    let p = Person::new("id-1".to_string(), "vg-1", Role::Seer.to_code(), true);
    assert_eq!(p.get_id(), "id-1");
    assert!(p.is_alive);
    assert_eq!(p.get_role(), Role::Seer);
}

#[test]
fn world_inlet_wraps_the_session_id() {
    match WorldInlet::from_village("vg-9", FromVillage::WolvesTurn) {
        WorldInlet::FromVillage { village_id, data } => {
            assert_eq!(village_id, "vg-9");
            assert!(matches!(data, FromVillage::WolvesTurn));
        }
        other => panic!("unexpected inlet: {:?}", other),
    }
}

#[test]
fn village_lite_info_getters() {
    let info = VillageLiteInfo::new("vg-1", "Bergamo");
    assert_eq!(info.village_id(), "vg-1");
    assert_eq!(info.village_name(), "Bergamo");
}

#[test]
fn tower_template_keeps_the_buffer_size() {
    let tower = Tower::<String, String>::template(1024);
    assert_eq!(tower.receiver_buffer, 1024);
}

#[test]
fn extension_saturates_at_the_largest_bound() {
    let mut s = InternalStreamer::new(u64::MAX - 5);
    s.increase_timeout(10);
    assert_eq!(s.begin_wait(), u64::MAX);
}
