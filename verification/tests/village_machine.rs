use rustling_wolf::defaults::default_period_maker;
use rustling_wolf::handle_from_world::VillageInternal;
use rustling_wolf::periods::{Daytime, Period, RawPeriod};
use rustling_wolf::roles::Role;
use rustling_wolf::village_main::{MachineState, VillageAction, VillageEvent, VillageMain};
use rustling_wolf::world_inlet::{FromVillage, NightActionResult};

fn fresh_machine() -> VillageMain {
    VillageMain::new("vg-1".to_string(), "Bergamo".to_string(), default_period_maker())
}

fn internal(event: VillageInternal, elapsed_ms: u64) -> VillageEvent {
    VillageEvent::Internal { event, elapsed_ms }
}

fn expect_notify(action: &VillageAction) -> &FromVillage {
    match action {
        VillageAction::Notify(data) => data,
        other => panic!("expected a notification, got {:?}", other),
    }
}

/// Drives a fresh machine to the start of the populating wait.
fn started_machine() -> VillageMain {
    let mut vm = fresh_machine();
    let acts = vm.start();
    assert_eq!(acts.len(), 3);
    assert!(matches!(acts[0], VillageAction::PersistPhase(RawPeriod::Populating)));
    match expect_notify(&acts[1]) {
        FromVillage::NewPeriod(Period::Populating { min_persons, max_persons, max_dur_ms }) => {
            assert_eq!((*min_persons, *max_persons, *max_dur_ms), (5, 7, 30000));
        }
        other => panic!("expected the populating detail, got {:?}", other),
    }
    assert!(matches!(acts[2], VillageAction::StartWait(30000)));
    assert_eq!(vm.state, MachineState::PopulatingWait);
    vm
}

/// Drives a started machine into the first midnight of the daytime cycle.
fn machine_at_midnight() -> VillageMain {
    let mut vm = started_machine();
    vm.step(internal(VillageInternal::PersonsFilled, 100));
    vm.step(VillageEvent::RolesResult(vec![Role::Wolf, Role::Seer]));
    assert_eq!(vm.state, MachineState::FirstNightWait);
    // The first night burns out; the rotation starts at sun raise.
    let acts = vm.step(VillageEvent::WaitTimedOut);
    assert!(matches!(acts[0], VillageAction::PersistPhase(RawPeriod::DaytimeCycle)));
    assert!(matches!(expect_notify(&acts[2]), FromVillage::DaytimeCycled(Daytime::SunRaise, 30000)));
    assert_eq!(vm.state, MachineState::DaytimeWait);
    // Sun raise and lynch time are waited out.
    let acts = vm.step(VillageEvent::WaitTimedOut);
    assert!(matches!(expect_notify(&acts[0]), FromVillage::DaytimeCycled(Daytime::LynchTime, 30000)));
    let acts = vm.step(VillageEvent::WaitTimedOut);
    assert!(matches!(expect_notify(&acts[0]), FromVillage::DaytimeCycled(Daytime::MidNight, 30000)));
    assert!(matches!(expect_notify(&acts[1]), FromVillage::WolvesTurn));
    assert!(matches!(acts[2], VillageAction::StartWait(30000)));
    assert_eq!(vm.state, MachineState::NightWolvesWait);
    vm
}

#[test]
fn filling_before_the_deadline_is_ready_immediately() {
    let mut vm = started_machine();
    let acts = vm.step(internal(VillageInternal::PersonsFilled, 1000));
    assert_eq!(acts.len(), 4);
    assert!(matches!(expect_notify(&acts[0]), FromVillage::PeriodReady(RawPeriod::Assignments)));
    assert!(matches!(acts[1], VillageAction::PersistPhase(RawPeriod::Assignments)));
    assert!(matches!(expect_notify(&acts[2]), FromVillage::NewPeriod(Period::Assignments(_))));
    assert!(matches!(acts[3], VillageAction::AssignRoles));
    assert_eq!(vm.state, MachineState::AssigningRoles);
}

#[test]
fn timing_out_below_the_minimum_kills_the_session() {
    let mut vm = started_machine();
    let acts = vm.step(VillageEvent::WaitTimedOut);
    assert_eq!(acts.len(), 1);
    assert!(matches!(acts[0], VillageAction::QueryCount));
    assert_eq!(vm.state, MachineState::PopulatingCount);
    let acts = vm.step(VillageEvent::CountResult(4));
    assert_eq!(acts.len(), 3);
    assert!(matches!(expect_notify(&acts[0]), FromVillage::PopulatingTimedOut));
    assert!(matches!(acts[1], VillageAction::Cleanup));
    assert!(matches!(acts[2], VillageAction::Terminate));
    assert_eq!(vm.state, MachineState::Dead);
    // A dead machine accepts nothing further.
    let acts = vm.step(VillageEvent::WaitTimedOut);
    assert!(acts.is_empty());
    assert_eq!(vm.state, MachineState::Dead);
}

#[test]
fn timing_out_at_the_minimum_proceeds() {
    // The minimum is inclusive: exactly five joined persons are enough.
    let mut vm = started_machine();
    vm.step(VillageEvent::WaitTimedOut);
    let acts = vm.step(VillageEvent::CountResult(5));
    assert_eq!(acts.len(), 4);
    assert!(matches!(expect_notify(&acts[0]), FromVillage::PeriodReady(RawPeriod::Assignments)));
    assert!(matches!(acts[3], VillageAction::AssignRoles));
    assert_eq!(vm.state, MachineState::AssigningRoles);
}

#[test]
fn extension_grows_only_the_remainder() {
    // 12s into the 30s deadline an extension of 5s arrives: the next wait is
    // bounded by 18s + 5s = 23s.
    let mut vm = started_machine();
    let acts = vm.step(internal(VillageInternal::ExtendPopulationTime(5000), 12000));
    assert_eq!(acts.len(), 1);
    assert!(matches!(acts[0], VillageAction::StartWait(23000)));
    assert_eq!(vm.state, MachineState::PopulatingWait);
}

#[test]
fn die_always_wins() {
    let mut vm = started_machine();
    let acts = vm.step(internal(VillageInternal::Die, 50));
    assert_eq!(acts.len(), 3);
    assert!(matches!(expect_notify(&acts[0]), FromVillage::VillageDisposed));
    assert!(matches!(acts[1], VillageAction::Cleanup));
    assert!(matches!(acts[2], VillageAction::Terminate));
    assert_eq!(vm.state, MachineState::Dead);
}

#[test]
fn mailbox_closure_equals_death() {
    let mut vm = started_machine();
    let acts = vm.step(VillageEvent::MailboxClosed);
    assert_eq!(acts.len(), 3);
    assert!(matches!(expect_notify(&acts[0]), FromVillage::VillageDisposed));
    assert!(matches!(acts[1], VillageAction::Cleanup));
    assert!(matches!(acts[2], VillageAction::Terminate));
    assert_eq!(vm.state, MachineState::Dead);
}

#[test]
fn roles_result_opens_the_first_night() {
    let mut vm = started_machine();
    vm.step(internal(VillageInternal::PersonsFilled, 100));
    let handed = vec![Role::Wolf, Role::Seer, Role::Villager];
    let acts = vm.step(VillageEvent::RolesResult(handed.clone()));
    assert_eq!(acts.len(), 5);
    match &acts[0] {
        VillageAction::ReportRoles(r) => assert_eq!(*r, handed),
        other => panic!("expected the roles report, got {:?}", other),
    }
    assert!(matches!(acts[1], VillageAction::PersistPhase(RawPeriod::FirstNight)));
    assert!(matches!(expect_notify(&acts[2]), FromVillage::NewPeriod(Period::FirstNight(20000))));
    assert!(matches!(acts[3], VillageAction::AnnounceFirstNight));
    assert!(matches!(acts[4], VillageAction::StartWait(20000)));
    assert_eq!(vm.state, MachineState::FirstNightWait);
}

#[test]
fn first_night_discards_stray_events() {
    let mut vm = started_machine();
    vm.step(internal(VillageInternal::PersonsFilled, 100));
    vm.step(VillageEvent::RolesResult(vec![]));
    // A stray event 6s into the 20s window: the wait resumes on 14s.
    let acts = vm.step(internal(VillageInternal::PersonsFilled, 6000));
    assert_eq!(acts.len(), 1);
    assert!(matches!(acts[0], VillageAction::StartWait(14000)));
    assert_eq!(vm.state, MachineState::FirstNightWait);
}

#[test]
fn night_with_matching_doctor_saves() {
    let mut vm = machine_at_midnight();
    let acts = vm.step(internal(VillageInternal::WolvesVictimSelected("a".to_string()), 100));
    assert!(matches!(expect_notify(&acts[0]), FromVillage::DoctorTurn));
    assert!(matches!(acts[1], VillageAction::StartWait(30000)));
    let acts = vm.step(internal(VillageInternal::DoctorTargetSelected("a".to_string()), 100));
    assert!(matches!(expect_notify(&acts[0]), FromVillage::SeerTurn));
    // The seer stays silent; the night resolves as a save.
    let acts = vm.step(VillageEvent::WaitTimedOut);
    assert_eq!(acts.len(), 3);
    match expect_notify(&acts[0]) {
        FromVillage::ReportNightActionResult(NightActionResult::PersonSaved(p)) => {
            assert_eq!(p, "a");
        }
        other => panic!("expected a save report, got {:?}", other),
    }
    assert!(matches!(expect_notify(&acts[1]), FromVillage::DaytimeCycled(Daytime::SunRaise, 30000)));
    assert!(matches!(acts[2], VillageAction::StartWait(30000)));
    assert_eq!(vm.state, MachineState::DaytimeWait);
}

#[test]
fn night_without_a_save_eats_the_victim() {
    let mut vm = machine_at_midnight();
    vm.step(internal(VillageInternal::WolvesVictimSelected("a".to_string()), 100));
    // The doctor stays silent.
    let acts = vm.step(VillageEvent::WaitTimedOut);
    assert!(matches!(expect_notify(&acts[0]), FromVillage::SeerTurn));
    let acts = vm.step(internal(VillageInternal::SeerTargetSelected("b".to_string()), 100));
    assert_eq!(acts.len(), 3);
    match &acts[0] {
        VillageAction::MarkDead(p) => assert_eq!(p, "a"),
        other => panic!("expected the victim marked dead, got {:?}", other),
    }
    match expect_notify(&acts[1]) {
        FromVillage::ReportNightActionResult(NightActionResult::PersonEaten(p)) => {
            assert_eq!(p, "a");
        }
        other => panic!("expected an eaten report, got {:?}", other),
    }
    match &acts[2] {
        VillageAction::QueryRole(p) => assert_eq!(p, "b"),
        other => panic!("expected the seer lookup, got {:?}", other),
    }
    assert_eq!(vm.state, MachineState::NightSeerRole);
    // The seer's target is exactly the plain wolf: the report says so.
    let acts = vm.step(VillageEvent::RoleResult(Role::Wolf));
    match expect_notify(&acts[0]) {
        FromVillage::ReportNightActionResult(NightActionResult::SeerReport(p, is_wolf)) => {
            assert_eq!(p, "b");
            assert!(is_wolf);
        }
        other => panic!("expected a seer report, got {:?}", other),
    }
    assert!(matches!(expect_notify(&acts[1]), FromVillage::DaytimeCycled(Daytime::SunRaise, 30000)));
    assert_eq!(vm.state, MachineState::DaytimeWait);
}

#[test]
fn a_master_wolf_is_not_reported_as_wolf() {
    let mut vm = machine_at_midnight();
    vm.step(VillageEvent::WaitTimedOut);
    vm.step(VillageEvent::WaitTimedOut);
    let acts = vm.step(internal(VillageInternal::SeerTargetSelected("m".to_string()), 100));
    // No wolves target: nobody is eaten, whatever the doctor chose.
    match expect_notify(&acts[0]) {
        FromVillage::ReportNightActionResult(NightActionResult::NoneEaten) => {}
        other => panic!("expected a none-eaten report, got {:?}", other),
    }
    let acts = vm.step(VillageEvent::RoleResult(Role::MasterWolf));
    match expect_notify(&acts[0]) {
        FromVillage::ReportNightActionResult(NightActionResult::SeerReport(p, is_wolf)) => {
            assert_eq!(p, "m");
            assert!(!is_wolf);
        }
        other => panic!("expected a seer report, got {:?}", other),
    }
}

#[test]
fn a_fully_silent_night_eats_nobody() {
    let mut vm = machine_at_midnight();
    vm.step(VillageEvent::WaitTimedOut);
    vm.step(VillageEvent::WaitTimedOut);
    let acts = vm.step(VillageEvent::WaitTimedOut);
    assert_eq!(acts.len(), 3);
    match expect_notify(&acts[0]) {
        FromVillage::ReportNightActionResult(NightActionResult::NoneEaten) => {}
        other => panic!("expected a none-eaten report, got {:?}", other),
    }
    assert!(matches!(expect_notify(&acts[1]), FromVillage::DaytimeCycled(Daytime::SunRaise, 30000)));
    assert_eq!(vm.state, MachineState::DaytimeWait);
}

#[test]
fn wolves_wait_discards_unrelated_choices() {
    let mut vm = machine_at_midnight();
    // A doctor choice during the wolves' turn is drained and discarded.
    let acts = vm.step(internal(VillageInternal::DoctorTargetSelected("x".to_string()), 4000));
    assert_eq!(acts.len(), 1);
    assert!(matches!(acts[0], VillageAction::StartWait(26000)));
    assert_eq!(vm.state, MachineState::NightWolvesWait);
}
