use rustling_wolf::assigner::roles;
use rustling_wolf::defaults::default_period_maker;
use rustling_wolf::periods::{AssignmentMode, Daytime, Period, RawPeriod};
use rustling_wolf::roles::Role;

use rustling_wolf::roles::Role::{Doctor, MasterWolf, Seer, Villager, Wolf};

#[test]
fn roles_exact_tables() {
    assert_eq!(roles(5), vec![Wolf, Seer, Villager, Villager, Villager]);
    assert_eq!(roles(6), vec![Wolf, Seer, Doctor, Villager, Villager, Villager]);
    assert_eq!(roles(7), vec![Wolf, Seer, Doctor, MasterWolf, Villager, Villager, Villager]);
    assert_eq!(
        roles(8),
        vec![Wolf, Seer, Doctor, MasterWolf, Villager, Villager, Villager, Villager]
    );
    assert_eq!(
        roles(9),
        vec![Wolf, Seer, Doctor, MasterWolf, Villager, Villager, Villager, Villager, Villager]
    );
    assert_eq!(
        roles(10),
        vec![Wolf, Seer, Doctor, MasterWolf, Villager, Villager, Wolf, Villager, Villager, Villager]
    );
}

#[test]
fn roles_return_one_role_per_person() {
    for n in 5..=10u64 {
        assert_eq!(roles(n).len(), n as usize);
    }
}

#[test]
fn roles_deterministic() {
    for n in 5..=10u64 {
        assert_eq!(roles(n), roles(n));
    }
}

#[test]
fn eatable_is_false_exactly_for_wolf_roles() {
    assert!(!Role::Wolf.is_eatable());
    assert!(!Role::MasterWolf.is_eatable());
    assert!(Role::NoRole.is_eatable());
    assert!(Role::Villager.is_eatable());
    assert!(Role::Seer.is_eatable());
    assert!(Role::Doctor.is_eatable());
}

#[test]
fn role_codes_round_trip() {
    let all = [Role::NoRole, Role::Villager, Role::Wolf, Role::MasterWolf, Role::Seer, Role::Doctor];
    for (i, role) in all.iter().enumerate() {
        assert_eq!(role.to_code(), i as u8);
        assert_eq!(Role::from_code(i as u8), *role);
    }
    assert_eq!(Role::from_code(42), Role::NoRole);
}

#[test]
fn period_progression_visits_the_fixed_order() {
    let mut p = RawPeriod::NonePeriod;
    let expected = [
        RawPeriod::Populating,
        RawPeriod::Assignments,
        RawPeriod::FirstNight,
        RawPeriod::DaytimeCycle,
        RawPeriod::Ending,
    ];
    for want in expected {
        p = p.cross().expect("a further phase was expected");
        assert_eq!(p, want);
    }
    assert!(p.cross().is_err());
}

#[test]
fn period_codes_round_trip() {
    for code in 0..=5 {
        assert_eq!(RawPeriod::from_code(code).to_code(), code);
    }
    assert_eq!(RawPeriod::from_code(77), RawPeriod::Ending);
}

#[test]
fn daytime_rotation_cycles() {
    assert_eq!(Daytime::MidNight.cross(), Daytime::SunRaise);
    assert_eq!(Daytime::SunRaise.cross(), Daytime::LynchTime);
    assert_eq!(Daytime::LynchTime.cross(), Daytime::MidNight);
}

#[test]
fn resolved_detail_always_matches_its_ordinal() {
    let maker = default_period_maker();
    let all = [
        RawPeriod::NonePeriod,
        RawPeriod::Populating,
        RawPeriod::Assignments,
        RawPeriod::FirstNight,
        RawPeriod::DaytimeCycle,
        RawPeriod::Ending,
    ];
    for raw in all {
        assert_eq!(maker.resolve(raw).to_raw(), raw);
    }
}

#[test]
fn default_period_maker_values() {
    let maker = default_period_maker();
    match maker.resolve(RawPeriod::Populating) {
        Period::Populating { min_persons, max_persons, max_dur_ms } => {
            assert_eq!(min_persons, 5);
            assert_eq!(max_persons, 7);
            assert_eq!(max_dur_ms, 30000);
        }
        other => panic!("unexpected populating detail: {:?}", other),
    }
    assert_eq!(maker.resolve(RawPeriod::Assignments), Period::Assignments(AssignmentMode::Normal));
    assert_eq!(maker.resolve(RawPeriod::FirstNight), Period::FirstNight(20000));
    match maker.resolve(RawPeriod::DaytimeCycle) {
        Period::DaytimeCycle(durs) => {
            assert_eq!(durs.duration_for(Daytime::MidNight), 30000);
            assert_eq!(durs.duration_for(Daytime::SunRaise), 30000);
            assert_eq!(durs.duration_for(Daytime::LynchTime), 30000);
        }
        other => panic!("unexpected daytime detail: {:?}", other),
    }
}
