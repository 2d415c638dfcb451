//! Transient per-night storage of the three optional choices, and the pure
//! resolution of one night's outcome.

use vstd::prelude::*;

use crate::roles::Role;

verus! {

/// The three independent optional choices of exactly one night: the wolves'
/// target, the doctor's target, and the seer's target. Created fresh each
/// midnight and discarded once the outcome is reported.
#[derive(Clone, Debug)]
pub struct NightEventsStorage {
    pub wolves_choice_person_id: Option<String>,
    pub doctor_choice_person_id: Option<String>,
    pub seer_choice_person_id: Option<String>,
}

impl NightEventsStorage {
    /// A night with no choice recorded yet.
    pub fn new() -> (r: NightEventsStorage)
        ensures
            r.wolves_choice_person_id is None,
            r.doctor_choice_person_id is None,
            r.seer_choice_person_id is None,
    {
        NightEventsStorage {
            wolves_choice_person_id: None,
            doctor_choice_person_id: None,
            seer_choice_person_id: None,
        }
    }

    /// Records the wolves' target; the other choices are untouched.
    pub fn set_wolves_choice(&mut self, person_id: &str)
        ensures
            final(self).wolves_choice_person_id matches Some(p) && p@ == person_id@,
            final(self).doctor_choice_person_id == old(self).doctor_choice_person_id,
            final(self).seer_choice_person_id == old(self).seer_choice_person_id,
    {
        self.wolves_choice_person_id = Some(person_id.to_owned());
    }

    /// Records the doctor's target; the other choices are untouched.
    pub fn set_doctor_choice(&mut self, person_id: &str)
        ensures
            final(self).doctor_choice_person_id matches Some(p) && p@ == person_id@,
            final(self).wolves_choice_person_id == old(self).wolves_choice_person_id,
            final(self).seer_choice_person_id == old(self).seer_choice_person_id,
    {
        self.doctor_choice_person_id = Some(person_id.to_owned());
    }

    /// Records the seer's target; the other choices are untouched.
    pub fn set_seer_choice(&mut self, person_id: &str)
        ensures
            final(self).seer_choice_person_id matches Some(p) && p@ == person_id@,
            final(self).wolves_choice_person_id == old(self).wolves_choice_person_id,
            final(self).doctor_choice_person_id == old(self).doctor_choice_person_id,
    {
        self.seer_choice_person_id = Some(person_id.to_owned());
    }

    /// The three recorded choices, in the fixed order wolves, doctor, seer.
    pub fn wolves_doctor_seer_choices(&self) -> (r: (
        Option<String>,
        Option<String>,
        Option<String>,
    ))
        ensures
            r.0 == self.wolves_choice_person_id,
            r.1 == self.doctor_choice_person_id,
            r.2 == self.seer_choice_person_id,
    {
        (
            clone_choice(&self.wolves_choice_person_id),
            clone_choice(&self.doctor_choice_person_id),
            clone_choice(&self.seer_choice_person_id),
        )
    }
}

/// A copy of one optional choice, equal to the original.
fn clone_choice(c: &Option<String>) -> (r: Option<String>)
    ensures
        r == *c,
{
    match c {
        Some(s) => Some(s.clone()),
        None => None,
    }
}

/// What happened to the wolves' target once the night is over.
#[derive(Clone, Debug)]
pub enum NightOutcome {
    NoneEaten,
    Saved(String),
    Eaten(String),
}

/// The outcome the save/eat rule yields for the given wolves and doctor
/// choices: no wolves target means nobody is eaten, a doctor target equal to
/// the wolves target saves that person, and any other wolves target is eaten.
/// Identifiers are compared by their character content.
pub open spec fn spec_night_outcome(
    wolves: Option<String>,
    doctor: Option<String>,
) -> NightOutcome {
    match wolves {
        Option::None => NightOutcome::NoneEaten,
        Option::Some(victim) => {
            if doctor matches Some(saved) && saved@ == victim@ {
                NightOutcome::Saved(victim)
            } else {
                NightOutcome::Eaten(victim)
            }
        },
    }
}

/// Resolves the save/eat rule of one night from the wolves' and the doctor's
/// choices. The seer's choice never influences this outcome.
pub fn night_outcome(wolves: Option<String>, doctor: Option<String>) -> (r: NightOutcome)
    ensures
        r == spec_night_outcome(wolves, doctor),
{
    match wolves {
        Option::None => NightOutcome::NoneEaten,
        Option::Some(victim) => {
            match doctor {
                Option::Some(saved) => {
                    if saved == victim {
                        NightOutcome::Saved(victim)
                    } else {
                        NightOutcome::Eaten(victim)
                    }
                },
                Option::None => NightOutcome::Eaten(victim),
            }
        },
    }
}

/// Whether the seer is told their target is a wolf: true exactly for the
/// plain `Wolf` role, not for `MasterWolf`.
pub open spec fn spec_seer_verdict(role: Role) -> bool {
    role is Wolf
}

/// The seer's report for a target of the given role.
pub fn seer_verdict(role: Role) -> (r: bool)
    ensures
        r == spec_seer_verdict(role),
{
    matches!(role, Role::Wolf)
}

/// The save/eat rule, stated over every possible pair of choices: the
/// outcome is `Saved` exactly when both targets exist and agree, `Eaten`
/// exactly when the wolves chose and the doctor missed, and `NoneEaten`
/// exactly when the wolves chose nobody.
pub proof fn lemma_night_resolution(wolves: Option<String>, doctor: Option<String>)
    ensures
        (spec_night_outcome(wolves, doctor) matches NightOutcome::Saved(p)) <==> (wolves matches Some(
            w,
        ) && doctor matches Some(d) && d@ == w@),
        (spec_night_outcome(wolves, doctor) matches NightOutcome::Eaten(p)) <==> (wolves matches Some(
            w,
        ) && !(doctor matches Some(d) && d@ == w@)),
        spec_night_outcome(wolves, doctor) is NoneEaten <==> wolves is None,
        wolves matches Some(w) ==> !(spec_night_outcome(wolves, doctor) is NoneEaten) && (
        spec_night_outcome(wolves, doctor) matches NightOutcome::Saved(p) ==> p == w) && (
        spec_night_outcome(wolves, doctor) matches NightOutcome::Eaten(p) ==> p == w),
{
}

} // verus!
