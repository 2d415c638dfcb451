//! What each message on a session's public mailbox means: the internal
//! events it raises and the decisions behind a person-join request.

use vstd::prelude::*;
use vstd::string::StringExecFns;

use crate::outlet_data::AddPersonResult;
use crate::periods::RawPeriod;

verus! {

/// An event raised by the message-handling layer into the session actor's
/// private mailbox. `Die` is privileged: it always triggers the cleanup
/// path and is never handed to the filtered views. Durations are in
/// milliseconds.
#[derive(Clone, Debug)]
pub enum VillageInternal {
    PersonsFilled,
    ExtendPopulationTime(u64),
    Die,
    WolvesVictimSelected(String),
    DoctorTargetSelected(String),
    SeerTargetSelected(String),
}

/// The internal events a generic deadline wait may observe: everything but
/// `Die`.
#[derive(Clone, Debug)]
pub enum SafeVillageInternal {
    PersonsFilled,
    ExtendPopulationTime(u64),
    WolvesVictimSelected(String),
    DoctorTargetSelected(String),
    SeerTargetSelected(String),
}

/// The safe view of an internal event. Total and panic-free: `Die` yields
/// `None` and must be handled by the caller; every other event passes
/// through unchanged.
pub fn filter_safe(event: VillageInternal) -> (r: Option<SafeVillageInternal>)
    ensures
        event is Die <==> r is None,
        event is PersonsFilled <==> r == Some(SafeVillageInternal::PersonsFilled),
        event matches VillageInternal::ExtendPopulationTime(d) ==> r == Some(
            SafeVillageInternal::ExtendPopulationTime(d),
        ),
        event matches VillageInternal::WolvesVictimSelected(p) ==> r matches Some(
            SafeVillageInternal::WolvesVictimSelected(q),
        ) && q == p,
        event matches VillageInternal::DoctorTargetSelected(p) ==> r matches Some(
            SafeVillageInternal::DoctorTargetSelected(q),
        ) && q == p,
        event matches VillageInternal::SeerTargetSelected(p) ==> r matches Some(
            SafeVillageInternal::SeerTargetSelected(q),
        ) && q == p,
{
    match event {
        VillageInternal::PersonsFilled => Some(SafeVillageInternal::PersonsFilled),
        VillageInternal::ExtendPopulationTime(d) => Some(
            SafeVillageInternal::ExtendPopulationTime(d),
        ),
        VillageInternal::Die => None,
        VillageInternal::WolvesVictimSelected(p) => Some(
            SafeVillageInternal::WolvesVictimSelected(p),
        ),
        VillageInternal::DoctorTargetSelected(p) => Some(
            SafeVillageInternal::DoctorTargetSelected(p),
        ),
        VillageInternal::SeerTargetSelected(p) => Some(SafeVillageInternal::SeerTargetSelected(p)),
    }
}

/// What to do with one person-join request, decided from the session's
/// persisted phase, the joined count, the configured maximum, and whether
/// the requested name is already taken.
#[derive(Clone, Copy, Debug, PartialEq, Eq, Structural)]
pub enum AddPersonStep {
    /// The session is not gathering its population: reject the request.
    NotPopulating,
    /// The session is already full: raise the persons-filled signal instead
    /// of inserting.
    Filled,
    /// The requested name already exists in this session: reject it.
    DuplicateName,
    /// Accept the request and insert the person.
    Insert,
}

/// The decision the classification rule yields.
pub open spec fn spec_classify_add_person(
    period: RawPeriod,
    current_count: u64,
    max_persons: u8,
    name_exists: bool,
) -> AddPersonStep {
    if !(period is Populating) {
        AddPersonStep::NotPopulating
    } else if current_count >= max_persons as u64 {
        AddPersonStep::Filled
    } else if name_exists {
        AddPersonStep::DuplicateName
    } else {
        AddPersonStep::Insert
    }
}

/// Classifies one person-join request: joins are accepted only during the
/// populating phase, only below the configured maximum, and only under a
/// name not yet taken in this session.
pub fn classify_add_person(
    period: RawPeriod,
    current_count: u64,
    max_persons: u8,
    name_exists: bool,
) -> (r: AddPersonStep)
    ensures
        r == spec_classify_add_person(period, current_count, max_persons, name_exists),
{
    match period {
        RawPeriod::Populating => {
            if current_count >= max_persons as u64 {
                AddPersonStep::Filled
            } else if name_exists {
                AddPersonStep::DuplicateName
            } else {
                AddPersonStep::Insert
            }
        },
        _ => AddPersonStep::NotPopulating,
    }
}

/// The rejection reported for a join the classification refused.
pub fn rejection_result(step: AddPersonStep) -> (r: AddPersonResult)
    requires
        step is NotPopulating || step is DuplicateName,
    ensures
        r matches AddPersonResult::Failed(msg) && (step is DuplicateName ==> msg@
            == "The person name is duplicated"@) && (step is NotPopulating ==> msg@
            == "Not populating!"@),
{
    match step {
        AddPersonStep::DuplicateName => AddPersonResult::Failed(
            String::from_str("The person name is duplicated"),
        ),
        _ => AddPersonResult::Failed(String::from_str("Not populating!")),
    }
}

/// The rejection reported when the persistence collaborator failed to
/// insert an accepted join.
pub fn insertion_failed_result() -> (r: AddPersonResult)
    ensures
        r matches AddPersonResult::Failed(msg) && msg@ == "Error while inserting person."@,
{
    AddPersonResult::Failed(String::from_str("Error while inserting person."))
}

/// The report for one accepted and inserted join, and whether this join
/// filled the session: the joined count grows by exactly one, and the
/// persons-filled signal is raised exactly when the new count reaches the
/// configured maximum.
pub fn added_person_events(person_id: String, current_count: u64, max_persons: u8) -> (r: (
    AddPersonResult,
    bool,
))
    requires
        current_count < max_persons as u64,
    ensures
        r.0 matches AddPersonResult::Added { person_id: p, current_count: c } && p == person_id
            && c == current_count + 1,
        r.1 == (current_count + 1 >= max_persons as u64),
{
    let new_count = current_count + 1;
    (
        AddPersonResult::Added { person_id, current_count: new_count },
        new_count >= max_persons as u64,
    )
}

} // verus!
