//! Messages entering the registry: operator commands and session events.

use vstd::prelude::*;

use crate::periods::{Daytime, Period, RawPeriod};

verus! {

/// The result of one person-join request, as reported to the registry.
#[derive(Clone, Debug)]
pub enum AddPersonResult {
    Added { person_id: String, current_count: u64 },
    Failed(String),
}

/// The outcome of one night, reported per affected person.
#[derive(Clone, Debug)]
pub enum NightActionResult {
    NoneEaten,
    PersonEaten(String),
    PersonSaved(String),
    SeerReport(String, bool),
}

/// One event a session reports to the registry. Durations are in
/// milliseconds.
#[derive(Clone, Debug)]
pub enum FromVillage {
    RawString(String),
    VillageDisposed,
    PeriodReady(RawPeriod),
    NewPeriod(Period),
    PopulatingTimedOut,
    DaytimeCycled(Daytime, u64),
    AddPerson(AddPersonResult),
    WolvesTurn,
    DoctorTurn,
    SeerTurn,
    ReportNightActionResult(NightActionResult),
}

/// One operator command entering the registry from the outside.
#[derive(Clone, Debug)]
pub enum FromHeaven {
    Nothing,
    RequestPerson { village_id: String, person_name: String },
    FillPersons { village_id: String, count: u8 },
    KillVillage { village_id: String },
    ListVillages,
    NewVillage,
}

/// Everything the registry's single inbound mailbox carries.
#[derive(Clone, Debug)]
pub enum WorldInlet {
    FromVillage { village_id: String, data: FromVillage },
    FromHeaven(FromHeaven),
}

impl WorldInlet {
    /// Wraps a session event with the session it came from.
    pub fn from_village(village_id: &str, data: FromVillage) -> (r: WorldInlet)
        ensures
            r matches WorldInlet::FromVillage { village_id: v, data: d } && v@ == village_id@
                && d == data,
    {
        WorldInlet::FromVillage { village_id: village_id.to_owned(), data }
    }
}

} // verus!
