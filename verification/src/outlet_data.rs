//! Messages a session emits toward the outside world.

use vstd::prelude::*;

use crate::periods::{Daytime, Period, RawPeriod};

verus! {

/// The result of one person-join request.
#[derive(Clone, Debug)]
pub enum AddPersonResult {
    Added { person_id: String, current_count: u64 },
    Failed(String),
}

/// One session-originated event. Durations are in milliseconds.
#[derive(Clone, Debug)]
pub enum VillageOutlet {
    RawString(String),
    AddPerson(AddPersonResult),
    PeriodReady(RawPeriod),
    PeriodCrossed(RawPeriod, Period),
    PopulatingTimedOut,
    DaytimeCycled(Daytime, u64),
    WolvesTurn,
    DoctorTurn,
    SeerTurn,
}

} // verus!
