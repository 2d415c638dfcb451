//! Messages the registry publishes to the external listener.

use vstd::prelude::*;

use crate::periods::{Daytime, Period, RawPeriod};
use crate::person::Person;
use crate::world_inlet::{AddPersonResult, NightActionResult};

verus! {

/// The id and display name of one registered session.
#[derive(Clone, Debug)]
pub struct VillageLiteInfo {
    pub village_id: String,
    pub village_name: String,
}

impl VillageLiteInfo {
    /// Pairs a session id with its display name.
    pub fn new(village_id: &str, village_name: &str) -> (r: VillageLiteInfo)
        ensures
            r.village_id@ == village_id@,
            r.village_name@ == village_name@,
    {
        VillageLiteInfo {
            village_id: village_id.to_owned(),
            village_name: village_name.to_owned(),
        }
    }

    /// The session's identity token.
    pub fn village_id(&self) -> (r: &str)
        ensures
            r@ == self.village_id@,
    {
        self.village_id.as_str()
    }

    /// The session's display name.
    pub fn village_name(&self) -> (r: &str)
        ensures
            r@ == self.village_name@,
    {
        self.village_name.as_str()
    }
}

/// Whose night turn an eligible-target list is offered for.
#[derive(Clone, Copy, Debug, PartialEq, Eq, Structural)]
pub enum NightTurn {
    Wolf,
    Doctor,
    Seer,
}

/// One published event concerning a single session. Durations are in
/// milliseconds.
#[derive(Clone, Debug)]
pub enum WithVillage {
    RawString(String),
    VillageDisposed,
    PopulationDone(u64),
    PeriodReady(RawPeriod),
    NewPeriod(Period),
    PopulationTimedOut,
    DaytimeCycled(Daytime, u64),
    AddPersonResult(AddPersonResult),
    NightActionResultReport(NightActionResult),
    NightTurn { turn: NightTurn, available_persons: Vec<Person> },
}

/// Everything the registry publishes outward.
#[derive(Debug)]
pub enum WorldOutlet {
    RawStringResult(Result<String, String>),
    VillageList(Vec<VillageLiteInfo>),
    WithVillage { village_id: String, data: WithVillage },
}

} // verus!
