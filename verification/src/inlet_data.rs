//! Messages entering a session through its public mailbox.

use vstd::prelude::*;

verus! {

/// What the outside world may send into one session. Durations are in
/// milliseconds.
#[derive(Clone, Debug)]
pub enum VillageInlet {
    RawString(String),
    AddPerson(String),
    ExtendPopulationTime(u64),
    Die,
}

} // verus!
