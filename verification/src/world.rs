//! The registry ("world"): the owner and router of every live session.
//!
//! The registry multiplexes inbound operator commands and session events,
//! creates and destroys sessions, and republishes session events outward.
//! Channels, spawning and the persistence collaborator live outside: each
//! routing function returns the `WorldAction`s the registry's actor must
//! carry out, in order. Sends into a session are best-effort: a full or
//! closed mailbox drops the message, and never fails the registry.

use vstd::prelude::*;
use vstd::string::StringExecFns;

use rand::Rng;

use crate::inlet_data::VillageInlet;
use crate::periods::Period;
use crate::person::Person;
use crate::world_antenna::{AskWorld, WorldAnswered};
use crate::periods::RawPeriod;
use crate::world_inlet::{FromHeaven, FromVillage};
use crate::world_outlet::WithVillage;
use crate::world_outlet::{NightTurn, VillageLiteInfo, WorldOutlet};

verus! {

/// How many milliseconds each accepted join request pushes the populating
/// deadline out.
pub const JOIN_GRACE_MS: u64 = 10000;

/// How many display-name samples the registry draws from for an unnamed
/// session.
pub const SAMPLE_NAME_COUNT: usize = 10;

/// The fixed table of display-name samples.
pub open spec fn spec_sample_name(k: int) -> Seq<char> {
    if k == 0 {
        "Piodao"@
    } else if k == 1 {
        "Civita di Bagnoregio"@
    } else if k == 2 {
        "Alberobello"@
    } else if k == 3 {
        "Songzanlin"@
    } else if k == 4 {
        "Trakai Island"@
    } else if k == 5 {
        "Bergamo"@
    } else if k == 6 {
        "Ronda"@
    } else if k == 7 {
        "Jodhpur"@
    } else if k == 8 {
        "Marburg"@
    } else {
        "Fenghuang"@
    }
}

/// One display-name sample of the fixed table.
pub fn sample_village_name(k: usize) -> (r: &'static str)
    requires
        k < SAMPLE_NAME_COUNT,
    ensures
        r@ == spec_sample_name(k as int),
{
    match k {
        0 => "Piodao",
        1 => "Civita di Bagnoregio",
        2 => "Alberobello",
        3 => "Songzanlin",
        4 => "Trakai Island",
        5 => "Bergamo",
        6 => "Ronda",
        7 => "Jodhpur",
        8 => "Marburg",
        _ => "Fenghuang",
    }
}

/// Relies on `uuid::Uuid::new_v4` and its `Display` rendering: a freshly
/// drawn random identifier in the hyphenated form, which is exactly 36
/// characters long.
#[verifier::external_body]
fn new_village_id() -> (r: String)
    ensures
        r@.len() == 36,
{
    uuid::Uuid::new_v4().to_string()
}

/// Relies on `rand::Rng::gen_range` over `0..len`: a uniformly drawn index
/// strictly below `len` (the call panics on an empty range, which the
/// precondition rules out).
#[verifier::external_body]
fn random_index(len: usize) -> (r: usize)
    requires
        len > 0,
    ensures
        r < len,
{
    rand::thread_rng().gen_range(0..len)
}

/// One step the registry's actor must carry out, in the order returned.
#[derive(Debug)]
pub enum WorldAction {
    /// Best-effort send into the session's public mailbox.
    SendToVillage { village_id: String, inlet: VillageInlet },
    /// Publish one event to the external listener.
    Publish(WorldOutlet),
    /// Spawn the actor of a freshly created session.
    SpawnVillage { village_id: String, village_name: String },
    /// Publish the "not found" notice for this unknown session id.
    NotifyVillageNotFound { village_id: String },
    /// Query the joined count of this session from the persistence
    /// collaborator and publish the population summary.
    PublishPopulationCount { village_id: String },
    /// Query the turn's eligible targets from the persistence collaborator
    /// and publish the night-turn event.
    PublishNightTurn { village_id: String, turn: NightTurn },
    /// Send this session `count` join requests, one per generated player
    /// name.
    FillVillage { village_id: String, count: u8 },
}

/// Whether a person may be offered as a target for this night turn: the
/// wolves are offered the eatable alive persons, the doctor and the seer
/// every alive person.
pub open spec fn spec_eligible(turn: NightTurn, p: Person) -> bool {
    p.is_alive && (turn is Wolf ==> p.eatable)
}

/// Keeps exactly the persons eligible for this night turn, in their given
/// order.
pub fn filter_eligible(turn: NightTurn, persons: Vec<Person>) -> (r: Vec<Person>)
    ensures
        r@ == persons@.filter(|p: Person| spec_eligible(turn, p)),
{
    let ghost pred = |p: Person| spec_eligible(turn, p);
    let mut r: Vec<Person> = Vec::new();
    let mut i: usize = 0;
    proof {
        reveal_with_fuel(Seq::filter, 1);
        assert(persons@.take(0) =~= Seq::<Person>::empty());
        assert(r@ =~= persons@.take(0).filter(pred));
    }
    while i < persons.len()
        invariant
            i <= persons@.len(),
            r@ == persons@.take(i as int).filter(pred),
            pred == (|p: Person| spec_eligible(turn, p)),
        decreases persons@.len() - i,
    {
        let p = &persons[i];
        let keep = p.is_alive && (!matches!(turn, NightTurn::Wolf) || p.eatable);
        if keep {
            r.push(persons[i].clone());
        }
        proof {
            reveal(Seq::filter);
            assert(keep == pred(persons@[i as int]));
            let prefix = persons@.take(i + 1);
            assert(prefix.drop_last() =~= persons@.take(i as int));
            assert(prefix.last() == persons@[i as int]);
            assert(r@ == prefix.filter(pred));
        }
        i = i + 1;
    }
    proof {
        assert(persons@.take(persons@.len() as int) =~= persons@);
    }
    r
}

/// One registered session as the registry sees it: its identity, display
/// name, and the most recently announced phase detail.
#[derive(Clone, Debug)]
pub struct RegisteredVillage {
    pub village_id: String,
    pub village_name: String,
    pub current_period: Period,
}

/// The registry of live sessions.
#[derive(Debug)]
pub struct World {
    pub villages: Vec<RegisteredVillage>,
}

impl World {
    /// Registered ids are distinct: each session is owned exactly once.
    pub open spec fn wf(self) -> bool {
        forall|i: int, j: int|
            0 <= i < self.villages@.len() && 0 <= j < self.villages@.len() && i != j
                ==> self.villages@[i].village_id@ != self.villages@[j].village_id@
    }

    /// Whether a session with this id is registered.
    pub open spec fn spec_contains(self, village_id: Seq<char>) -> bool {
        exists|i: int|
            0 <= i < self.villages@.len() && self.villages@[i].village_id@ == village_id
    }

    /// An empty registry.
    pub fn new() -> (r: World)
        ensures
            r.villages@.len() == 0,
            r.wf(),
    {
        World { villages: Vec::new() }
    }

    /// The position of the session with this id, if it is registered.
    fn find_village(&self, village_id: &String) -> (r: Option<usize>)
        ensures
            r matches Some(i) ==> i < self.villages@.len()
                && self.villages@[i as int].village_id@ == village_id@,
            r is None ==> !self.spec_contains(village_id@),
    {
        let mut i: usize = 0;
        while i < self.villages.len()
            invariant
                i <= self.villages@.len(),
                forall|k: int| 0 <= k < i ==> self.villages@[k].village_id@ != village_id@,
            decreases self.villages@.len() - i,
        {
            if self.villages[i].village_id == *village_id {
                return Some(i);
            }
            i = i + 1;
        }
        None
    }

    /// The id and name of every registered session, in registration order.
    pub fn village_list(&self) -> (r: Vec<VillageLiteInfo>)
        ensures
            r@.len() == self.villages@.len(),
            forall|k: int|
                0 <= k < r@.len() ==> r@[k].village_id@ == self.villages@[k].village_id@
                    && r@[k].village_name@ == self.villages@[k].village_name@,
    {
        let mut r: Vec<VillageLiteInfo> = Vec::new();
        let mut i: usize = 0;
        while i < self.villages.len()
            invariant
                i <= self.villages@.len(),
                r@.len() == i,
                forall|k: int|
                    0 <= k < i ==> r@[k].village_id@ == self.villages@[k].village_id@
                        && r@[k].village_name@ == self.villages@[k].village_name@,
            decreases self.villages@.len() - i,
        {
            let v = &self.villages[i];
            r.push(VillageLiteInfo::new(v.village_id.as_str(), v.village_name.as_str()));
            i = i + 1;
        }
        r
    }

    /// Removes the session with this id, if it is registered; every other
    /// session stays.
    fn remove_village(&mut self, village_id: &String)
        requires
            old(self).wf(),
        ensures
            final(self).wf(),
            !final(self).spec_contains(village_id@),
            !old(self).spec_contains(village_id@) ==> *final(self) == *old(self),
            old(self).spec_contains(village_id@) ==> exists|i: int|
                0 <= i < old(self).villages@.len() && old(self).villages@[i].village_id@
                    == village_id@ && final(self).villages@ == old(self).villages@.remove(i),
    {
        match self.find_village(village_id) {
            Some(i) => {
                self.villages.remove(i);
                proof {
                    let s = old(self).villages@;
                    s.remove_ensures(i as int);
                    assert forall|k: int|
                        0 <= k < self.villages@.len() implies self.villages@[k].village_id@
                        != village_id@ by {
                        if k < i as int {
                            assert(self.villages@[k] == s[k]);
                        } else {
                            assert(self.villages@[k] == s[k + 1]);
                        }
                    }
                    assert forall|a: int, b: int|
                        0 <= a < self.villages@.len() && 0 <= b < self.villages@.len() && a
                            != b implies self.villages@[a].village_id@
                        != self.villages@[b].village_id@ by {
                        let a0 = if a < i as int {
                            a
                        } else {
                            a + 1
                        };
                        let b0 = if b < i as int {
                            b
                        } else {
                            b + 1
                        };
                        assert(self.villages@[a] == s[a0]);
                        assert(self.villages@[b] == s[b0]);
                    }
                }
            },
            None => {
                proof {
                    assert(self.villages@ =~= old(self).villages@);
                }
            },
        }
    }

    /// Updates the phase detail the registry caches for this session; an
    /// unknown id changes nothing.
    fn set_village_period(&mut self, village_id: &String, period: Period)
        requires
            old(self).wf(),
        ensures
            final(self).wf(),
            final(self).villages@.len() == old(self).villages@.len(),
            forall|k: int|
                0 <= k < old(self).villages@.len() && old(self).villages@[k].village_id@
                    != village_id@ ==> final(self).villages@[k] == old(self).villages@[k],
            forall|k: int|
                0 <= k < old(self).villages@.len() && old(self).villages@[k].village_id@
                    == village_id@ ==> final(self).villages@[k] == (RegisteredVillage {
                    current_period: period,
                    ..old(self).villages@[k]
                }),
    {
        match self.find_village(village_id) {
            Some(i) => {
                let name = self.villages[i].village_name.clone();
                let id = self.villages[i].village_id.clone();
                self.villages.set(
                    i,
                    RegisteredVillage { village_id: id, village_name: name, current_period: period },
                );
            },
            None => (),
        }
    }

    /// Creates a session: a fresh random id, the given name or a drawn
    /// sample name, no phase yet. The returned front carries the id and
    /// name; the caller spawns the session's actor.
    pub fn create_village(&mut self, village_name: Option<&str>) -> (r: VillageLiteInfo)
        requires
            old(self).wf(),
        ensures
            final(self).wf(),
            r.village_id@.len() == 36,
            village_name matches Some(n) ==> r.village_name@ == n@,
            village_name is None ==> exists|k: int|
                0 <= k < SAMPLE_NAME_COUNT && r.village_name@ == spec_sample_name(k),
            final(self).spec_contains(r.village_id@),
            forall|k: int|
                0 <= k < final(self).villages@.len() && final(self).villages@[k].village_id@
                    == r.village_id@ ==> final(self).villages@[k].village_name@
                    == r.village_name@ && final(self).villages@[k].current_period is NonePeriod,
            forall|k: int|
                0 <= k < final(self).villages@.len() && final(self).villages@[k].village_id@
                    != r.village_id@ ==> old(self).villages@.contains(final(self).villages@[k]),
            forall|k: int|
                0 <= k < old(self).villages@.len() && old(self).villages@[k].village_id@
                    != r.village_id@ ==> final(self).villages@.contains(old(self).villages@[k]),
    {
        let id = new_village_id();
        let name: String = match village_name {
            Some(n) => n.to_owned(),
            None => sample_village_name(random_index(SAMPLE_NAME_COUNT)).to_owned(),
        };
        let entry = RegisteredVillage {
            village_id: id.clone(),
            village_name: name.clone(),
            current_period: Period::NonePeriod,
        };
        match self.find_village(&id) {
            Some(i) => {
                self.villages.set(i, entry);
                proof {
                    assert(self.villages@[i as int].village_id@ == id@);
                    assert forall|k: int|
                        0 <= k < old(self).villages@.len() && old(
                            self,
                        ).villages@[k].village_id@ != id@ implies self.villages@.contains(
                        old(self).villages@[k],
                    ) by {
                        assert(self.villages@[k] == old(self).villages@[k]);
                    }
                }
            },
            None => {
                self.villages.push(entry);
                proof {
                    let n = self.villages@.len() - 1;
                    assert(self.villages@[n].village_id@ == id@);
                    assert forall|k: int| 0 <= k < n implies old(self).villages@.contains(
                        #[trigger] self.villages@[k],
                    ) by {
                        assert(self.villages@[k] == old(self).villages@[k]);
                    }
                    assert forall|k: int| 0 <= k < n implies self.villages@.contains(
                        #[trigger] old(self).villages@[k],
                    ) by {
                        assert(self.villages@[k] == old(self).villages@[k]);
                    }
                }
            },
        }
        VillageLiteInfo::new(id.as_str(), name.as_str())
    }

    /// Routes one operator command. Only session creation changes the
    /// registry itself; an unknown target session yields the "not found"
    /// notice and nothing else; a join or fill request is silently ignored
    /// unless the target is gathering its population.
    pub fn handle_from_heaven(&mut self, from_heaven: FromHeaven) -> (acts: Vec<WorldAction>)
        requires
            old(self).wf(),
        ensures
            final(self).wf(),
            !(from_heaven is NewVillage) ==> *final(self) == *old(self),
            from_heaven is Nothing ==> acts@ =~= Seq::<WorldAction>::empty(),
            from_heaven matches FromHeaven::RequestPerson { village_id: vid, person_name: pname }
                ==> (!old(self).spec_contains(vid@) ==> acts@ =~= seq![
                WorldAction::NotifyVillageNotFound { village_id: vid },
            ]) && (forall|k: int|
                0 <= k < old(self).villages@.len() && old(self).villages@[k].village_id@ == vid@
                    ==> ((old(self).villages@[k].current_period is Populating ==> acts@ =~= seq![
                    WorldAction::SendToVillage {
                        village_id: vid,
                        inlet: VillageInlet::AddPerson(pname),
                    },
                    WorldAction::SendToVillage {
                        village_id: vid,
                        inlet: VillageInlet::ExtendPopulationTime(JOIN_GRACE_MS),
                    },
                ]) && (!(old(self).villages@[k].current_period is Populating) ==> acts@ =~= Seq::<
                    WorldAction,
                >::empty()))),
            from_heaven matches FromHeaven::FillPersons { village_id: vid, count } ==> (!old(
                self,
            ).spec_contains(vid@) ==> acts@ =~= seq![
                WorldAction::NotifyVillageNotFound { village_id: vid },
            ]) && (forall|k: int|
                0 <= k < old(self).villages@.len() && old(self).villages@[k].village_id@ == vid@
                    ==> ((old(self).villages@[k].current_period is Populating ==> acts@ =~= seq![
                    WorldAction::FillVillage { village_id: vid, count },
                ]) && (!(old(self).villages@[k].current_period is Populating) ==> acts@ =~= Seq::<
                    WorldAction,
                >::empty()))),
            from_heaven matches FromHeaven::KillVillage { village_id: vid } ==> (old(
                self,
            ).spec_contains(vid@) ==> acts@ =~= seq![
                WorldAction::SendToVillage { village_id: vid, inlet: VillageInlet::Die },
            ]) && (!old(self).spec_contains(vid@) ==> acts@ =~= seq![
                WorldAction::NotifyVillageNotFound { village_id: vid },
            ]),
            from_heaven is ListVillages ==> acts@.len() == 1 && (acts@[0] matches
                WorldAction::Publish(o) && o matches WorldOutlet::VillageList(infos) && infos@.len()
                == old(self).villages@.len() && (forall|k: int|
                0 <= k < infos@.len() ==> infos@[k].village_id@ == old(
                    self,
                ).villages@[k].village_id@ && infos@[k].village_name@ == old(
                    self,
                ).villages@[k].village_name@)),
            from_heaven is NewVillage ==> acts@.len() == 1 && (acts@[0] matches
                WorldAction::SpawnVillage { village_id: vid, village_name: vname } && vid@.len()
                == 36 && final(self).spec_contains(vid@) && (exists|k: int|
                0 <= k < SAMPLE_NAME_COUNT && vname@ == spec_sample_name(k)) && (forall|k: int|
                0 <= k < final(self).villages@.len() && final(self).villages@[k].village_id@
                    == vid@ ==> final(self).villages@[k].village_name@ == vname@
                    && final(self).villages@[k].current_period is NonePeriod) && (forall|k: int|
                0 <= k < old(self).villages@.len() && old(self).villages@[k].village_id@ != vid@
                    ==> final(self).villages@.contains(old(self).villages@[k]))),
    {
        let mut acts: Vec<WorldAction> = Vec::new();
        match from_heaven {
            FromHeaven::Nothing => acts,
            FromHeaven::RequestPerson { village_id, person_name } => {
                match self.find_village(&village_id) {
                    None => {
                        acts.push(WorldAction::NotifyVillageNotFound { village_id });
                    },
                    Some(i) => {
                        if matches!(self.villages[i].current_period, Period::Populating { .. }) {
                            acts.push(
                                WorldAction::SendToVillage {
                                    village_id: village_id.clone(),
                                    inlet: VillageInlet::AddPerson(person_name),
                                },
                            );
                            acts.push(
                                WorldAction::SendToVillage {
                                    village_id,
                                    inlet: VillageInlet::ExtendPopulationTime(JOIN_GRACE_MS),
                                },
                            );
                        }
                    },
                }
                acts
            },
            FromHeaven::FillPersons { village_id, count } => {
                match self.find_village(&village_id) {
                    None => {
                        acts.push(WorldAction::NotifyVillageNotFound { village_id });
                    },
                    Some(i) => {
                        if matches!(self.villages[i].current_period, Period::Populating { .. }) {
                            acts.push(WorldAction::FillVillage { village_id, count });
                        }
                    },
                }
                acts
            },
            FromHeaven::KillVillage { village_id } => {
                match self.find_village(&village_id) {
                    None => {
                        acts.push(WorldAction::NotifyVillageNotFound { village_id });
                    },
                    Some(_) => {
                        acts.push(
                            WorldAction::SendToVillage { village_id, inlet: VillageInlet::Die },
                        );
                    },
                }
                acts
            },
            FromHeaven::ListVillages => {
                let infos = self.village_list();
                acts.push(WorldAction::Publish(WorldOutlet::VillageList(infos)));
                acts
            },
            FromHeaven::NewVillage => {
                let info = self.create_village(None);
                acts.push(
                    WorldAction::SpawnVillage {
                        village_id: info.village_id,
                        village_name: info.village_name,
                    },
                );
                acts
            },
        }
    }

    /// Routes one session-originated event outward. A "disposed" or
    /// "population timed out" event removes the session from the registry; a
    /// phase-ready event for the assignment phase additionally publishes the
    /// population summary; a night-turn event publishes the turn with its
    /// eligible targets; everything else is republished as-is.
    pub fn handle_from_village(&mut self, village_id: String, data: FromVillage) -> (acts: Vec<
        WorldAction,
    >)
        requires
            old(self).wf(),
        ensures
            final(self).wf(),
            !(data is VillageDisposed) && !(data is PopulatingTimedOut) && !(data is NewPeriod)
                ==> *final(self) == *old(self),
            data matches FromVillage::RawString(text) ==> acts@ =~= seq![
                WorldAction::Publish(
                    WorldOutlet::WithVillage {
                        village_id: village_id,
                        data: WithVillage::RawString(text),
                    },
                ),
            ],
            data is VillageDisposed ==> !final(self).spec_contains(village_id@) && (!old(
                self,
            ).spec_contains(village_id@) ==> *final(self) == *old(self)) && (old(
                self,
            ).spec_contains(village_id@) ==> exists|i: int|
                0 <= i < old(self).villages@.len() && old(self).villages@[i].village_id@
                    == village_id@ && final(self).villages@ == old(self).villages@.remove(i))
                && acts@ =~= seq![
                WorldAction::Publish(
                    WorldOutlet::WithVillage {
                        village_id: village_id,
                        data: WithVillage::VillageDisposed,
                    },
                ),
            ],
            data is PopulatingTimedOut ==> !final(self).spec_contains(village_id@) && (!old(
                self,
            ).spec_contains(village_id@) ==> *final(self) == *old(self)) && (old(
                self,
            ).spec_contains(village_id@) ==> exists|i: int|
                0 <= i < old(self).villages@.len() && old(self).villages@[i].village_id@
                    == village_id@ && final(self).villages@ == old(self).villages@.remove(i))
                && acts@ =~= seq![
                WorldAction::Publish(
                    WorldOutlet::WithVillage {
                        village_id: village_id,
                        data: WithVillage::PopulationTimedOut,
                    },
                ),
            ],
            data matches FromVillage::PeriodReady(p) ==> (p is Assignments ==> acts@ =~= seq![
                WorldAction::Publish(
                    WorldOutlet::WithVillage {
                        village_id: village_id,
                        data: WithVillage::PeriodReady(p),
                    },
                ),
                WorldAction::PublishPopulationCount { village_id: village_id },
            ]) && (!(p is Assignments) ==> acts@ =~= seq![
                WorldAction::Publish(
                    WorldOutlet::WithVillage {
                        village_id: village_id,
                        data: WithVillage::PeriodReady(p),
                    },
                ),
            ]),
            data matches FromVillage::NewPeriod(p) ==> final(self).villages@.len() == old(
                self,
            ).villages@.len() && (forall|k: int|
                0 <= k < old(self).villages@.len() && old(self).villages@[k].village_id@
                    != village_id@ ==> final(self).villages@[k] == old(self).villages@[k]) && (
            forall|k: int|
                0 <= k < old(self).villages@.len() && old(self).villages@[k].village_id@
                    == village_id@ ==> final(self).villages@[k] == (RegisteredVillage {
                    current_period: p,
                    ..old(self).villages@[k]
                })) && acts@ =~= seq![
                WorldAction::Publish(
                    WorldOutlet::WithVillage {
                        village_id: village_id,
                        data: WithVillage::NewPeriod(p),
                    },
                ),
            ],
            data matches FromVillage::DaytimeCycled(dt, dur) ==> acts@ =~= seq![
                WorldAction::Publish(
                    WorldOutlet::WithVillage {
                        village_id: village_id,
                        data: WithVillage::DaytimeCycled(dt, dur),
                    },
                ),
            ],
            data matches FromVillage::AddPerson(result) ==> acts@ =~= seq![
                WorldAction::Publish(
                    WorldOutlet::WithVillage {
                        village_id: village_id,
                        data: WithVillage::AddPersonResult(result),
                    },
                ),
            ],
            data is WolvesTurn ==> acts@ =~= seq![
                WorldAction::PublishNightTurn { village_id: village_id, turn: NightTurn::Wolf },
            ],
            data is DoctorTurn ==> acts@ =~= seq![
                WorldAction::PublishNightTurn { village_id: village_id, turn: NightTurn::Doctor },
            ],
            data is SeerTurn ==> acts@ =~= seq![
                WorldAction::PublishNightTurn { village_id: village_id, turn: NightTurn::Seer },
            ],
            data matches FromVillage::ReportNightActionResult(report) ==> acts@ =~= seq![
                WorldAction::Publish(
                    WorldOutlet::WithVillage {
                        village_id: village_id,
                        data: WithVillage::NightActionResultReport(report),
                    },
                ),
            ],
    {
        let mut acts: Vec<WorldAction> = Vec::new();
        match data {
            FromVillage::RawString(text) => {
                acts.push(
                    WorldAction::Publish(
                        WorldOutlet::WithVillage {
                            village_id,
                            data: WithVillage::RawString(text),
                        },
                    ),
                );
            },
            FromVillage::VillageDisposed => {
                self.remove_village(&village_id);
                acts.push(
                    WorldAction::Publish(
                        WorldOutlet::WithVillage {
                            village_id,
                            data: WithVillage::VillageDisposed,
                        },
                    ),
                );
            },
            FromVillage::PopulatingTimedOut => {
                self.remove_village(&village_id);
                acts.push(
                    WorldAction::Publish(
                        WorldOutlet::WithVillage {
                            village_id,
                            data: WithVillage::PopulationTimedOut,
                        },
                    ),
                );
            },
            FromVillage::PeriodReady(p) => {
                let ready_for_assignments = matches!(p, RawPeriod::Assignments);
                acts.push(
                    WorldAction::Publish(
                        WorldOutlet::WithVillage {
                            village_id: village_id.clone(),
                            data: WithVillage::PeriodReady(p),
                        },
                    ),
                );
                if ready_for_assignments {
                    acts.push(WorldAction::PublishPopulationCount { village_id });
                }
            },
            FromVillage::NewPeriod(p) => {
                self.set_village_period(&village_id, p);
                acts.push(
                    WorldAction::Publish(
                        WorldOutlet::WithVillage {
                            village_id,
                            data: WithVillage::NewPeriod(p),
                        },
                    ),
                );
            },
            FromVillage::DaytimeCycled(dt, dur) => {
                acts.push(
                    WorldAction::Publish(
                        WorldOutlet::WithVillage {
                            village_id,
                            data: WithVillage::DaytimeCycled(dt, dur),
                        },
                    ),
                );
            },
            FromVillage::AddPerson(result) => {
                acts.push(
                    WorldAction::Publish(
                        WorldOutlet::WithVillage {
                            village_id,
                            data: WithVillage::AddPersonResult(result),
                        },
                    ),
                );
            },
            FromVillage::WolvesTurn => {
                acts.push(WorldAction::PublishNightTurn { village_id, turn: NightTurn::Wolf });
            },
            FromVillage::DoctorTurn => {
                acts.push(WorldAction::PublishNightTurn { village_id, turn: NightTurn::Doctor });
            },
            FromVillage::SeerTurn => {
                acts.push(WorldAction::PublishNightTurn { village_id, turn: NightTurn::Seer });
            },
            FromVillage::ReportNightActionResult(report) => {
                acts.push(
                    WorldAction::Publish(
                        WorldOutlet::WithVillage {
                            village_id,
                            data: WithVillage::NightActionResultReport(report),
                        },
                    ),
                );
            },
        }
        acts
    }

    /// Answers one synchronous question: an answer exists for every
    /// question, so a live registry never leaves an asker without one. A raw
    /// string is echoed back; a session name lookup answers `Some` exactly
    /// for a registered id, with that session's name.
    pub fn answer_whats_asked(&self, asked: AskWorld) -> (r: WorldAnswered)
        ensures
            asked matches AskWorld::RawString(t) ==> (r matches WorldAnswered::RawString(s) && s@
                == "Echoed "@ + t@),
            asked matches AskWorld::AskVillageName(vid) ==> (r matches WorldAnswered::VillageName(
                opt,
            ) && (opt is Some <==> self.spec_contains(vid@)) && (opt matches Some(n) ==> exists|
                i: int,
            |
                0 <= i < self.villages@.len() && self.villages@[i].village_id@ == vid@
                    && self.villages@[i].village_name@ == n@)),
    {
        match asked {
            AskWorld::RawString(t) => {
                let mut s = String::from_str("Echoed ");
                s.append(t.as_str());
                WorldAnswered::RawString(s)
            },
            AskWorld::AskVillageName(vid) => {
                match self.find_village(&vid) {
                    Some(i) => {
                        let name = self.villages[i].village_name.clone();
                        proof {
                            assert(self.villages@[i as int].village_id@ == vid@);
                        }
                        WorldAnswered::VillageName(Some(name))
                    },
                    None => WorldAnswered::VillageName(None),
                }
            },
        }
    }
}

} // verus!
