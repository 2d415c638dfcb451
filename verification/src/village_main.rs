//! The per-session phase state machine.
//!
//! One session actor owns one `VillageMain`. All waiting, persistence and
//! channel traffic happen outside the core: the actor reports what happened
//! as a `VillageEvent`, the machine moves to its next decision point and
//! returns the `VillageAction`s the actor must carry out, in order. The
//! machine suspends exactly in the states that wait on the internal mailbox
//! or on the answer to an earlier action.

use vstd::prelude::*;

use crate::handle_from_world::VillageInternal;
use crate::night_events::{
    spec_night_outcome, night_outcome, seer_verdict, spec_seer_verdict, NightEventsStorage,
    NightOutcome,
};
use crate::periods::{Daytime, Period, PeriodMaker, RawPeriod};
use crate::roles::Role;
use crate::streamer::{ExitFlag, InternalStreamer};
use crate::world_inlet::{FromVillage, NightActionResult};

verus! {

/// Where the session actor is suspended, waiting for the next event.
#[derive(Clone, Copy, Debug, PartialEq, Eq, Structural)]
pub enum MachineState {
    /// Created, not yet started.
    Idle,
    /// Gathering the population, waiting on the internal mailbox under the
    /// populating deadline.
    PopulatingWait,
    /// The populating deadline elapsed; waiting for the joined count.
    PopulatingCount,
    /// Waiting for the persisted role assignment's result.
    AssigningRoles,
    /// Burning the first-night grace window.
    FirstNightWait,
    /// Waiting out a sun-raise or lynch-time sub-phase.
    DaytimeWait,
    /// Midnight: waiting for the wolves' target.
    NightWolvesWait,
    /// Midnight: waiting for the doctor's target.
    NightDoctorWait,
    /// Midnight: waiting for the seer's target.
    NightSeerWait,
    /// Midnight: waiting for the seer target's role.
    NightSeerRole,
    /// Cleaned up and terminated; no further event is accepted.
    Dead,
}

/// What happened at the session actor's current suspension point.
#[derive(Clone, Debug)]
pub enum VillageEvent {
    /// One internal event arrived after `elapsed_ms` of the current wait.
    Internal { event: VillageInternal, elapsed_ms: u64 },
    /// The internal mailbox closed: every sender is gone.
    MailboxClosed,
    /// The current wait's budget ran out.
    WaitTimedOut,
    /// The joined count the machine asked for with `QueryCount`.
    CountResult(u64),
    /// The persisted assignment the machine asked for with `AssignRoles`.
    RolesResult(Vec<Role>),
    /// The role the machine asked for with `QueryRole`.
    RoleResult(Role),
}

/// One step the session actor must carry out, in the order returned.
#[derive(Clone, Debug)]
pub enum VillageAction {
    /// Persist the session's new phase ordinal.
    PersistPhase(RawPeriod),
    /// Report one event to the registry.
    Notify(FromVillage),
    /// Report the freshly assigned roles to the registry as text.
    ReportRoles(Vec<Role>),
    /// Announce the first-night grace window to the registry as text.
    AnnounceFirstNight,
    /// Wait on the internal mailbox for at most this many milliseconds.
    StartWait(u64),
    /// Ask the persistence collaborator for the joined count, then hand back
    /// `CountResult`.
    QueryCount,
    /// Have the persistence collaborator assign and persist the roles, then
    /// hand back `RolesResult`.
    AssignRoles,
    /// Mark this person dead in the persistence collaborator.
    MarkDead(String),
    /// Ask the persistence collaborator for this person's role, then hand
    /// back `RoleResult`.
    QueryRole(String),
    /// Delete this session's persisted person records and phase marker, and
    /// cancel its forwarder.
    Cleanup,
    /// The session is over: stop driving this machine.
    Terminate,
}

/// A budget of `timeout_ms` with nothing consumed and no exit recorded.
pub open spec fn spec_fresh_budget(timeout_ms: u64) -> InternalStreamer {
    InternalStreamer { timeout_ms, elapsed_ms: 0, exit_err: ExitFlag::NotExited }
}

/// The actions of a session-fatal exit: report the disposal, clean up,
/// terminate.
pub open spec fn spec_death_actions() -> Seq<VillageAction> {
    seq![
        VillageAction::Notify(FromVillage::VillageDisposed),
        VillageAction::Cleanup,
        VillageAction::Terminate,
    ]
}

/// The budget after one populating-deadline extension: the last wait's
/// consumption is recorded, the bound grows by `d`, and the next wait begins
/// on the remainder.
pub open spec fn spec_budget_after_extension(
    s: InternalStreamer,
    elapsed_ms: u64,
    d: u64,
) -> InternalStreamer {
    s.spec_record_elapsed(elapsed_ms).spec_increase_timeout(d).spec_begin_wait()
}

/// The per-session phase state machine: identity, the injected phase
/// configuration, the phase progress, and the transient wait and night
/// bookkeeping.
#[derive(Clone, Debug)]
pub struct VillageMain {
    pub village_id: String,
    pub village_name: String,
    pub maker: PeriodMaker,
    pub current_period_raw: RawPeriod,
    pub current_daytime: Daytime,
    pub state: MachineState,
    pub streamer: InternalStreamer,
    pub night: NightEventsStorage,
}

impl VillageMain {
    /// The machine's structural invariant: the phase ordinal always matches
    /// the suspension point, waits keep a sound budget, and a seer-role
    /// lookup only happens for a recorded seer target.
    pub open spec fn wf(self) -> bool {
        &&& self.streamer.wf()
        &&& (self.state is Idle ==> self.current_period_raw is NonePeriod)
        &&& (self.state is PopulatingWait || self.state is PopulatingCount
            ==> self.current_period_raw is Populating)
        &&& (self.state is AssigningRoles ==> self.current_period_raw is Assignments)
        &&& (self.state is FirstNightWait ==> self.current_period_raw is FirstNight)
        &&& (self.state is DaytimeWait || self.state is NightWolvesWait
            || self.state is NightDoctorWait || self.state is NightSeerWait
            || self.state is NightSeerRole ==> self.current_period_raw is DaytimeCycle)
        &&& (self.state is NightWolvesWait || self.state is NightDoctorWait
            || self.state is NightSeerWait || self.state is NightSeerRole
            ==> self.current_daytime is MidNight)
        &&& (self.state is DaytimeWait ==> !(self.current_daytime is MidNight))
        &&& (self.state is NightSeerRole ==> self.night.seer_choice_person_id is Some)
    }

    /// Whether the machine still accepts events.
    pub open spec fn running(self) -> bool {
        !(self.state is Dead)
    }

    /// Whether the machine is suspended on the internal mailbox, so that
    /// internal events, the mailbox closing, and the wait's deadline apply.
    pub open spec fn spec_mailbox_waiting(self) -> bool {
        ||| self.state is PopulatingWait
        ||| self.state is FirstNightWait
        ||| self.state is DaytimeWait
        ||| self.state is NightWolvesWait
        ||| self.state is NightDoctorWait
        ||| self.state is NightSeerWait
    }

    /// Whether the current suspension point gives this internal event a
    /// specific meaning; every other safe event is drained and discarded.
    pub open spec fn spec_handles(self, event: VillageInternal) -> bool {
        match self.state {
            MachineState::PopulatingWait => event is PersonsFilled
                || event is ExtendPopulationTime,
            MachineState::NightWolvesWait => event is WolvesVictimSelected,
            MachineState::NightDoctorWait => event is DoctorTargetSelected,
            MachineState::NightSeerWait => event is SeerTargetSelected,
            _ => false,
        }
    }

    /// Whether this event can arrive at the machine's current suspension
    /// point at all.
    pub open spec fn spec_admits(self, event: VillageEvent) -> bool {
        match event {
            VillageEvent::Internal { .. } => self.spec_mailbox_waiting(),
            VillageEvent::MailboxClosed => self.spec_mailbox_waiting(),
            VillageEvent::WaitTimedOut => self.spec_mailbox_waiting(),
            VillageEvent::CountResult(_) => self.state is PopulatingCount,
            VillageEvent::RolesResult(_) => self.state is AssigningRoles,
            VillageEvent::RoleResult(_) => self.state is NightSeerRole,
        }
    }

    /// The discard rule as one relation: a drained internal event that is
    /// neither `Die` nor meaningful at the current suspension point leaves
    /// everything but the wait budget alone, and the wait resumes.
    pub open spec fn spec_discard_case(
        self,
        event: VillageEvent,
        post: VillageMain,
        acts: Seq<VillageAction>,
    ) -> bool {
        match event {
            VillageEvent::Internal { event: e, elapsed_ms } => !(e is Die) && !self.spec_handles(e)
                ==> post == self.spec_after_discard(elapsed_ms) && acts =~= self.spec_discard_actions(
                elapsed_ms,
            ),
            _ => true,
        }
    }

    /// The machine after a drained, discarded internal event: only the wait
    /// budget moves, by the time the ended wait consumed.
    pub open spec fn spec_after_discard(self, elapsed_ms: u64) -> VillageMain {
        VillageMain {
            streamer: self.streamer.spec_record_elapsed(elapsed_ms).spec_begin_wait(),
            ..self
        }
    }

    /// After a discarded event the actor simply waits again, on what is left
    /// of the budget.
    pub open spec fn spec_discard_actions(self, elapsed_ms: u64) -> Seq<VillageAction> {
        seq![
            VillageAction::StartWait(
                self.streamer.spec_record_elapsed(elapsed_ms).spec_begin_wait().timeout_ms,
            ),
        ]
    }

    /// Entering the assignment phase: announce the readiness, persist and
    /// announce the new phase, and have the collaborator assign the roles.
    pub open spec fn spec_assignments_entry_actions(self) -> Seq<VillageAction> {
        seq![
            VillageAction::Notify(FromVillage::PeriodReady(RawPeriod::Assignments)),
            VillageAction::PersistPhase(RawPeriod::Assignments),
            VillageAction::Notify(
                FromVillage::NewPeriod(self.maker.spec_resolve(RawPeriod::Assignments)),
            ),
            VillageAction::AssignRoles,
        ]
    }

    /// The machine after the daytime rotation advances one sub-phase: a new
    /// full budget for the sub-phase; midnight additionally opens a fresh
    /// night and turns to the wolves.
    pub open spec fn spec_advance_daytime(self) -> VillageMain {
        let nd = self.current_daytime.spec_cross();
        let dur = self.maker.daytime_durs.spec_duration_for(nd);
        if nd is MidNight {
            VillageMain {
                current_daytime: nd,
                state: MachineState::NightWolvesWait,
                streamer: spec_fresh_budget(dur),
                night: NightEventsStorage {
                    wolves_choice_person_id: None,
                    doctor_choice_person_id: None,
                    seer_choice_person_id: None,
                },
                ..self
            }
        } else {
            VillageMain {
                current_daytime: nd,
                state: MachineState::DaytimeWait,
                streamer: spec_fresh_budget(dur),
                ..self
            }
        }
    }

    /// The actions of one daytime rotation step: announce the new sub-phase
    /// and its duration, at midnight open the wolves' turn, and wait.
    pub open spec fn spec_advance_daytime_actions(self) -> Seq<VillageAction> {
        let nd = self.current_daytime.spec_cross();
        let dur = self.maker.daytime_durs.spec_duration_for(nd);
        if nd is MidNight {
            seq![
                VillageAction::Notify(FromVillage::DaytimeCycled(nd, dur)),
                VillageAction::Notify(FromVillage::WolvesTurn),
                VillageAction::StartWait(dur),
            ]
        } else {
            seq![
                VillageAction::Notify(FromVillage::DaytimeCycled(nd, dur)),
                VillageAction::StartWait(dur),
            ]
        }
    }

    /// The machine once all three night turns are over: a recorded seer
    /// target first needs its role looked up; otherwise the daytime rotation
    /// advances at once.
    pub open spec fn spec_finish_night(self) -> VillageMain {
        if self.night.seer_choice_person_id is Some {
            VillageMain { state: MachineState::NightSeerRole, ..self }
        } else {
            self.spec_advance_daytime()
        }
    }

    /// The reports the save/eat rule yields for this night's choices.
    pub open spec fn spec_outcome_actions(self) -> Seq<VillageAction> {
        match spec_night_outcome(
            self.night.wolves_choice_person_id,
            self.night.doctor_choice_person_id,
        ) {
            NightOutcome::NoneEaten => seq![
                VillageAction::Notify(
                    FromVillage::ReportNightActionResult(NightActionResult::NoneEaten),
                ),
            ],
            NightOutcome::Saved(p) => seq![
                VillageAction::Notify(
                    FromVillage::ReportNightActionResult(NightActionResult::PersonSaved(p)),
                ),
            ],
            NightOutcome::Eaten(p) => seq![
                VillageAction::MarkDead(p),
                VillageAction::Notify(
                    FromVillage::ReportNightActionResult(NightActionResult::PersonEaten(p)),
                ),
            ],
        }
    }

    /// The actions once all three night turns are over: report the save/eat
    /// outcome (a victim not saved is marked dead first), then either look
    /// up the seer target's role or advance the daytime rotation.
    pub open spec fn spec_finish_night_actions(self) -> Seq<VillageAction> {
        self.spec_outcome_actions() + match self.night.seer_choice_person_id {
            Option::Some(s) => seq![VillageAction::QueryRole(s)],
            Option::None => self.spec_advance_daytime_actions(),
        }
    }

    /// A fresh session machine: phase ordinal `NonePeriod`, nothing waited
    /// on yet.
    pub fn new(village_id: String, village_name: String, maker: PeriodMaker) -> (r: VillageMain)
        ensures
            r.village_id == village_id,
            r.village_name == village_name,
            r.maker == maker,
            r.current_period_raw is NonePeriod,
            r.current_daytime is MidNight,
            r.state is Idle,
            r.night.wolves_choice_person_id is None,
            r.night.doctor_choice_person_id is None,
            r.night.seer_choice_person_id is None,
            r.wf(),
    {
        VillageMain {
            village_id,
            village_name,
            maker,
            current_period_raw: RawPeriod::NonePeriod,
            current_daytime: Daytime::MidNight,
            state: MachineState::Idle,
            streamer: InternalStreamer::new(0),
            night: NightEventsStorage::new(),
        }
    }

    /// The phase detail the injected configuration gives the current phase
    /// ordinal.
    pub fn get_current_period(&self) -> (r: Period)
        ensures
            r == self.maker.spec_resolve(self.current_period_raw),
    {
        self.maker.resolve(self.current_period_raw)
    }

    /// Starts the session: crosses into the populating phase, persists and
    /// announces it, and waits out the configured populating deadline.
    pub fn start(&mut self) -> (acts: Vec<VillageAction>)
        requires
            old(self).wf(),
            old(self).state is Idle,
        ensures
            final(self).wf(),
            *final(self) == (VillageMain {
                current_period_raw: RawPeriod::Populating,
                state: MachineState::PopulatingWait,
                streamer: spec_fresh_budget(old(self).maker.populating_dur_ms),
                ..*old(self)
            }),
            acts@ =~= seq![
                VillageAction::PersistPhase(RawPeriod::Populating),
                VillageAction::Notify(
                    FromVillage::NewPeriod(old(self).maker.spec_resolve(RawPeriod::Populating)),
                ),
                VillageAction::StartWait(old(self).maker.populating_dur_ms),
            ],
    {
        let mut acts: Vec<VillageAction> = Vec::new();
        self.current_period_raw = RawPeriod::Populating;
        self.state = MachineState::PopulatingWait;
        let dur = self.maker.populating_dur_ms;
        self.streamer.reset(dur);
        acts.push(VillageAction::PersistPhase(RawPeriod::Populating));
        acts.push(
            VillageAction::Notify(
                FromVillage::NewPeriod(self.maker.resolve(RawPeriod::Populating)),
            ),
        );
        acts.push(VillageAction::StartWait(dur));
        acts
    }

    /// Enters the assignment phase from the populating phase.
    fn enter_assignments(&mut self) -> (acts: Vec<VillageAction>)
        requires
            old(self).wf(),
            old(self).current_period_raw is Populating,
        ensures
            final(self).wf(),
            *final(self) == (VillageMain {
                current_period_raw: RawPeriod::Assignments,
                state: MachineState::AssigningRoles,
                ..*old(self)
            }),
            acts@ =~= old(self).spec_assignments_entry_actions(),
    {
        let mut acts: Vec<VillageAction> = Vec::new();
        self.current_period_raw = RawPeriod::Assignments;
        self.state = MachineState::AssigningRoles;
        acts.push(VillageAction::Notify(FromVillage::PeriodReady(RawPeriod::Assignments)));
        acts.push(VillageAction::PersistPhase(RawPeriod::Assignments));
        acts.push(
            VillageAction::Notify(
                FromVillage::NewPeriod(self.maker.resolve(RawPeriod::Assignments)),
            ),
        );
        acts.push(VillageAction::AssignRoles);
        acts
    }

    /// Advances the daytime rotation by one sub-phase.
    fn advance_daytime(&mut self) -> (acts: Vec<VillageAction>)
        requires
            old(self).current_period_raw is DaytimeCycle,
        ensures
            final(self).wf(),
            *final(self) == old(self).spec_advance_daytime(),
            acts@ =~= old(self).spec_advance_daytime_actions(),
    {
        let mut acts: Vec<VillageAction> = Vec::new();
        let nd = self.current_daytime.cross();
        self.current_daytime = nd;
        let dur = self.maker.daytime_durs.duration_for(nd);
        acts.push(VillageAction::Notify(FromVillage::DaytimeCycled(nd, dur)));
        if matches!(nd, Daytime::MidNight) {
            self.night = NightEventsStorage::new();
            self.state = MachineState::NightWolvesWait;
            self.streamer.reset(dur);
            acts.push(VillageAction::Notify(FromVillage::WolvesTurn));
            acts.push(VillageAction::StartWait(dur));
        } else {
            self.state = MachineState::DaytimeWait;
            self.streamer.reset(dur);
            acts.push(VillageAction::StartWait(dur));
        }
        acts
    }

    /// Resolves and reports the finished night, then either turns to the
    /// seer's report or advances the daytime rotation.
    fn finish_night(&mut self) -> (acts: Vec<VillageAction>)
        requires
            old(self).streamer.wf(),
            old(self).current_period_raw is DaytimeCycle,
            old(self).current_daytime is MidNight,
        ensures
            final(self).wf(),
            *final(self) == old(self).spec_finish_night(),
            acts@ =~= old(self).spec_finish_night_actions(),
    {
        let mut acts: Vec<VillageAction> = Vec::new();
        let (wolves, doctor, seer) = self.night.wolves_doctor_seer_choices();
        let outcome = night_outcome(wolves, doctor);
        match outcome {
            NightOutcome::NoneEaten => {
                acts.push(
                    VillageAction::Notify(
                        FromVillage::ReportNightActionResult(NightActionResult::NoneEaten),
                    ),
                );
            },
            NightOutcome::Saved(p) => {
                acts.push(
                    VillageAction::Notify(
                        FromVillage::ReportNightActionResult(NightActionResult::PersonSaved(p)),
                    ),
                );
            },
            NightOutcome::Eaten(p) => {
                acts.push(VillageAction::MarkDead(p.clone()));
                acts.push(
                    VillageAction::Notify(
                        FromVillage::ReportNightActionResult(NightActionResult::PersonEaten(p)),
                    ),
                );
            },
        }
        match seer {
            Some(s) => {
                self.state = MachineState::NightSeerRole;
                acts.push(VillageAction::QueryRole(s));
            },
            None => {
                let mut more = self.advance_daytime();
                acts.append(&mut more);
            },
        }
        acts
    }

    /// Whether the actor is suspended on the internal mailbox.
    fn is_mailbox_waiting(&self) -> (r: bool)
        ensures
            r == self.spec_mailbox_waiting(),
    {
        matches!(
            self.state,
            MachineState::PopulatingWait | MachineState::FirstNightWait | MachineState::DaytimeWait
                | MachineState::NightWolvesWait | MachineState::NightDoctorWait
                | MachineState::NightSeerWait
        )
    }

    /// Moves the machine by one event and returns what the actor must do.
    ///
    /// An event that cannot arrive at the current suspension point changes
    /// nothing. A `Die` internal event or the closed mailbox always wins
    /// over the phase logic: clean up and terminate. A drained internal
    /// event the suspension point gives no meaning is discarded and the
    /// wait resumes on the shrunken budget.
    pub fn step(&mut self, event: VillageEvent) -> (acts: Vec<VillageAction>)
        requires
            old(self).wf(),
        ensures
            final(self).wf(),
            // The phase ordinal never moves backwards, and one event advances
            // it by at most one step.
            old(self).current_period_raw.spec_to_code()
                <= final(self).current_period_raw.spec_to_code()
                <= old(self).current_period_raw.spec_to_code() + 1,
            !old(self).spec_admits(event) ==> *final(self) == *old(self) && acts@ =~= Seq::<
                VillageAction,
            >::empty(),
            // A Die event or the closed mailbox is an immediate,
            // state-independent exit: cleanup always wins over the phase logic.
            old(self).spec_mailbox_waiting() && (event matches VillageEvent::Internal {
                event: e,
                ..
            } && e is Die || event is MailboxClosed) ==> *final(self) == (VillageMain {
                state: MachineState::Dead,
                streamer: (InternalStreamer {
                    exit_err: ExitFlag::VillageDead,
                    ..old(self).streamer
                }),
                ..*old(self)
            }) && acts@ =~= spec_death_actions(),
            // A drained internal event without a meaning here is discarded.
            old(self).spec_mailbox_waiting() ==> old(self).spec_discard_case(
                event,
                *final(self),
                acts@,
            ),
            // Population filled: announce readiness and enter the assignment
            // phase.
            old(self).state is PopulatingWait ==> (event matches VillageEvent::Internal {
                event: VillageInternal::PersonsFilled,
                elapsed_ms,
            } ==> *final(self) == (VillageMain {
                current_period_raw: RawPeriod::Assignments,
                state: MachineState::AssigningRoles,
                streamer: old(self).streamer.spec_record_elapsed(elapsed_ms),
                ..*old(self)
            }) && acts@ =~= old(self).spec_assignments_entry_actions()),
            // A deadline extension grows only the remainder, never resetting
            // already-elapsed time.
            old(self).state is PopulatingWait ==> (event matches VillageEvent::Internal {
                event: VillageInternal::ExtendPopulationTime(d),
                elapsed_ms,
            } ==> *final(self) == (VillageMain {
                streamer: spec_budget_after_extension(old(self).streamer, elapsed_ms, d),
                ..*old(self)
            }) && acts@ =~= seq![
                VillageAction::StartWait(
                    spec_budget_after_extension(old(self).streamer, elapsed_ms, d).timeout_ms,
                ),
            ]),
            // The populating deadline elapsed: re-check the joined count.
            old(self).state is PopulatingWait && event is WaitTimedOut ==> *final(self)
                == (VillageMain {
                state: MachineState::PopulatingCount,
                streamer: (InternalStreamer { exit_err: ExitFlag::TimedOut, ..old(self).streamer }),
                ..*old(self)
            }) && acts@ =~= seq![VillageAction::QueryCount],
            // Below the minimum the session times out and dies; at or above it
            // (the minimum is inclusive) it proceeds as if filled.
            old(self).state is PopulatingCount ==> (event matches VillageEvent::CountResult(c)
                ==> (c < old(self).maker.min_persons as u64 ==> *final(self) == (VillageMain {
                state: MachineState::Dead,
                ..*old(self)
            }) && acts@ =~= seq![
                VillageAction::Notify(FromVillage::PopulatingTimedOut),
                VillageAction::Cleanup,
                VillageAction::Terminate,
            ]) && (c >= old(self).maker.min_persons as u64 ==> *final(self) == (VillageMain {
                current_period_raw: RawPeriod::Assignments,
                state: MachineState::AssigningRoles,
                ..*old(self)
            }) && acts@ =~= old(self).spec_assignments_entry_actions())),
            // Roles assigned: report them and burn the first-night window.
            old(self).state is AssigningRoles ==> (event matches VillageEvent::RolesResult(roles)
                ==> *final(self) == (VillageMain {
                current_period_raw: RawPeriod::FirstNight,
                state: MachineState::FirstNightWait,
                streamer: spec_fresh_budget(old(self).maker.first_night_ms),
                ..*old(self)
            }) && acts@ =~= seq![
                VillageAction::ReportRoles(roles),
                VillageAction::PersistPhase(RawPeriod::FirstNight),
                VillageAction::Notify(
                    FromVillage::NewPeriod(old(self).maker.spec_resolve(RawPeriod::FirstNight)),
                ),
                VillageAction::AnnounceFirstNight,
                VillageAction::StartWait(old(self).maker.first_night_ms),
            ]),
            // The first night burned out: the day/night rotation begins.
            old(self).state is FirstNightWait && event is WaitTimedOut ==> *final(self)
                == (VillageMain {
                current_period_raw: RawPeriod::DaytimeCycle,
                ..*old(self)
            }).spec_advance_daytime() && acts@ =~= seq![
                VillageAction::PersistPhase(RawPeriod::DaytimeCycle),
                VillageAction::Notify(
                    FromVillage::NewPeriod(old(self).maker.spec_resolve(RawPeriod::DaytimeCycle)),
                ),
            ] + (VillageMain {
                current_period_raw: RawPeriod::DaytimeCycle,
                ..*old(self)
            }).spec_advance_daytime_actions(),
            // A sun-raise or lynch-time sub-phase ran out: rotate.
            old(self).state is DaytimeWait && event is WaitTimedOut ==> *final(self) == old(
                self,
            ).spec_advance_daytime() && acts@ =~= old(self).spec_advance_daytime_actions(),
            // The wolves chose: record the victim; the doctor's turn begins on
            // a fresh full budget.
            old(self).state is NightWolvesWait ==> (event matches VillageEvent::Internal {
                event: VillageInternal::WolvesVictimSelected(p),
                ..
            } ==> *final(self) == (VillageMain {
                state: MachineState::NightDoctorWait,
                streamer: spec_fresh_budget(old(self).maker.daytime_durs.mid_night_ms),
                night: (NightEventsStorage {
                    wolves_choice_person_id: Some(p),
                    ..old(self).night
                }),
                ..*old(self)
            }) && acts@ =~= seq![
                VillageAction::Notify(FromVillage::DoctorTurn),
                VillageAction::StartWait(old(self).maker.daytime_durs.mid_night_ms),
            ]),
            // The wolves stayed silent: the doctor's turn begins regardless.
            old(self).state is NightWolvesWait && event is WaitTimedOut ==> *final(self)
                == (VillageMain {
                state: MachineState::NightDoctorWait,
                streamer: spec_fresh_budget(old(self).maker.daytime_durs.mid_night_ms),
                ..*old(self)
            }) && acts@ =~= seq![
                VillageAction::Notify(FromVillage::DoctorTurn),
                VillageAction::StartWait(old(self).maker.daytime_durs.mid_night_ms),
            ],
            // The doctor chose: record the save; the seer's turn begins.
            old(self).state is NightDoctorWait ==> (event matches VillageEvent::Internal {
                event: VillageInternal::DoctorTargetSelected(p),
                ..
            } ==> *final(self) == (VillageMain {
                state: MachineState::NightSeerWait,
                streamer: spec_fresh_budget(old(self).maker.daytime_durs.mid_night_ms),
                night: (NightEventsStorage {
                    doctor_choice_person_id: Some(p),
                    ..old(self).night
                }),
                ..*old(self)
            }) && acts@ =~= seq![
                VillageAction::Notify(FromVillage::SeerTurn),
                VillageAction::StartWait(old(self).maker.daytime_durs.mid_night_ms),
            ]),
            // The doctor stayed silent: the seer's turn begins regardless.
            old(self).state is NightDoctorWait && event is WaitTimedOut ==> *final(self)
                == (VillageMain {
                state: MachineState::NightSeerWait,
                streamer: spec_fresh_budget(old(self).maker.daytime_durs.mid_night_ms),
                ..*old(self)
            }) && acts@ =~= seq![
                VillageAction::Notify(FromVillage::SeerTurn),
                VillageAction::StartWait(old(self).maker.daytime_durs.mid_night_ms),
            ],
            // The seer chose: record the target; the night resolves.
            old(self).state is NightSeerWait ==> (event matches VillageEvent::Internal {
                event: VillageInternal::SeerTargetSelected(p),
                elapsed_ms,
            } ==> *final(self) == (VillageMain {
                night: (NightEventsStorage { seer_choice_person_id: Some(p), ..old(self).night }),
                streamer: old(self).streamer.spec_record_elapsed(elapsed_ms),
                ..*old(self)
            }).spec_finish_night() && acts@ =~= (VillageMain {
                night: (NightEventsStorage { seer_choice_person_id: Some(p), ..old(self).night }),
                streamer: old(self).streamer.spec_record_elapsed(elapsed_ms),
                ..*old(self)
            }).spec_finish_night_actions()),
            // The seer stayed silent: the night resolves without a report.
            old(self).state is NightSeerWait && event is WaitTimedOut ==> *final(self) == old(
                self,
            ).spec_finish_night() && acts@ =~= old(self).spec_finish_night_actions(),
            // The seer target's role came back: report whether it is exactly
            // the plain wolf role, then rotate onward.
            old(self).state is NightSeerRole ==> (event matches VillageEvent::RoleResult(role)
                ==> (old(self).night.seer_choice_person_id matches Some(s) ==> *final(self) == old(
                self,
            ).spec_advance_daytime() && acts@ =~= seq![
                VillageAction::Notify(
                    FromVillage::ReportNightActionResult(
                        NightActionResult::SeerReport(s, spec_seer_verdict(role)),
                    ),
                ),
            ] + old(self).spec_advance_daytime_actions())),
    {
        let mut acts: Vec<VillageAction> = Vec::new();
        match event {
            VillageEvent::Internal { event: internal, elapsed_ms } => {
                if !self.is_mailbox_waiting() {
                    return acts;
                }
                if matches!(internal, VillageInternal::Die) {
                    self.streamer.mark_village_dead();
                    self.state = MachineState::Dead;
                    acts.push(VillageAction::Notify(FromVillage::VillageDisposed));
                    acts.push(VillageAction::Cleanup);
                    acts.push(VillageAction::Terminate);
                    return acts;
                }
                self.streamer.record_elapsed(elapsed_ms);
                let st = self.state;
                match (st, internal) {
                    (MachineState::PopulatingWait, VillageInternal::PersonsFilled) => {
                        let mut more = self.enter_assignments();
                        acts.append(&mut more);
                    },
                    (MachineState::PopulatingWait, VillageInternal::ExtendPopulationTime(d)) => {
                        self.streamer.increase_timeout(d);
                        let w = self.streamer.begin_wait();
                        acts.push(VillageAction::StartWait(w));
                    },
                    (MachineState::NightWolvesWait, VillageInternal::WolvesVictimSelected(p)) => {
                        self.night.wolves_choice_person_id = Some(p);
                        let mid = self.maker.daytime_durs.mid_night_ms;
                        self.streamer.reset(mid);
                        self.state = MachineState::NightDoctorWait;
                        acts.push(VillageAction::Notify(FromVillage::DoctorTurn));
                        acts.push(VillageAction::StartWait(mid));
                    },
                    (MachineState::NightDoctorWait, VillageInternal::DoctorTargetSelected(p)) => {
                        self.night.doctor_choice_person_id = Some(p);
                        let mid = self.maker.daytime_durs.mid_night_ms;
                        self.streamer.reset(mid);
                        self.state = MachineState::NightSeerWait;
                        acts.push(VillageAction::Notify(FromVillage::SeerTurn));
                        acts.push(VillageAction::StartWait(mid));
                    },
                    (MachineState::NightSeerWait, VillageInternal::SeerTargetSelected(p)) => {
                        self.night.seer_choice_person_id = Some(p);
                        let mut more = self.finish_night();
                        acts.append(&mut more);
                    },
                    (_, _) => {
                        let w = self.streamer.begin_wait();
                        acts.push(VillageAction::StartWait(w));
                    },
                }
                acts
            },
            VillageEvent::MailboxClosed => {
                if !self.is_mailbox_waiting() {
                    return acts;
                }
                self.streamer.mark_village_dead();
                self.state = MachineState::Dead;
                acts.push(VillageAction::Notify(FromVillage::VillageDisposed));
                acts.push(VillageAction::Cleanup);
                acts.push(VillageAction::Terminate);
                acts
            },
            VillageEvent::WaitTimedOut => {
                if !self.is_mailbox_waiting() {
                    return acts;
                }
                match self.state {
                    MachineState::PopulatingWait => {
                        self.streamer.mark_timed_out();
                        self.state = MachineState::PopulatingCount;
                        acts.push(VillageAction::QueryCount);
                    },
                    MachineState::FirstNightWait => {
                        self.current_period_raw = RawPeriod::DaytimeCycle;
                        acts.push(VillageAction::PersistPhase(RawPeriod::DaytimeCycle));
                        acts.push(
                            VillageAction::Notify(
                                FromVillage::NewPeriod(self.maker.resolve(RawPeriod::DaytimeCycle)),
                            ),
                        );
                        let mut more = self.advance_daytime();
                        acts.append(&mut more);
                    },
                    MachineState::DaytimeWait => {
                        let mut more = self.advance_daytime();
                        acts.append(&mut more);
                    },
                    MachineState::NightWolvesWait => {
                        let mid = self.maker.daytime_durs.mid_night_ms;
                        self.streamer.reset(mid);
                        self.state = MachineState::NightDoctorWait;
                        acts.push(VillageAction::Notify(FromVillage::DoctorTurn));
                        acts.push(VillageAction::StartWait(mid));
                    },
                    MachineState::NightDoctorWait => {
                        let mid = self.maker.daytime_durs.mid_night_ms;
                        self.streamer.reset(mid);
                        self.state = MachineState::NightSeerWait;
                        acts.push(VillageAction::Notify(FromVillage::SeerTurn));
                        acts.push(VillageAction::StartWait(mid));
                    },
                    MachineState::NightSeerWait => {
                        let mut more = self.finish_night();
                        acts.append(&mut more);
                    },
                    _ => {},
                }
                acts
            },
            VillageEvent::CountResult(c) => {
                if !matches!(self.state, MachineState::PopulatingCount) {
                    return acts;
                }
                if c < self.maker.min_persons as u64 {
                    self.state = MachineState::Dead;
                    acts.push(VillageAction::Notify(FromVillage::PopulatingTimedOut));
                    acts.push(VillageAction::Cleanup);
                    acts.push(VillageAction::Terminate);
                } else {
                    let mut more = self.enter_assignments();
                    acts.append(&mut more);
                }
                acts
            },
            VillageEvent::RolesResult(roles) => {
                if !matches!(self.state, MachineState::AssigningRoles) {
                    return acts;
                }
                self.current_period_raw = RawPeriod::FirstNight;
                self.state = MachineState::FirstNightWait;
                let dur = self.maker.first_night_ms;
                self.streamer.reset(dur);
                acts.push(VillageAction::ReportRoles(roles));
                acts.push(VillageAction::PersistPhase(RawPeriod::FirstNight));
                acts.push(
                    VillageAction::Notify(
                        FromVillage::NewPeriod(self.maker.resolve(RawPeriod::FirstNight)),
                    ),
                );
                acts.push(VillageAction::AnnounceFirstNight);
                acts.push(VillageAction::StartWait(dur));
                acts
            },
            VillageEvent::RoleResult(role) => {
                if !matches!(self.state, MachineState::NightSeerRole) {
                    return acts;
                }
                let seer = match &self.night.seer_choice_person_id {
                    Some(s) => s.clone(),
                    None => {
                        proof {
                            assert(false);
                        }
                        return acts;
                    },
                };
                let verdict = seer_verdict(role);
                acts.push(
                    VillageAction::Notify(
                        FromVillage::ReportNightActionResult(
                            NightActionResult::SeerReport(seer, verdict),
                        ),
                    ),
                );
                let mut more = self.advance_daytime();
                acts.append(&mut more);
                acts
            },
        }
    }
}

} // verus!
