//! Phases of a session: the ordered phase ordinal, the per-phase
//! configuration, and the cyclic daytime sub-phase.

use vstd::prelude::*;

verus! {

/// How roles are handed out during the assignment phase.
#[derive(Clone, Copy, Debug, PartialEq, Eq, Structural)]
pub enum AssignmentMode {
    Normal,
}

/// The cyclic sub-phase used while the phase ordinal is `DaytimeCycle`.
#[derive(Clone, Copy, Debug, PartialEq, Eq, Structural)]
pub enum Daytime {
    MidNight,
    SunRaise,
    LynchTime,
}

impl Daytime {
    /// The fixed rotation of the daytime sub-phases.
    pub open spec fn spec_cross(self) -> Daytime {
        match self {
            Daytime::MidNight => Daytime::SunRaise,
            Daytime::SunRaise => Daytime::LynchTime,
            Daytime::LynchTime => Daytime::MidNight,
        }
    }

    /// Advances to the next daytime sub-phase in the fixed rotation.
    pub fn cross(&self) -> (r: Daytime)
        ensures
            r == self.spec_cross(),
    {
        match *self {
            Daytime::MidNight => Daytime::SunRaise,
            Daytime::SunRaise => Daytime::LynchTime,
            Daytime::LynchTime => Daytime::MidNight,
        }
    }
}

/// The strictly ordered phase ordinal of a session. `cross` advances exactly
/// one step and fails once the last phase is reached.
#[derive(Clone, Copy, Debug, PartialEq, Eq, Structural)]
pub enum RawPeriod {
    NonePeriod,
    Populating,
    Assignments,
    FirstNight,
    DaytimeCycle,
    Ending,
}

impl RawPeriod {
    /// The next phase ordinal, or `Err` when there is no further phase.
    pub open spec fn spec_cross(self) -> Result<RawPeriod, ()> {
        match self {
            RawPeriod::NonePeriod => Ok(RawPeriod::Populating),
            RawPeriod::Populating => Ok(RawPeriod::Assignments),
            RawPeriod::Assignments => Ok(RawPeriod::FirstNight),
            RawPeriod::FirstNight => Ok(RawPeriod::DaytimeCycle),
            RawPeriod::DaytimeCycle => Ok(RawPeriod::Ending),
            RawPeriod::Ending => Err(()),
        }
    }

    /// Advances to the next phase ordinal; fails only at the last phase.
    pub fn cross(&self) -> (r: Result<RawPeriod, ()>)
        ensures
            r == self.spec_cross(),
    {
        match *self {
            RawPeriod::NonePeriod => Ok(RawPeriod::Populating),
            RawPeriod::Populating => Ok(RawPeriod::Assignments),
            RawPeriod::Assignments => Ok(RawPeriod::FirstNight),
            RawPeriod::FirstNight => Ok(RawPeriod::DaytimeCycle),
            RawPeriod::DaytimeCycle => Ok(RawPeriod::Ending),
            RawPeriod::Ending => Err(()),
        }
    }

    /// The integer each phase ordinal is persisted as.
    pub open spec fn spec_to_code(self) -> i32 {
        match self {
            RawPeriod::NonePeriod => 0,
            RawPeriod::Populating => 1,
            RawPeriod::Assignments => 2,
            RawPeriod::FirstNight => 3,
            RawPeriod::DaytimeCycle => 4,
            RawPeriod::Ending => 5,
        }
    }

    /// The phase ordinal a persisted integer stands for; unknown integers
    /// fall back to `Ending`.
    pub open spec fn spec_from_code(code: i32) -> RawPeriod {
        if code == 0 {
            RawPeriod::NonePeriod
        } else if code == 1 {
            RawPeriod::Populating
        } else if code == 2 {
            RawPeriod::Assignments
        } else if code == 3 {
            RawPeriod::FirstNight
        } else if code == 4 {
            RawPeriod::DaytimeCycle
        } else {
            RawPeriod::Ending
        }
    }

    /// Encodes this phase ordinal for persistence.
    pub fn to_code(self) -> (r: i32)
        ensures
            r == self.spec_to_code(),
    {
        match self {
            RawPeriod::NonePeriod => 0,
            RawPeriod::Populating => 1,
            RawPeriod::Assignments => 2,
            RawPeriod::FirstNight => 3,
            RawPeriod::DaytimeCycle => 4,
            RawPeriod::Ending => 5,
        }
    }

    /// Decodes a persisted integer into a phase ordinal.
    pub fn from_code(code: i32) -> (r: RawPeriod)
        ensures
            r == RawPeriod::spec_from_code(code),
    {
        match code {
            0 => RawPeriod::NonePeriod,
            1 => RawPeriod::Populating,
            2 => RawPeriod::Assignments,
            3 => RawPeriod::FirstNight,
            4 => RawPeriod::DaytimeCycle,
            _ => RawPeriod::Ending,
        }
    }
}

/// Starting from `None`, repeated crossing visits exactly Populating,
/// Assignments, FirstNight, DaytimeCycle, Ending in that order, and a
/// further cross from Ending fails.
pub proof fn lemma_period_progression()
    ensures
        RawPeriod::NonePeriod.spec_cross() == Ok::<RawPeriod, ()>(RawPeriod::Populating),
        RawPeriod::Populating.spec_cross() == Ok::<RawPeriod, ()>(RawPeriod::Assignments),
        RawPeriod::Assignments.spec_cross() == Ok::<RawPeriod, ()>(RawPeriod::FirstNight),
        RawPeriod::FirstNight.spec_cross() == Ok::<RawPeriod, ()>(RawPeriod::DaytimeCycle),
        RawPeriod::DaytimeCycle.spec_cross() == Ok::<RawPeriod, ()>(RawPeriod::Ending),
        RawPeriod::Ending.spec_cross() == Err::<RawPeriod, ()>(()),
{
}

/// Each phase ordinal other than `Ending` crosses to a strictly larger
/// ordinal: the phase order is monotonic.
pub proof fn lemma_cross_monotonic(p: RawPeriod)
    requires
        !(p is Ending),
    ensures
        p.spec_cross() is Ok,
        p.spec_cross()->Ok_0.spec_to_code() == p.spec_to_code() + 1,
{
}

/// How long each daytime sub-phase lasts, in milliseconds.
#[derive(Clone, Copy, Debug, PartialEq, Eq, Structural)]
pub struct DaytimeDurations {
    pub mid_night_ms: u64,
    pub sun_raise_ms: u64,
    pub lynch_time_ms: u64,
}

impl DaytimeDurations {
    /// The duration the table holds for one daytime sub-phase.
    pub open spec fn spec_duration_for(self, daytime: Daytime) -> u64 {
        match daytime {
            Daytime::MidNight => self.mid_night_ms,
            Daytime::SunRaise => self.sun_raise_ms,
            Daytime::LynchTime => self.lynch_time_ms,
        }
    }

    /// Looks up the duration of one daytime sub-phase.
    pub fn duration_for(&self, daytime: Daytime) -> (r: u64)
        ensures
            r == self.spec_duration_for(daytime),
    {
        match daytime {
            Daytime::MidNight => self.mid_night_ms,
            Daytime::SunRaise => self.sun_raise_ms,
            Daytime::LynchTime => self.lynch_time_ms,
        }
    }
}

/// The phase detail: a phase ordinal together with its configuration.
/// All durations are in milliseconds.
#[derive(Clone, Copy, Debug, PartialEq, Eq, Structural)]
pub enum Period {
    NonePeriod,
    Populating { min_persons: u8, max_persons: u8, max_dur_ms: u64 },
    Assignments(AssignmentMode),
    FirstNight(u64),
    DaytimeCycle(DaytimeDurations),
    Ending,
}

impl Period {
    /// The phase ordinal this detail belongs to.
    pub open spec fn spec_to_raw(self) -> RawPeriod {
        match self {
            Period::NonePeriod => RawPeriod::NonePeriod,
            Period::Populating { .. } => RawPeriod::Populating,
            Period::Assignments(_) => RawPeriod::Assignments,
            Period::FirstNight(_) => RawPeriod::FirstNight,
            Period::DaytimeCycle(_) => RawPeriod::DaytimeCycle,
            Period::Ending => RawPeriod::Ending,
        }
    }

    /// Forgets the configuration, keeping only the phase ordinal.
    pub fn to_raw(self) -> (r: RawPeriod)
        ensures
            r == self.spec_to_raw(),
    {
        match self {
            Period::NonePeriod => RawPeriod::NonePeriod,
            Period::Populating { .. } => RawPeriod::Populating,
            Period::Assignments(_) => RawPeriod::Assignments,
            Period::FirstNight(_) => RawPeriod::FirstNight,
            Period::DaytimeCycle(_) => RawPeriod::DaytimeCycle,
            Period::Ending => RawPeriod::Ending,
        }
    }
}

/// The pure resolution strategy from phase ordinal to phase detail, injected
/// at session creation as a table of the per-phase configuration.
#[derive(Clone, Copy, Debug, PartialEq, Eq, Structural)]
pub struct PeriodMaker {
    pub min_persons: u8,
    pub max_persons: u8,
    pub populating_dur_ms: u64,
    pub assignment_mode: AssignmentMode,
    pub first_night_ms: u64,
    pub daytime_durs: DaytimeDurations,
}

impl PeriodMaker {
    /// The phase detail this table resolves a phase ordinal to.
    pub open spec fn spec_resolve(self, raw: RawPeriod) -> Period {
        match raw {
            RawPeriod::NonePeriod => Period::NonePeriod,
            RawPeriod::Populating => Period::Populating {
                min_persons: self.min_persons,
                max_persons: self.max_persons,
                max_dur_ms: self.populating_dur_ms,
            },
            RawPeriod::Assignments => Period::Assignments(self.assignment_mode),
            RawPeriod::FirstNight => Period::FirstNight(self.first_night_ms),
            RawPeriod::DaytimeCycle => Period::DaytimeCycle(self.daytime_durs),
            RawPeriod::Ending => Period::Ending,
        }
    }

    /// Resolves a phase ordinal to its configured phase detail.
    pub fn resolve(&self, raw: RawPeriod) -> (r: Period)
        ensures
            r == self.spec_resolve(raw),
    {
        match raw {
            RawPeriod::NonePeriod => Period::NonePeriod,
            RawPeriod::Populating => Period::Populating {
                min_persons: self.min_persons,
                max_persons: self.max_persons,
                max_dur_ms: self.populating_dur_ms,
            },
            RawPeriod::Assignments => Period::Assignments(self.assignment_mode),
            RawPeriod::FirstNight => Period::FirstNight(self.first_night_ms),
            RawPeriod::DaytimeCycle => Period::DaytimeCycle(self.daytime_durs),
            RawPeriod::Ending => Period::Ending,
        }
    }
}

/// The detail a table resolves an ordinal to always carries the tag of that
/// very ordinal: resolution never mismatches phase and configuration.
pub proof fn lemma_resolve_matches_raw(maker: PeriodMaker, raw: RawPeriod)
    ensures
        maker.spec_resolve(raw).spec_to_raw() == raw,
{
}

} // verus!
