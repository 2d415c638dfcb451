//! The default per-phase configuration of a new session.

use vstd::prelude::*;

use crate::periods::{AssignmentMode, DaytimeDurations, PeriodMaker};

verus! {

/// The default phase configuration table.
pub open spec fn spec_default_period_maker() -> PeriodMaker {
    PeriodMaker {
        min_persons: 5,
        max_persons: 7,
        populating_dur_ms: 30000,
        assignment_mode: AssignmentMode::Normal,
        first_night_ms: 20000,
        daytime_durs: DaytimeDurations {
            mid_night_ms: 30000,
            sun_raise_ms: 30000,
            lynch_time_ms: 30000,
        },
    }
}

/// The default phase configuration: 5 to 7 persons gathered within 30
/// seconds, a 20 second first night, and 30 seconds for each daytime
/// sub-phase.
pub fn default_period_maker() -> (r: PeriodMaker)
    ensures
        r == spec_default_period_maker(),
{
    PeriodMaker {
        min_persons: 5,
        max_persons: 7,
        populating_dur_ms: 30000,
        assignment_mode: AssignmentMode::Normal,
        first_night_ms: 20000,
        daytime_durs: DaytimeDurations {
            mid_night_ms: 30000,
            sun_raise_ms: 30000,
            lynch_time_ms: 30000,
        },
    }
}

} // verus!
