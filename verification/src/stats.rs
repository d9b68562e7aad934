//! What the statistics of a member or of a community are counted in.

use vstd::prelude::*;

verus! {

/// The figure that statistics show.
#[derive(Clone, Copy, Debug, PartialEq, Eq, Hash)]
pub enum StatsType {
    /// Minutes of practice.
    MeditationMinutes,
    /// Number of sessions.
    MeditationCount,
}

impl Default for StatsType {
    /// Statistics show minutes unless asked otherwise.
    fn default() -> (stats_type: StatsType)
        ensures
            stats_type == StatsType::MeditationMinutes,
    {
        StatsType::MeditationMinutes
    }
}

} // verus!
