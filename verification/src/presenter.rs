//! What the message presenter prints at each verbosity level.

use vstd::prelude::*;

verus! {

/// The parts of a decoded message that are printed.
#[derive(Clone, Copy, Debug, PartialEq, Eq, Structural)]
pub struct PrintPolicy {
    /// The fields of the main header.
    pub main_header: bool,
    /// The fields of the data header.
    pub data_header: bool,
    /// One line of metadata for each channel.
    pub metadata: bool,
    /// The value of each channel.
    pub data_values: bool,
}

impl PrintPolicy {
    /// The policy of a print level. Both headers appear from level 4 on, the
    /// channel values from level 3 on, and the metadata block at level 2 only:
    /// the ladder is irregular on purpose.
    pub open spec fn at_level(level: u64) -> PrintPolicy {
        PrintPolicy {
            main_header: level >= 4,
            data_header: level >= 4,
            metadata: level == 2,
            data_values: level >= 3,
        }
    }

    /// Computes the policy of a print level.
    pub fn for_level(level: u64) -> (policy: PrintPolicy)
        ensures
            policy == Self::at_level(level),
    {
        PrintPolicy {
            main_header: level > 3,
            data_header: level > 3,
            metadata: level == 2,
            data_values: level >= 3,
        }
    }
}

/// Whether the statistics summary is printed at the end of a run.
pub open spec fn summary_at_level(level: u64) -> bool {
    level > 0
}

/// Decides whether the statistics summary is printed at the end of a run.
pub fn prints_summary(level: u64) -> (printed: bool)
    ensures
        printed == summary_at_level(level),
{
    level > 0
}

} // verus!
