//! What a run is started with.

use vstd::prelude::*;

verus! {

/// The number of workers that handle files side by side where none is asked
/// for.
pub const DEFAULT_PARALLELISM: usize = 4;

/// The settings of one run.
#[derive(Clone, Copy, Debug, PartialEq, Eq, Structural)]
pub struct Settings {
    /// How many workers handle files side by side.
    pub parallelism: usize,
    /// How much is said: 0 gives warnings only, each step up to 3 more lines.
    pub verbosity: u8,
}

impl Settings {
    /// Settings from what the command line gave: the parallelism asked for,
    /// if any was, and how often the verbosity flag was set. The count of
    /// flags is cut to its lowest eight bits.
    pub fn new(parallelism: Option<usize>, verbosity_flags: u64) -> (settings: Settings)
        ensures
            settings.parallelism == match parallelism {
                Some(n) => n,
                None => DEFAULT_PARALLELISM,
            },
            settings.verbosity == verbosity_flags % 256,
    {
        let parallelism = match parallelism {
            Some(n) => n,
            None => DEFAULT_PARALLELISM,
        };
        Settings { parallelism, verbosity: (verbosity_flags % 256) as u8 }
    }
}

} // verus!
