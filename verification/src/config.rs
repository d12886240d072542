//! The settings of the sampling side.

use vstd::prelude::*;

verus! {

/// The settings that the sampling side keeps between runs.
#[derive(Clone, Copy, Debug, PartialEq, Eq, Structural)]
pub struct Config {
    /// The time between two samples, in milliseconds.
    pub input_update_interval_ms: u64,
}

impl Default for Config {
    /// Samples every three milliseconds.
    fn default() -> (config: Config)
        ensures
            config.input_update_interval_ms == 3,
    {
        Config { input_update_interval_ms: 3 }
    }
}

} // verus!
