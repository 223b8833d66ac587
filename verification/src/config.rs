//! The settings that the daemon reads at startup.

use vstd::prelude::*;

verus! {

/// Settings of the log output.
#[derive(Debug, Clone)]
pub struct LogConfig {
    /// The verbosity, as a filter directive such as `info` or `debug`.
    pub level: String,
}

/// The settings of the daemon.
#[derive(Debug, Clone)]
pub struct Config {
    /// Settings of the log output.
    pub log: LogConfig,
}

} // verus!
