//! The command-line settings.

use vstd::prelude::*;

verus! {

/// The settings given on the command line.
#[derive(Debug, Clone, Copy, PartialEq, Eq, Structural)]
pub struct Cli {
    /// Auto-refresh interval in seconds.
    pub refresh_interval: u64,
    /// Disable periodic auto-refresh. Only `r` will refresh.
    pub no_auto_refresh: bool,
    /// Maximum number of PRs to fetch.
    pub limit: u32,
}

} // verus!
