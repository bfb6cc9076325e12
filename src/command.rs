//! Command-line options of the service.
use vstd::prelude::*;

verus! {

/// What the command line asks for.
pub struct Args {
    /// Run in development mode.
    pub dev: bool,
    /// A configuration file to read instead of the default locations.
    pub config_path: Option<String>,
    /// Print version and build information, then exit.
    pub version: bool,
}

} // verus!
