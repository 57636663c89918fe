//! The gateway's configuration: constructed once at startup from the
//! environment and threaded into the serving layer explicitly — no
//! ambient globals.

use vstd::prelude::*;
use vstd::string::*;

verus! {

/// Everything the serving layer needs to run builds.
#[derive(Debug)]
pub struct Config {
    /// Path of the toolchain binary.
    pub trunk_bin: String,
    /// Path of the shared working directory.
    pub app_dir: String,
    /// The port the gateway listens on.
    pub port: u16,
    /// How many builds may run at once.
    pub capacity: u64,
    /// The caller-facing request deadline, in seconds.
    pub timeout_secs: u64,
}

impl Config {
    /// A configuration must offer at least one admission slot.
    pub open spec fn wf(&self) -> bool {
        self.capacity >= 1
    }

    pub fn new(trunk_bin: String, app_dir: String, port: u16, capacity: u64, timeout_secs: u64)
        -> (r: Config)
        requires
            capacity >= 1,
        ensures
            r.wf(),
            r.trunk_bin == trunk_bin,
            r.app_dir == app_dir,
            r.port == port,
            r.capacity == capacity,
            r.timeout_secs == timeout_secs,
    {
        Config { trunk_bin, app_dir, port, capacity, timeout_secs }
    }

    /// The values used when the environment sets nothing: the toolchain
    /// on the search path, the sibling working directory, one admission
    /// slot, and a ten-second caller deadline.
    pub fn defaults() -> (r: Config)
        ensures
            r.wf(),
            r.trunk_bin@ == "trunk"@,
            r.app_dir@ == "../app"@,
            r.port == 3000,
            r.capacity == 1,
            r.timeout_secs == 10,
    {
        Config {
            trunk_bin: String::from_str("trunk"),
            app_dir: String::from_str("../app"),
            port: 3000,
            capacity: 1,
            timeout_secs: 10,
        }
    }
}

} // verus!
