//! Configuration of a monitoring run, resolved once at startup from the
//! command-line input and immutable afterwards.

use vstd::prelude::*;

verus! {

/// The command-line input. Parsing and validation of the raw flags belong to
/// the collaborator that owns the CLI; the monitor only consumes the
/// resolved values.
pub struct CliArgs {
    pub web_address: String,
    pub check_interval_sec: u64,
    pub max_num_of_failures: u64,
}

/// The configuration of the monitoring process: the web address to fetch,
/// how many seconds to wait between fetches, and how many consecutive
/// failures are tolerated before the monitor stops.
pub struct Config {
    pub web_address: String,
    pub check_interval_sec: u64,
    pub max_fail_count: u64,
}

impl Config {
    /// A usable configuration: a positive poll interval and a failure
    /// threshold of at least one.
    pub open spec fn wf(&self) -> bool {
        self.check_interval_sec >= 1 && self.max_fail_count >= 1
    }

    /// Builds the configuration from the command-line input.
    pub fn from(args: CliArgs) -> (c: Config)
        ensures
            c.web_address@ == args.web_address@,
            c.check_interval_sec == args.check_interval_sec,
            c.max_fail_count == args.max_num_of_failures,
    {
        Config {
            web_address: args.web_address,
            check_interval_sec: args.check_interval_sec,
            max_fail_count: args.max_num_of_failures,
        }
    }
}

} // verus!
