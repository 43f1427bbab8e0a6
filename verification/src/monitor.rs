//! The monitor's state machine: classify each poll outcome, update the
//! recorded fingerprint and the consecutive-failure count, and report what
//! happened. The fetch itself and the interval wait are I/O and live with
//! the caller; every decision lives here.

use vstd::prelude::*;
use crate::config::Config;
use crate::digest::fingerprint_of;
use crate::response::{UrlResponse, is_valid_status};
use crate::tracker::FailureTracker;

verus! {

/// What one poll cycle reports.
#[derive(Clone, Copy, Debug, PartialEq, Eq, Structural)]
pub enum Report {
    /// The fetch was valid and its body differs from the last recorded
    /// fingerprint (or no fingerprint was recorded yet).
    Changed,
    /// The fetch was valid and its body matches the last recorded
    /// fingerprint.
    NoChange,
    /// The fetch was invalid; carries its status code (the degenerate
    /// no-content status when the transport itself failed).
    Failed(u16),
}

/// The recorded fingerprint after an outcome: replaced by the body's
/// fingerprint on a valid fetch, untouched on an invalid one.
pub open spec fn next_fingerprint(
    last: Option<Seq<char>>,
    status: u16,
    body: Seq<char>,
) -> Option<Seq<char>> {
    if is_valid_status(status) {
        Some(fingerprint_of(body))
    } else {
        last
    }
}

/// The consecutive-failure count after an outcome: reset to zero on a valid
/// fetch, incremented by exactly one on an invalid one.
pub open spec fn next_failures(count: int, status: u16) -> int {
    if is_valid_status(status) {
        0
    } else {
        count + 1
    }
}

/// The report of a cycle, as a function of the recorded fingerprint before
/// the cycle and of the outcome.
pub open spec fn report_of(last: Option<Seq<char>>, status: u16, body: Seq<char>) -> Report {
    if is_valid_status(status) {
        if last == Some(fingerprint_of(body)) {
            Report::NoChange
        } else {
            Report::Changed
        }
    } else {
        Report::Failed(status)
    }
}

/// Law (idempotence): after a valid fetch of some body, another valid fetch
/// of the same body reports no change and leaves the recorded fingerprint
/// exactly as it was.
pub proof fn lemma_same_body_idempotent(last: Option<Seq<char>>, status: u16, body: Seq<char>)
    requires
        is_valid_status(status),
    ensures
        ({
            let after = next_fingerprint(last, status, body);
            &&& report_of(after, status, body) == Report::NoChange
            &&& next_fingerprint(after, status, body) == after
        }),
{
}

/// Law (change detection): a valid fetch whose body differs from the one
/// backing the recorded fingerprint — or arrives before any fingerprint was
/// recorded — reports a change and records the new fingerprint.
pub proof fn lemma_change_detected(last: Option<Seq<char>>, status: u16, body: Seq<char>)
    requires
        is_valid_status(status),
        last != Some(fingerprint_of(body)),
    ensures
        report_of(last, status, body) == Report::Changed,
        next_fingerprint(last, status, body) == Some(fingerprint_of(body)),
{
}

/// The consecutive-failure count left by a sequence of outcomes with the
/// given statuses, starting from a given count.
pub open spec fn failures_after(start: int, statuses: Seq<u16>) -> int
    decreases statuses.len(),
{
    if statuses.len() == 0 {
        start
    } else {
        next_failures(failures_after(start, statuses.drop_last()), statuses.last())
    }
}

/// Law (failure counting): a run of invalid outcomes raises the count by
/// exactly its length.
pub proof fn lemma_invalid_run_counts(start: int, statuses: Seq<u16>)
    requires
        forall|i: int| 0 <= i < statuses.len() ==> !is_valid_status(#[trigger] statuses[i]),
    ensures
        failures_after(start, statuses) == start + statuses.len(),
    decreases statuses.len(),
{
    if statuses.len() > 0 {
        assert forall|i: int|
            0 <= i < statuses.drop_last().len() implies !is_valid_status(
            #[trigger] statuses.drop_last()[i],
        ) by {
            assert(statuses.drop_last()[i] == statuses[i]);
        }
        lemma_invalid_run_counts(start, statuses.drop_last());
    }
}

/// Law (reset): an intervening valid outcome resets the count, so whatever
/// count a sequence starts from, if its last valid outcome sits at position
/// `k`, the count afterwards is exactly the number of outcomes past `k`.
pub proof fn lemma_valid_resets(start: int, statuses: Seq<u16>, k: int)
    requires
        0 <= k < statuses.len(),
        is_valid_status(statuses[k]),
        forall|i: int| k < i < statuses.len() ==> !is_valid_status(#[trigger] statuses[i]),
    ensures
        failures_after(start, statuses) == statuses.len() - 1 - k,
    decreases statuses.len(),
{
    if k < statuses.len() - 1 {
        assert forall|i: int|
            k < i < statuses.drop_last().len() implies !is_valid_status(
            #[trigger] statuses.drop_last()[i],
        ) by {
            assert(statuses.drop_last()[i] == statuses[i]);
        }
        assert(statuses.drop_last()[k] == statuses[k]);
        lemma_valid_resets(start, statuses.drop_last(), k);
    }
}

/// Law (threshold termination): with the count one short of the limit, one
/// more invalid outcome reaches the limit exactly — neither skipping it nor
/// stopping short of it.
pub proof fn lemma_threshold_reached(count: int, limit: int, status: u16)
    requires
        !is_valid_status(status),
        count + 1 == limit,
    ensures
        next_failures(count, status) == limit,
{
}

/// The monitoring object: holds the immutable configuration and the only
/// state that survives from one poll cycle to the next — the fingerprint of
/// the last valid fetch and the consecutive-failure count.
pub struct EyeOfArgos {
    config: Config,
    previous_fingerprint: Option<String>,
    failures: FailureTracker,
}

impl EyeOfArgos {
    /// The fingerprint of the most recent valid fetch; absent before the
    /// first one.
    pub closed spec fn last_fp(&self) -> Option<Seq<char>> {
        self.previous_fingerprint.deep_view()
    }

    /// The current count of consecutive failed polls.
    pub closed spec fn fail_count(&self) -> u64 {
        self.failures.count
    }

    /// The configured failure limit.
    pub closed spec fn max_failures(&self) -> u64 {
        self.failures.limit
    }

    /// The configuration as plain values: address, interval seconds, limit.
    pub closed spec fn spec_config(&self) -> (Seq<char>, u64, u64) {
        (self.config.web_address@, self.config.check_interval_sec, self.config.max_fail_count)
    }

    /// Well-formed: the tracker's limit is the configured threshold, the
    /// count never exceeds it, and the configuration itself is usable.
    pub closed spec fn wf(&self) -> bool {
        &&& self.failures.limit == self.config.max_fail_count
        &&& self.failures.count <= self.failures.limit
        &&& self.config.wf()
    }

    /// A fresh monitor: nothing fetched yet, no failures counted.
    pub fn from(config: Config) -> (m: EyeOfArgos)
        requires
            config.wf(),
        ensures
            m.wf(),
            m.last_fp() is None,
            m.fail_count() == 0,
            m.spec_config() == (config.web_address@, config.check_interval_sec,
            config.max_fail_count),
    {
        let limit = config.max_fail_count;
        EyeOfArgos { config, previous_fingerprint: None, failures: FailureTracker::new(limit) }
    }

    /// One poll cycle's decision. A valid outcome resets the failure count,
    /// records the body's fingerprint, and reports whether the content
    /// changed since the last valid fetch; an invalid outcome increments the
    /// failure count, leaves the fingerprint alone, and reports the failing
    /// status. Polling stops for good once the threshold is reached, so a
    /// step is only ever taken below it.
    pub fn step(&mut self, response: UrlResponse) -> (r: Report)
        requires
            old(self).wf(),
            old(self).fail_count() < old(self).max_failures(),
        ensures
            final(self).wf(),
            final(self).spec_config() == old(self).spec_config(),
            final(self).max_failures() == old(self).max_failures(),
            final(self).last_fp() == next_fingerprint(
                old(self).last_fp(),
                response.status,
                response.body@,
            ),
            final(self).fail_count() as int == next_failures(
                old(self).fail_count() as int,
                response.status,
            ),
            r == report_of(old(self).last_fp(), response.status, response.body@),
    {
        if response.is_valid() {
            self.failures.reset();
            let current = response.hash();
            let same = match &self.previous_fingerprint {
                Some(prev) => current == *prev,
                None => false,
            };
            if same {
                Report::NoChange
            } else {
                self.previous_fingerprint = Some(current);
                Report::Changed
            }
        } else {
            self.failures.increment();
            Report::Failed(response.status)
        }
    }

    /// Whether the consecutive-failure limit has been reached; when it is,
    /// the monitor must stop and the process exits with a failure code.
    pub fn threshold_reached(&self) -> (r: bool)
        ensures
            r == (self.fail_count() >= self.max_failures()),
    {
        self.failures.threshold_reached()
    }

    /// The configured target address.
    pub fn web_address(&self) -> (r: &String)
        ensures
            r@ == self.spec_config().0,
    {
        &self.config.web_address
    }

    /// The configured number of seconds between polls.
    pub fn check_interval_sec(&self) -> (r: u64)
        ensures
            r == self.spec_config().1,
    {
        self.config.check_interval_sec
    }

    /// The current count of consecutive failed polls.
    pub fn consecutive_failures(&self) -> (r: u64)
        ensures
            r == self.fail_count(),
    {
        self.failures.count
    }

    /// The fingerprint recorded for the last valid fetch, if any.
    pub fn last_fingerprint(&self) -> (r: &Option<String>)
        ensures
            r.deep_view() == self.last_fp(),
    {
        &self.previous_fingerprint
    }
}

} // verus!
