//! The cached answer to "is the enrichment service reachable?".
use vstd::prelude::*;

verus! {

/// Seconds between two probes of the enrichment service.
pub const PROBE_PERIOD_SECS: u64 = 30;

/// Last probe result and when it was taken (seconds since the epoch).
/// Written only by the refresher; readers never wait on a probe.
#[derive(Debug, Clone, Copy, PartialEq, Eq, Structural)]
pub struct AvailabilityCache {
    pub available: bool,
    pub probed_at: Option<u64>,
}

/// The cache before any probe has completed.
pub open spec fn initial_cache() -> AvailabilityCache {
    AvailabilityCache { available: false, probed_at: None }
}

/// The cache after a probe: a failed probe counts as "unavailable".
pub open spec fn after_probe(outcome: Result<bool, String>, at: u64) -> AvailabilityCache {
    AvailabilityCache {
        available: match outcome {
            Ok(b) => b,
            Err(_) => false,
        },
        probed_at: Some(at),
    }
}

impl AvailabilityCache {
    pub fn new() -> (r: AvailabilityCache)
        ensures
            r == initial_cache(),
    {
        AvailabilityCache { available: false, probed_at: None }
    }

    /// Stores the outcome of a probe taken at `at`.
    pub fn record_probe(&mut self, outcome: Result<bool, String>, at: u64)
        ensures
            *final(self) == after_probe(outcome, at),
    {
        self.available = match outcome {
            Ok(b) => b,
            Err(_) => false,
        };
        self.probed_at = Some(at);
    }

    /// The cached answer; constant time, no probe.
    pub fn is_available(&self) -> (r: bool)
        ensures
            r == self.available,
    {
        self.available
    }
}

/// The cache reads "unavailable" until the first probe lands, and "available"
/// as soon as a successful probe has been recorded, whatever it held before.
pub proof fn lemma_first_probe_success(at: u64)
    ensures
        initial_cache().available == false,
        after_probe(Ok(true), at).available == true,
        after_probe(Ok(true), at).probed_at == Some(at),
{
}

} // verus!
