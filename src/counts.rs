use vstd::prelude::*;

verus! {

/// One more, stopping at `u64::MAX` rather than wrapping.
pub open spec fn bump(x: u64) -> u64 {
    if x == u64::MAX {
        x
    } else {
        (x + 1) as u64
    }
}

/// Tallies of the attempts seen in the current generation of a breaker.
///
/// The `total_*` fields count every request and outcome; the `consecutive_*` fields
/// count the current run of equal outcomes. Counters saturate at `u64::MAX`.
#[derive(Clone, Copy, Debug, PartialEq, Eq, Structural)]
pub struct Counts {
    pub total_requests: u64,
    pub total_success: u64,
    pub total_failures: u64,
    pub consecutive_success: u64,
    pub consecutive_failures: u64,
}

impl Counts {
    /// All five counters at zero.
    pub open spec fn zeroed() -> Counts {
        Counts {
            total_requests: 0,
            total_success: 0,
            total_failures: 0,
            consecutive_success: 0,
            consecutive_failures: 0,
        }
    }

    /// The tallies after one more request.
    pub open spec fn requested(self) -> Counts {
        Counts { total_requests: bump(self.total_requests), ..self }
    }

    /// The tallies after one more success.
    pub open spec fn succeeded(self) -> Counts {
        Counts {
            total_success: bump(self.total_success),
            consecutive_success: bump(self.consecutive_success),
            consecutive_failures: 0,
            ..self
        }
    }

    /// The tallies after one more failure.
    pub open spec fn failed(self) -> Counts {
        Counts {
            total_failures: bump(self.total_failures),
            consecutive_failures: bump(self.consecutive_failures),
            consecutive_success: 0,
            ..self
        }
    }

    /// Every request has had its outcome reported.
    pub open spec fn balanced(self) -> bool {
        self.total_requests == self.total_success + self.total_failures
    }

    pub fn new() -> (r: Counts)
        ensures
            r == Counts::zeroed(),
    {
        Counts {
            total_requests: 0,
            total_success: 0,
            total_failures: 0,
            consecutive_success: 0,
            consecutive_failures: 0,
        }
    }

    pub fn clear(&mut self)
        ensures
            *final(self) == Counts::zeroed(),
    {
        *self = Counts::new();
    }

    pub fn on_request(&mut self)
        ensures
            *final(self) == old(self).requested(),
    {
        self.total_requests = self.total_requests.saturating_add(1);
    }

    pub fn on_success(&mut self)
        ensures
            *final(self) == old(self).succeeded(),
    {
        self.total_success = self.total_success.saturating_add(1);
        self.consecutive_success = self.consecutive_success.saturating_add(1);
        self.consecutive_failures = 0;
    }

    pub fn on_failure(&mut self)
        ensures
            *final(self) == old(self).failed(),
    {
        self.total_failures = self.total_failures.saturating_add(1);
        self.consecutive_failures = self.consecutive_failures.saturating_add(1);
        self.consecutive_success = 0;
    }
}

impl Default for Counts {
    fn default() -> (r: Counts)
        ensures
            r == Counts::zeroed(),
    {
        Counts::new()
    }
}

} // verus!
