//! The probe of the Gateway's API port: when failed connects mean that the session is lost.

use vstd::prelude::*;

verus! {

/// Counts failed connects in a row.
#[derive(Debug, Clone, Copy, PartialEq, Eq, Structural)]
pub struct PortProbe {
    /// Seconds between two connects; zero turns the probe off.
    pub interval_secs: u64,
    /// Failures in a row after which the session counts as lost.
    pub fails_before_revoke: u32,
    pub failures: u32,
}

/// The count of failures in a row after a connect.
pub open spec fn failures_after(failures: u32, connected: bool) -> u32 {
    if connected {
        0
    } else if failures < u32::MAX {
        (failures + 1) as u32
    } else {
        failures
    }
}

impl PortProbe {
    pub fn new(interval_secs: u64, fails_before_revoke: u32) -> (r: Self)
        ensures
            r == (PortProbe { interval_secs, fails_before_revoke, failures: 0 }),
    {
        PortProbe { interval_secs, fails_before_revoke, failures: 0 }
    }

    /// The wait before the next connect, in seconds; none where the probe is off.
    pub fn interval(&self) -> (r: Option<u64>)
        ensures
            r == if self.interval_secs > 0 {
                Some(self.interval_secs)
            } else {
                None
            },
    {
        if self.interval_secs > 0 {
            Some(self.interval_secs)
        } else {
            None
        }
    }

    /// Records a connect, and says whether the session counts as lost.
    pub fn record(&mut self, connected: bool) -> (r: bool)
        ensures
            *final(self) == (PortProbe {
                failures: failures_after(old(self).failures, connected),
                ..*old(self)
            }),
            r == (!connected && failures_after(old(self).failures, connected) >= old(
                self,
            ).fails_before_revoke),
    {
        if connected {
            self.failures = 0;
            return false;
        }
        if self.failures < u32::MAX {
            self.failures += 1;
        }
        self.failures >= self.fails_before_revoke
    }
}

/// The count after `n` failures in a row.
pub open spec fn failed_times(n: nat) -> u32
    decreases n,
{
    if n == 0 {
        0
    } else {
        failures_after(failed_times((n - 1) as nat), false)
    }
}

/// Failures in a row are counted one by one, so the session counts as lost on the one that
/// reaches the limit and not before.
pub proof fn failures_add_up(n: nat)
    requires
        n <= u32::MAX,
    ensures
        failed_times(n) == n,
    decreases n,
{
    if n > 0 {
        failures_add_up((n - 1) as nat);
    }
}

/// A connect that succeeds sets the count back, and one that fails adds to it.
pub proof fn connects_count(failures: u32)
    ensures
        failures_after(failures, true) == 0,
        failures < u32::MAX ==> failures_after(failures, false) == failures + 1,
{
}

} // verus!
