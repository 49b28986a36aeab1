//! The reader of the agent's event stream: when it reconnects, and which lines are events.

use crate::text::{copy_of, trim, trimmed};
use vstd::prelude::*;
use vstd::string::*;

verus! {

/// The first wait before a new attempt to connect, in milliseconds.
pub const MIN_BACKOFF_MS: u64 = 100;

/// The longest wait, in milliseconds.
pub const MAX_BACKOFF_MS: u64 = 5000;

/// What switches a connection to the event stream.
pub fn subscription() -> (r: String)
    ensures
        r@ == "SUBSCRIBE\n"@,
{
    copy_of("SUBSCRIBE\n")
}

/// Whether a line of the stream holds an event: blank lines do not.
pub fn is_event_line(line: &str) -> (r: bool)
    ensures
        r == (trimmed(line@).len() > 0),
{
    let t = trim(line);
    !t.as_str().is_empty()
}

/// What became of a connection.
#[derive(Debug, Clone, Copy, PartialEq, Eq, Structural)]
pub enum StreamEvent {
    ConnectFailed,
    /// The connection was there, and the subscription could not be sent.
    SubscribeFailed,
    Subscribed,
    /// The stream ended or broke off.
    Ended,
}

/// What the reader does next.
#[derive(Debug, Clone, Copy, PartialEq, Eq, Structural)]
pub enum StreamStep {
    /// Connect at once.
    Connect,
    /// Read lines until the stream ends.
    Read,
    /// Connect after this many milliseconds.
    ConnectAfter(u64),
}

/// Twice the wait, up to the longest.
pub open spec fn doubled(ms: u64) -> u64 {
    if ms * 2 <= 5000 {
        (ms * 2) as u64
    } else {
        5000
    }
}

/// The reader of the event stream.
#[derive(Debug, Clone, Copy, PartialEq, Eq, Structural)]
pub struct EventReader {
    pub backoff_ms: u64,
}

impl EventReader {
    /// The wait is within its limits.
    pub open spec fn well_formed(&self) -> bool {
        100 <= self.backoff_ms <= 5000
    }

    pub fn new() -> (r: Self)
        ensures
            r.well_formed(),
            r.backoff_ms == 100,
    {
        EventReader { backoff_ms: MIN_BACKOFF_MS }
    }

    /// What follows on an event: a subscription sets the wait back, and each wait doubles the
    /// next one up to the limit.
    pub fn next(&mut self, event: StreamEvent) -> (r: StreamStep)
        requires
            old(self).well_formed(),
        ensures
            final(self).well_formed(),
            r == match event {
                StreamEvent::SubscribeFailed => StreamStep::Connect,
                StreamEvent::Subscribed => StreamStep::Read,
                StreamEvent::ConnectFailed | StreamEvent::Ended => StreamStep::ConnectAfter(
                    old(self).backoff_ms,
                ),
            },
            final(self).backoff_ms == match event {
                StreamEvent::SubscribeFailed => old(self).backoff_ms,
                StreamEvent::Subscribed => 100,
                StreamEvent::ConnectFailed | StreamEvent::Ended => doubled(old(self).backoff_ms),
            },
    {
        match event {
            StreamEvent::SubscribeFailed => StreamStep::Connect,
            StreamEvent::Subscribed => {
                self.backoff_ms = MIN_BACKOFF_MS;
                StreamStep::Read
            },
            StreamEvent::ConnectFailed | StreamEvent::Ended => {
                let wait: u64 = self.backoff_ms;
                let twice: u64 = wait * 2;
                self.backoff_ms = if twice <= MAX_BACKOFF_MS {
                    twice
                } else {
                    MAX_BACKOFF_MS
                };
                StreamStep::ConnectAfter(wait)
            },
        }
    }
}

/// The wait before the next attempt after `failures` in a row.
pub open spec fn backoff_after(failures: nat) -> u64
    decreases failures,
{
    if failures == 0 {
        100
    } else {
        doubled(backoff_after((failures - 1) as nat))
    }
}

/// The waits grow from a tenth of a second to five seconds, which the sixth doubling reaches
/// and which then stays.
pub proof fn backoff_is_bounded(failures: nat)
    ensures
        100 <= backoff_after(failures) <= 5000,
        failures >= 6 ==> backoff_after(failures) == 5000,
        backoff_after(failures) <= backoff_after(failures + 1),
    decreases failures,
{
    reveal_with_fuel(backoff_after, 8);
    if failures > 0 {
        backoff_is_bounded((failures - 1) as nat);
    }
}

/// The wait doubles with each failure until five seconds, starting from a tenth of a second.
pub proof fn waits_double(failures: nat)
    ensures
        backoff_after(0) == 100,
        backoff_after(1) == 200,
        2 * backoff_after(failures) <= 5000 ==> backoff_after(failures + 1) == 2 * backoff_after(
            failures,
        ),
        2 * backoff_after(failures) > 5000 ==> backoff_after(failures + 1) == 5000,
{
    reveal_with_fuel(backoff_after, 2);
}

/// A line is an event exactly when it holds something besides white space, and what is sent to
/// subscribe is that word on a line.
pub proof fn lines_and_subscription(line: &str, r: bool, s: String)
    requires
        call_ensures(is_event_line, (line,), r),
        call_ensures(subscription, (), s),
    ensures
        r <==> trimmed(line@) != Seq::<char>::empty(),
        s@ == "SUBSCRIBE\n"@,
{
    assert(trimmed(line@).len() == 0 <==> trimmed(line@) =~= Seq::<char>::empty());
}

} // verus!
