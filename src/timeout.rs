//! The cookie-synchronisation policy of a request and its millisecond
//! encoding.
use vstd::prelude::*;

verus! {

/// A span of time as whole seconds and the nanoseconds beyond them.
#[derive(Debug, Clone, Copy, PartialEq, Eq, Structural)]
pub struct TimeSpan {
    pub secs: u64,
    pub nanos: u32,
}

impl TimeSpan {
    /// The whole milliseconds in the span.
    pub open spec fn millis(&self) -> nat {
        self.secs as nat * 1000 + self.nanos as nat / 1_000_000
    }

    pub fn as_millis(&self) -> (r: u128)
        ensures
            r == self.millis(),
    {
        self.secs as u128 * 1000 + (self.nanos / 1_000_000) as u128
    }
}

/// How long the service waits to observe its synchronisation cookie.
#[derive(Debug, Clone, Copy, PartialEq, Eq, Structural)]
pub enum SyncTimeout {
    /// The service's default timeout, one minute.
    Default,
    /// No sync cookie: faster, but the answer may reflect a view of the
    /// filesystem that is slightly out of date.
    DisableCookie,
    /// A timeout of its own, with millisecond granularity.
    Duration(TimeSpan),
}

impl Default for SyncTimeout {
    fn default() -> (r: SyncTimeout)
        ensures
            r == SyncTimeout::Default,
    {
        SyncTimeout::Default
    }
}

/// The default timeout in milliseconds.
pub const DEFAULT_TIMEOUT_MILLIS: i64 = 60_000;

impl SyncTimeout {
    /// The milliseconds that the policy is written as. A span too long for
    /// a signed 64-bit integer wraps, as an integer cast does.
    pub open spec fn spec_millis(&self) -> i64 {
        match self {
            SyncTimeout::Default => DEFAULT_TIMEOUT_MILLIS,
            SyncTimeout::DisableCookie => 0,
            SyncTimeout::Duration(d) => d.millis() as i64,
        }
    }

    pub fn is_default(&self) -> (r: bool)
        ensures
            r == (*self is Default),
    {
        match self {
            SyncTimeout::Default => true,
            _ => false,
        }
    }

    pub fn is_disabled(&self) -> (r: bool)
        ensures
            r == (*self is DisableCookie),
    {
        match self {
            SyncTimeout::DisableCookie => true,
            _ => false,
        }
    }

    /// The policy for a span: a span under one millisecond disables the
    /// cookie, and is never kept as a zero timeout.
    pub fn from(duration: TimeSpan) -> (r: SyncTimeout)
        ensures
            duration.millis() == 0 ==> r == SyncTimeout::DisableCookie,
            duration.millis() != 0 ==> r == SyncTimeout::Duration(duration),
    {
        if duration.as_millis() == 0 {
            SyncTimeout::DisableCookie
        } else {
            SyncTimeout::Duration(duration)
        }
    }

    /// The policy in milliseconds.
    pub fn into(self) -> (r: i64)
        ensures
            r == self.spec_millis(),
            self is Duration && self->Duration_0.millis() <= i64::MAX ==> r == self->Duration_0.millis(),
    {
        match self {
            SyncTimeout::Default => DEFAULT_TIMEOUT_MILLIS,
            SyncTimeout::DisableCookie => 0,
            SyncTimeout::Duration(d) => {
                let m = d.as_millis();
                #[verifier::truncate]
                (m as i64)
            },
        }
    }
}

} // verus!
