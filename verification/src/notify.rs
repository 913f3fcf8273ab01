//! Notices: the one line a screen or the shell says to the user.

use vstd::prelude::*;

verus! {

/// How loud a notice is.
#[derive(Debug, Clone, Copy, PartialEq, Eq, Structural)]
pub enum Level {
    Info,
    Success,
    Warning,
    Error,
}

/// How long a notice stands, in milliseconds.
pub const NOTICE_TTL: u64 = 4_000;

/// A notice on display, with the instant (in milliseconds) it went up.
#[derive(Debug)]
pub struct Notification {
    pub level: Level,
    pub text: String,
    pub since: u64,
}

impl Notification {
    /// A notice that goes up at `since`.
    pub fn new(level: Level, text: String, since: u64) -> (res: Self)
        ensures
            res == (Notification { level, text, since }),
    {
        Notification { level, text, since }
    }

    /// Whether the notice has stood long enough at `now`.
    pub open spec fn expired(self, now: u64) -> bool {
        now - self.since >= NOTICE_TTL
    }

    /// Whether the notice has stood long enough at `now`.
    pub fn is_expired(&self, now: u64) -> (res: bool)
        ensures
            res == self.expired(now),
    {
        now >= self.since && now - self.since >= NOTICE_TTL
    }
}

} // verus!
