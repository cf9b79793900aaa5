//! The two things about live updates that can be set: how often an idle
//! connection is pinged, and how far a listener may fall behind.

use vstd::prelude::*;

verus! {

/// The keep-alive period, in seconds, when nothing else is asked for.
pub const DEFAULT_KEEPALIVE_SECS: u64 = 5;

/// The backlog that a bus has when nothing else is asked for.
pub const DEFAULT_BACKLOG: usize = 100;

/// Whether a bus can be made with this backlog: it must hold at least one
/// mutation and at most half of what a `usize` can count.
pub open spec fn backlog_is_valid(capacity: usize) -> bool {
    0 < capacity <= usize::MAX / 2
}

/// Whether the two settings can be used together: the timer needs a period of
/// at least a second, the bus a backlog that a channel can be made with.
pub open spec fn settings_are_valid(keepalive_secs: u64, backlog_capacity: usize) -> bool {
    keepalive_secs > 0 && backlog_is_valid(backlog_capacity)
}

/// Settings that have been checked.
#[derive(Clone, Copy, Debug, PartialEq, Eq)]
pub struct LiveSettings {
    keepalive_secs: u64,
    backlog_capacity: usize,
}

impl LiveSettings {
    #[verifier::type_invariant]
    spec fn well_formed(self) -> bool {
        settings_are_valid(self.keepalive_secs, self.backlog_capacity)
    }

    /// The seconds between two pings on an idle connection.
    pub closed spec fn keepalive(self) -> u64 {
        self.keepalive_secs
    }

    /// The number of mutations kept for a listener that has fallen behind.
    pub closed spec fn backlog(self) -> usize {
        self.backlog_capacity
    }

    /// Checks the two settings. They are refused if the period is zero, or if
    /// the backlog is zero or above half of what a `usize` can count.
    pub fn new(keepalive_secs: u64, backlog_capacity: usize) -> (settings: Option<LiveSettings>)
        ensures
            settings is Some <==> settings_are_valid(keepalive_secs, backlog_capacity),
            settings matches Some(checked) ==> checked.keepalive() == keepalive_secs
                && checked.backlog() == backlog_capacity,
    {
        if keepalive_secs == 0 || backlog_capacity == 0 || backlog_capacity > usize::MAX / 2 {
            None
        } else {
            Some(LiveSettings { keepalive_secs, backlog_capacity })
        }
    }

    /// The seconds between two pings on an idle connection; never zero.
    pub fn keepalive_secs(&self) -> (secs: u64)
        ensures
            secs == self.keepalive(),
            secs > 0,
    {
        proof {
            use_type_invariant(self);
        }
        self.keepalive_secs
    }

    /// The number of mutations kept for a listener that has fallen behind.
    pub fn backlog_capacity(&self) -> (capacity: usize)
        ensures
            capacity == self.backlog(),
            backlog_is_valid(capacity),
    {
        proof {
            use_type_invariant(self);
        }
        self.backlog_capacity
    }
}

impl Default for LiveSettings {
    /// A ping every 5 seconds and a backlog of 100.
    fn default() -> (settings: LiveSettings)
        ensures
            settings.keepalive() == DEFAULT_KEEPALIVE_SECS,
            settings.backlog() == DEFAULT_BACKLOG,
    {
        LiveSettings { keepalive_secs: DEFAULT_KEEPALIVE_SECS, backlog_capacity: DEFAULT_BACKLOG }
    }
}

} // verus!
