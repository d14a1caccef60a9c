use vstd::prelude::*;

verus! {

/// How long an idle connection is kept open.
#[derive(Copy, Clone, Debug, PartialEq, Eq, Hash, Structural)]
pub enum KeepAlive {
    /// Keep idle connections for this many seconds.
    Timeout(usize),
    /// Keep-alive is on, and the operating system decides when it ends.
    Os,
    /// Close the connection after each response.
    Disabled,
}

/// The time limits of a connection. Durations are in milliseconds, and so are
/// the points in time that the dispatcher is given and hands out.
#[derive(Copy, Clone, Debug, PartialEq, Eq, Hash, Structural)]
pub struct ServiceConfig {
    /// How long an idle connection is kept, if there is a limit.
    pub keep_alive: Option<u64>,
    /// How long the first request may take to arrive; 0 for no limit.
    pub client_timeout: u64,
    /// How long the peer is given to let a shutdown complete; 0 for none.
    pub client_disconnect: u64,
    /// Whether keep-alive is enabled at all.
    pub ka_enabled: bool,
}

/// `secs` seconds in milliseconds, or the largest duration if that does not fit.
pub open spec fn secs_to_millis(secs: usize) -> u64 {
    if secs * 1000 <= u64::MAX {
        (secs * 1000) as u64
    } else {
        u64::MAX
    }
}

/// The point in time `delay` after `now`, or the last one there is.
pub open spec fn deadline_after(now: u64, delay: u64) -> u64 {
    if now + delay <= u64::MAX {
        (now + delay) as u64
    } else {
        u64::MAX
    }
}

/// The point in time `delay` after `now`, if `delay` is a limit at all.
pub open spec fn timer_after(now: u64, delay: u64) -> Option<u64> {
    if delay != 0 {
        Some(deadline_after(now, delay))
    } else {
        None
    }
}

impl ServiceConfig {
    /// The configuration that `new` makes of its arguments.
    pub open spec fn spec_new(
        keep_alive: KeepAlive,
        client_timeout: u64,
        client_disconnect: u64,
    ) -> ServiceConfig {
        ServiceConfig {
            keep_alive: match keep_alive {
                KeepAlive::Timeout(secs) => if secs > 0 {
                    Some(secs_to_millis(secs))
                } else {
                    None
                },
                KeepAlive::Os => None,
                KeepAlive::Disabled => None,
            },
            client_timeout,
            client_disconnect,
            ka_enabled: keep_alive != KeepAlive::Disabled,
        }
    }

    /// A configuration. Keep-alive is enabled unless it is `Disabled`, and
    /// limited only by a `Timeout` of at least one second.
    pub fn new(keep_alive: KeepAlive, client_timeout: u64, client_disconnect: u64) -> (config:
        ServiceConfig)
        ensures
            config == ServiceConfig::spec_new(keep_alive, client_timeout, client_disconnect),
    {
        let (limit, ka_enabled) = match keep_alive {
            KeepAlive::Timeout(secs) => {
                if secs > 0 {
                    let millis: u64 = match (secs as u64).checked_mul(1000) {
                        Some(m) => m,
                        None => u64::MAX,
                    };
                    (Some(millis), true)
                } else {
                    (None, true)
                }
            },
            KeepAlive::Os => (None, true),
            KeepAlive::Disabled => (None, false),
        };
        ServiceConfig { keep_alive: limit, client_timeout, client_disconnect, ka_enabled }
    }

    pub open spec fn spec_keep_alive_enabled(&self) -> bool {
        self.ka_enabled
    }

    /// Whether keep-alive is enabled.
    #[verifier::when_used_as_spec(spec_keep_alive_enabled)]
    pub fn keep_alive_enabled(&self) -> (enabled: bool)
        ensures
            enabled == self.ka_enabled,
    {
        self.ka_enabled
    }

    pub open spec fn spec_keep_alive_expire(&self, now: u64) -> Option<u64> {
        match self.keep_alive {
            Some(limit) => Some(deadline_after(now, limit)),
            None => None,
        }
    }

    /// When a connection that is idle from `now` on has been kept long enough.
    #[verifier::when_used_as_spec(spec_keep_alive_expire)]
    pub fn keep_alive_expire(&self, now: u64) -> (deadline: Option<u64>)
        ensures
            deadline == self.spec_keep_alive_expire(now),
    {
        match self.keep_alive {
            Some(limit) => Some(now.saturating_add(limit)),
            None => None,
        }
    }

    pub open spec fn spec_client_timer_expire(&self, now: u64) -> Option<u64> {
        timer_after(now, self.client_timeout)
    }

    /// When a connection opened at `now` has waited long enough for its
    /// first request.
    #[verifier::when_used_as_spec(spec_client_timer_expire)]
    pub fn client_timer_expire(&self, now: u64) -> (deadline: Option<u64>)
        ensures
            deadline == self.spec_client_timer_expire(now),
    {
        if self.client_timeout != 0 {
            Some(now.saturating_add(self.client_timeout))
        } else {
            None
        }
    }

    pub open spec fn spec_client_disconnect_timer(&self, now: u64) -> Option<u64> {
        timer_after(now, self.client_disconnect)
    }

    /// When a shutdown begun at `now` has waited long enough for the peer.
    #[verifier::when_used_as_spec(spec_client_disconnect_timer)]
    pub fn client_disconnect_timer(&self, now: u64) -> (deadline: Option<u64>)
        ensures
            deadline == self.spec_client_disconnect_timer(now),
    {
        if self.client_disconnect != 0 {
            Some(now.saturating_add(self.client_disconnect))
        } else {
            None
        }
    }
}

} // verus!
