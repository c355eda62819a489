use vstd::prelude::*;

use crate::net::config::CONNECTED_CHECK_INTERVAL_S;
use crate::net::config::RETRY_DELAY_S;

verus! {

/// A failed wireless association, with the adapter's status code.
#[derive(Debug, Clone, Copy, PartialEq, Eq, Structural)]
pub struct JoinError {
    pub status: u32,
}

/// What the join supervisor's loop observed since its last decision.
#[derive(Debug, Clone, Copy, PartialEq, Eq, Structural)]
pub enum LinkEvent {
    Joined,
    JoinFailed { status: u32 },
    MonitorTick,
}

/// What the join supervisor's loop must do next: wait `delay_s` seconds and
/// attempt to join, or wait `delay_s` seconds and check link health.  There
/// is no terminal directive: the supervisor never gives up.
#[derive(Debug, Clone, Copy, PartialEq, Eq, Structural)]
pub enum JoinDirective {
    AttemptJoin { delay_s: u64 },
    Monitor { delay_s: u64 },
}

/// Whether the link is currently associated.
#[derive(Debug, Clone, Copy, PartialEq, Eq, Structural)]
pub enum LinkState {
    Joining,
    Connected,
}

/// The wireless-join supervisor: joins, retries forever with a fixed delay on
/// failure, and monitors the link once connected.  The waiting itself is done
/// by the surrounding loop; every decision is here.
pub struct JoinSupervisor {
    state: LinkState,
}

impl JoinSupervisor {
    pub closed spec fn link_state(&self) -> LinkState {
        self.state
    }

    pub fn new() -> (r: JoinSupervisor)
        ensures
            r.link_state() == LinkState::Joining,
    {
        JoinSupervisor { state: LinkState::Joining }
    }

    /// Decide what to do after one observation.  A failure is always answered
    /// by another attempt after the fixed retry delay — never by giving up —
    /// and a success by periodic link monitoring.
    pub fn on_event(&mut self, ev: LinkEvent) -> (d: JoinDirective)
        ensures
            ev is Joined ==> final(self).link_state() == LinkState::Connected && d
                == (JoinDirective::Monitor { delay_s: CONNECTED_CHECK_INTERVAL_S }),
            ev matches LinkEvent::JoinFailed { .. } ==> final(self).link_state()
                == LinkState::Joining && d == (JoinDirective::AttemptJoin {
                delay_s: RETRY_DELAY_S,
            }),
            ev is MonitorTick ==> *final(self) == *old(self) && (if old(self).link_state()
                == LinkState::Connected {
                d == (JoinDirective::Monitor { delay_s: CONNECTED_CHECK_INTERVAL_S })
            } else {
                d == (JoinDirective::AttemptJoin { delay_s: 0 })
            }),
    {
        match ev {
            LinkEvent::Joined => {
                self.state = LinkState::Connected;
                JoinDirective::Monitor { delay_s: CONNECTED_CHECK_INTERVAL_S }
            },
            LinkEvent::JoinFailed { .. } => {
                self.state = LinkState::Joining;
                JoinDirective::AttemptJoin { delay_s: RETRY_DELAY_S }
            },
            LinkEvent::MonitorTick => {
                match self.state {
                    LinkState::Connected => JoinDirective::Monitor {
                        delay_s: CONNECTED_CHECK_INTERVAL_S,
                    },
                    LinkState::Joining => JoinDirective::AttemptJoin { delay_s: 0 },
                }
            },
        }
    }
}

} // verus!
