//! Decisions of the snapshot server's accept loop.
//!
//! Connections are served by at most a fixed number of workers at once. A connection
//! that arrives while every worker is busy is closed at once, unserved, rather than
//! queued: queueing would either make the accept loop wait for a worker or let waiting
//! connections pile up without bound, and the accept loop must never block and the
//! resources held must stay bounded. Such a client sees an empty reply and can connect
//! again; every connection that is served gets the full best-effort text.

use vstd::prelude::*;

verus! {

/// What the listener's accept call came back with.
#[derive(Clone, Copy, Debug, PartialEq, Eq, Structural)]
pub enum AcceptEvent {
    /// A client connected.
    Connected,
    /// The listener failed; it cannot accept again.
    Failed,
}

/// What the accept loop does next.
#[derive(Clone, Copy, Debug, PartialEq, Eq, Structural)]
pub enum ListenerAction {
    /// Hand the connection to a new worker, which serves it and then calls
    /// `WorkerBudget::finish`.
    Spawn,
    /// Every worker is busy: close the connection unserved and accept the next one.
    Refuse,
    /// Stop accepting.
    Stop,
}

/// The bound on concurrently served connections, and how many are being served.
pub struct WorkerBudget {
    active: usize,
    limit: usize,
}

impl WorkerBudget {
    pub closed spec fn active_spec(&self) -> nat {
        self.active as nat
    }

    pub closed spec fn limit_spec(&self) -> nat {
        self.limit as nat
    }

    /// A budget of `limit` workers, none busy.
    pub fn new(limit: usize) -> (r: Self)
        requires
            limit > 0,
        ensures
            r.active_spec() == 0,
            r.limit_spec() == limit,
    {
        WorkerBudget { active: 0, limit }
    }

    pub fn active(&self) -> (r: usize)
        ensures
            r == self.active_spec(),
    {
        self.active
    }

    /// A worker has finished serving its connection.
    pub fn finish(&mut self)
        requires
            old(self).active_spec() <= old(self).limit_spec(),
        ensures
            final(self).active_spec() <= final(self).limit_spec(),
            final(self).limit_spec() == old(self).limit_spec(),
            final(self).active_spec() == if old(self).active_spec() > 0 {
                old(self).active_spec() - 1
            } else {
                0
            },
    {
        if self.active > 0 {
            self.active = self.active - 1;
        }
    }

    /// Decides what the accept loop does with what `accept` returned: a failed listener
    /// stops the loop; a connection gets a worker while one is free, and is refused
    /// otherwise, so the loop itself never waits for a worker.
    pub fn on_accept(&mut self, event: AcceptEvent) -> (r: ListenerAction)
        requires
            old(self).active_spec() <= old(self).limit_spec(),
        ensures
            final(self).active_spec() <= final(self).limit_spec(),
            final(self).limit_spec() == old(self).limit_spec(),
            event == AcceptEvent::Failed ==> r == ListenerAction::Stop,
            event == AcceptEvent::Connected && old(self).active_spec() < old(self).limit_spec() ==> r
                == ListenerAction::Spawn,
            event == AcceptEvent::Connected && old(self).active_spec() >= old(self).limit_spec() ==> r
                == ListenerAction::Refuse,
            final(self).active_spec() == if r == ListenerAction::Spawn {
                old(self).active_spec() + 1
            } else {
                old(self).active_spec()
            },
    {
        match event {
            AcceptEvent::Failed => ListenerAction::Stop,
            AcceptEvent::Connected => {
                if self.active < self.limit {
                    self.active = self.active + 1;
                    ListenerAction::Spawn
                } else {
                    ListenerAction::Refuse
                }
            },
        }
    }
}

} // verus!
