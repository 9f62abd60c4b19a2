//! The UDP server's lifecycle and its receive loop's priorities.
//!
//! The server moves `Created -> Running -> ShuttingDown -> Stopped`; a bind
//! failure is fatal and the server never starts.  The receive loop observes
//! the shutdown signal with priority over inbound datagrams, and a shutdown
//! request consumes its one-shot signal: a second request is a no-op.

use vstd::prelude::*;

verus! {

/// Where the server stands in its life.
#[derive(Clone, Copy, PartialEq, Eq, Structural, Debug)]
pub enum ServerPhase {
    Created,
    Running,
    ShuttingDown,
    Stopped,
}

/// What the receive loop acts on next.
#[derive(Clone, Copy, PartialEq, Eq, Structural, Debug)]
pub enum LoopEvent {
    /// The shutdown signal fired: exit the loop.
    Shutdown,
    /// A datagram is waiting: hand it to a handler and keep receiving.
    Receive,
    /// Nothing is pending: keep waiting.
    Idle,
}

/// Picks the event the receive loop acts on when several are pending: the
/// shutdown signal always wins, so a flood of inbound traffic can never
/// starve a shutdown request.
pub fn next_loop_event(shutdown_pending: bool, datagram_pending: bool) -> (r: LoopEvent)
    ensures
        shutdown_pending ==> r is Shutdown,
        !shutdown_pending && datagram_pending ==> r is Receive,
        !shutdown_pending && !datagram_pending ==> r is Idle,
{
    if shutdown_pending {
        LoopEvent::Shutdown
    } else if datagram_pending {
        LoopEvent::Receive
    } else {
        LoopEvent::Idle
    }
}

/// The server's lifecycle, driven by the loop that owns the socket.
pub struct ServerLifecycle {
    phase: ServerPhase,
    shutdown_sent: bool,
}

impl ServerLifecycle {
    /// The current phase, as contracts speak of it.
    pub closed spec fn phase_spec(self) -> ServerPhase {
        self.phase
    }

    /// Whether the one-shot shutdown signal has already been sent.
    pub closed spec fn shutdown_sent_spec(self) -> bool {
        self.shutdown_sent
    }

    /// A server that has not tried to bind yet.
    pub fn new() -> (r: ServerLifecycle)
        ensures
            r.phase_spec() == ServerPhase::Created,
            !r.shutdown_sent_spec(),
    {
        ServerLifecycle { phase: ServerPhase::Created, shutdown_sent: false }
    }

    pub fn phase(&self) -> (r: ServerPhase)
        ensures
            r == self.phase_spec(),
    {
        self.phase
    }

    /// The listening socket bound: the receive loop starts.
    pub fn on_bound(&mut self)
        requires
            old(self).phase_spec() == ServerPhase::Created,
        ensures
            final(self).phase_spec() == ServerPhase::Running,
            final(self).shutdown_sent_spec() == old(self).shutdown_sent_spec(),
    {
        self.phase = ServerPhase::Running;
    }

    /// Binding failed: fatal, the server never starts.
    pub fn on_bind_failed(&mut self)
        requires
            old(self).phase_spec() == ServerPhase::Created,
        ensures
            final(self).phase_spec() == ServerPhase::Stopped,
            final(self).shutdown_sent_spec() == old(self).shutdown_sent_spec(),
    {
        self.phase = ServerPhase::Stopped;
    }

    /// Sends the one-shot shutdown signal.  Only the first request sends
    /// anything; a second request is a no-op, and the report says which this
    /// was.
    pub fn request_shutdown(&mut self) -> (sent: bool)
        ensures
            sent == !old(self).shutdown_sent_spec(),
            final(self).shutdown_sent_spec(),
            final(self).phase_spec() == old(self).phase_spec(),
    {
        let sent = !self.shutdown_sent;
        self.shutdown_sent = true;
        sent
    }

    /// The receive loop observed the shutdown signal: stop accepting new
    /// datagrams; handlers already spawned run to completion.
    pub fn observe_shutdown(&mut self)
        requires
            old(self).phase_spec() == ServerPhase::Running,
        ensures
            final(self).phase_spec() == ServerPhase::ShuttingDown,
            final(self).shutdown_sent_spec() == old(self).shutdown_sent_spec(),
    {
        self.phase = ServerPhase::ShuttingDown;
    }

    /// The receive loop exited and the listening socket is dropped.
    pub fn on_loop_exit(&mut self)
        requires
            old(self).phase_spec() == ServerPhase::ShuttingDown,
        ensures
            final(self).phase_spec() == ServerPhase::Stopped,
            final(self).shutdown_sent_spec() == old(self).shutdown_sent_spec(),
    {
        self.phase = ServerPhase::Stopped;
    }
}

} // verus!
