//! The listener (server): bind once, resolve TLS once, then accept forever,
//! pausing for a fixed inter-accept delay after every accepted connection.
//! The model below tracks the listener's phase and its admission-throttle
//! accounting; the surrounding runtime performs the socket operations and
//! drives the model with their outcomes.

use vstd::prelude::*;

use crate::config::ServerSettings;
use crate::error::Error;

verus! {

/// The listener's lifecycle: it binds, then accepts indefinitely, and stops
/// only on a fatal error (bind failure, TLS-resolution failure, or a failed
/// accept call).
#[derive(Debug)]
pub enum ListenerPhase {
    /// The socket is not bound yet and TLS is not resolved yet.
    Binding,
    /// The accept loop runs.
    Accepting,
    /// A fatal error ended this listener; sibling listeners are unaffected.
    Stopped { error: Error },
}

/// What one already-accepted connection reported back to its listener.
/// None of these outcomes is fatal to the listener.
#[derive(Debug, Clone, Copy, PartialEq, Eq, Structural)]
pub enum ConnectionOutcome {
    /// The TLS handshake failed; the connection was dropped.
    TlsHandshakeFailed,
    /// The connection's supervisor finished (with or without an error of
    /// its own).
    SupervisorFinished,
}

/// One listener: its name, its settings, its phase, and the throttle
/// accounting — how many connections were accepted and how long the loop
/// has paused between accepts.
#[derive(Debug)]
pub struct Server {
    /// The listener's name in the configuration map.
    pub id: String,
    /// This listener's settings; `next_connection_delay_ms` is the fixed
    /// pause between two accepts.
    pub config: ServerSettings,
    pub phase: ListenerPhase,
    /// Connections accepted so far.
    pub accepted: u64,
    /// Total time spent in inter-accept pauses, in milliseconds.
    pub waited_ms: u64,
    /// Whether the loop still owes the pause for the last accept.
    pub pending_delay: bool,
}

impl Server {
    /// The fixed inter-accept delay this listener throttles with.
    pub open spec fn delay_ms(self) -> u64 {
        self.config.next_connection_delay_ms
    }

    /// Throttle accounting invariant: every accept but the one whose pause
    /// is still owed has been followed by a full pause.
    pub open spec fn wf(self) -> bool {
        if self.pending_delay {
            &&& self.accepted >= 1
            &&& self.waited_ms >= (self.accepted - 1) * self.delay_ms()
        } else {
            self.waited_ms >= self.accepted * self.delay_ms()
        }
    }

    /// A fresh listener for one configured server entry.
    pub fn new(id: String, config: ServerSettings) -> (s: Server)
        ensures
            s.wf(),
            s.id@ == id@,
            s.config == config,
            s.phase is Binding,
            s.accepted == 0,
            s.waited_ms == 0,
            !s.pending_delay,
    {
        Server {
            id,
            config,
            phase: ListenerPhase::Binding,
            accepted: 0,
            waited_ms: 0,
            pending_delay: false,
        }
    }

    /// Record the outcome of binding the port and resolving TLS: success
    /// enters the accept loop; failure of either is fatal to this listener
    /// only.
    pub fn bound(&mut self, outcome: Result<(), Error>)
        requires
            old(self).phase is Binding,
            old(self).wf(),
        ensures
            final(self).wf(),
            outcome is Ok ==> final(self).phase is Accepting,
            outcome matches Err(e) ==> (final(self).phase matches ListenerPhase::Stopped { error }
                && error == e),
            final(self).id == old(self).id,
            final(self).config == old(self).config,
            final(self).accepted == old(self).accepted,
            final(self).waited_ms == old(self).waited_ms,
            final(self).pending_delay == old(self).pending_delay,
    {
        match outcome {
            Ok(()) => {
                self.phase = ListenerPhase::Accepting;
            },
            Err(error) => {
                self.phase = ListenerPhase::Stopped { error };
            },
        }
    }

    /// Record one accepted connection.  An accept is admitted only when the
    /// pause owed for the previous one has elapsed.
    pub fn accepted_connection(&mut self)
        requires
            old(self).phase is Accepting,
            !old(self).pending_delay,
            old(self).accepted < u64::MAX,
            old(self).wf(),
        ensures
            final(self).wf(),
            final(self).phase is Accepting,
            final(self).accepted == old(self).accepted + 1,
            final(self).waited_ms == old(self).waited_ms,
            final(self).pending_delay,
            final(self).id == old(self).id,
            final(self).config == old(self).config,
    {
        self.accepted = self.accepted + 1;
        self.pending_delay = true;
    }

    /// Record that a failed accept call is fatal to this listener.
    pub fn accept_failed(&mut self, error: Error)
        requires
            old(self).phase is Accepting,
            old(self).wf(),
        ensures
            final(self).wf(),
            final(self).phase matches ListenerPhase::Stopped { error: e } && e == error,
            final(self).id == old(self).id,
            final(self).config == old(self).config,
            final(self).accepted == old(self).accepted,
            final(self).waited_ms == old(self).waited_ms,
            final(self).pending_delay == old(self).pending_delay,
    {
        self.phase = ListenerPhase::Stopped { error };
    }

    /// Record the full inter-accept pause after an accepted connection,
    /// whatever that connection's fate.
    pub fn throttled(&mut self)
        requires
            old(self).phase is Accepting,
            old(self).pending_delay,
            old(self).waited_ms + old(self).delay_ms() <= u64::MAX,
            old(self).wf(),
        ensures
            final(self).wf(),
            final(self).phase is Accepting,
            final(self).accepted == old(self).accepted,
            final(self).waited_ms == old(self).waited_ms + old(self).delay_ms(),
            !final(self).pending_delay,
            final(self).id == old(self).id,
            final(self).config == old(self).config,
    {
        self.waited_ms = self.waited_ms + self.config.next_connection_delay_ms;
        self.pending_delay = false;
        proof {
            assert((self.accepted - 1) * self.delay_ms() + self.delay_ms() == (
            self.accepted as int) * self.delay_ms()) by (nonlinear_arith);
        }
    }

    /// A connection task's outcome — a failed TLS handshake or a finished
    /// supervisor — never changes the listener's state: faults in one
    /// connection are isolated and the loop keeps accepting.
    pub fn connection_settled(&mut self, outcome: ConnectionOutcome)
        requires
            old(self).phase is Accepting,
            old(self).wf(),
        ensures
            *final(self) == *old(self),
    {
        let _ = outcome;
    }
}

/// The admission throttle's lower bound: a listener with inter-accept delay
/// `D` that has accepted `N >= 1` connections has paused for at least
/// `(N - 1) * D` milliseconds in between — accepts cannot come faster.
pub proof fn lemma_throttle_lower_bound(s: Server)
    requires
        s.wf(),
        s.accepted >= 1,
    ensures
        s.waited_ms >= (s.accepted - 1) * s.delay_ms(),
{
    if !s.pending_delay {
        assert((s.accepted - 1) * s.delay_ms() <= (s.accepted as int) * s.delay_ms())
            by (nonlinear_arith);
    }
}

} // verus!
