//! Per-connection supervision: classify how a link run ended and build the
//! one disconnect event owed to the router for every connection that
//! completed its handshake.

use vstd::prelude::*;

use crate::error::{ConnectionError, Error};

verus! {

/// The disconnect notification owed to the router for one finished
/// connection: the client identifier, whether the last will must be
/// executed, and the link's final session-clean answer.
#[derive(Debug, Clone)]
pub struct DisconnectEvent {
    pub client_id: String,
    pub execute_will: bool,
    pub clean: bool,
}

impl View for DisconnectEvent {
    /// Spec image of an event: client identifier, will flag, clean flag.
    type V = (Seq<char>, bool, bool);

    open spec fn view(&self) -> (Seq<char>, bool, bool) {
        (self.client_id@, self.execute_will, self.clean)
    }
}

/// Whether a finished link run obliges the broker to execute the client's
/// last will.  Every termination does — a normal stop, an abnormal error,
/// and the transport-level abort the link designates as a deliberate clean
/// close — except an explicit client-requested disconnect.
pub open spec fn will_required(run: Result<(), ConnectionError>) -> bool {
    run != Err::<(), ConnectionError>(ConnectionError::Disconnect)
}

/// Classify a link run's outcome into the will decision.
pub fn execute_will(run: &Result<(), ConnectionError>) -> (r: bool)
    ensures
        r == will_required(*run),
{
    match run {
        Err(ConnectionError::Disconnect) => false,
        _ => true,
    }
}

/// The disconnect events a supervised connection owes the router, given the
/// image of its handshake result (client identifier and assigned connection
/// identifier) and — when the handshake completed — how the link run ended
/// and the link's final session-clean answer.
pub open spec fn owed_disconnects(
    handshake: Result<(Seq<char>, int), ConnectionError>,
    run: Result<(), ConnectionError>,
    clean: bool,
) -> Seq<(int, (Seq<char>, bool, bool))> {
    match handshake {
        Ok(p) => seq![(p.1, (p.0, will_required(run), clean))],
        Err(_) => Seq::empty(),
    }
}

/// Spec image of an exec handshake result.
pub open spec fn handshake_image(
    h: Result<(String, usize), ConnectionError>,
) -> Result<(Seq<char>, int), ConnectionError> {
    match h {
        Ok(p) => Ok((p.0@, p.1 as int)),
        Err(e) => Err(e),
    }
}

/// For every connection that completes its handshake, exactly one
/// disconnect event is owed, keyed by the connection identifier the
/// handshake assigned and carrying the client identifier it yielded; for a
/// connection whose handshake fails, none is owed.
pub proof fn lemma_exactly_one_disconnect(
    handshake: Result<(Seq<char>, int), ConnectionError>,
    run: Result<(), ConnectionError>,
    clean: bool,
)
    ensures
        handshake matches Ok(p) ==> owed_disconnects(handshake, run, clean)
            =~= seq![(p.1, (p.0, will_required(run), clean))],
        handshake is Err ==> owed_disconnects(handshake, run, clean).len() == 0,
{
}

/// Build the single disconnect event for a connection whose handshake
/// yielded `client_id`, whose link run returned `run`, and whose session
/// reported `clean` at exit.
pub fn disconnect_event(
    client_id: String,
    run: &Result<(), ConnectionError>,
    clean: bool,
) -> (ev: DisconnectEvent)
    ensures
        ev@ == (client_id@, will_required(*run), clean),
{
    let execute_will = execute_will(run);
    DisconnectEvent { client_id, execute_will, clean }
}

/// The full verdict for one supervised connection: the event actually
/// produced, keyed by the assigned identifier, is exactly the one owed.
pub fn connection_verdict(
    id: usize,
    client_id: String,
    run: &Result<(), ConnectionError>,
    clean: bool,
) -> (out: (usize, DisconnectEvent))
    ensures
        seq![(out.0 as int, out.1@)] == owed_disconnects(
            handshake_image(Ok((client_id, id))),
            *run,
            clean,
        ),
{
    let ev = disconnect_event(client_id, run, clean);
    proof {
        assert(seq![(id as int, ev@)] =~= owed_disconnects(
            Ok::<(Seq<char>, int), ConnectionError>((client_id@, id as int)),
            *run,
            clean,
        ));
    }
    (id, ev)
}

/// The connector's verdict at the handshake boundary: a failed handshake is
/// surfaced as this layer's error and the connection, never having
/// registered with the router, owes no disconnect event.
pub fn handshake_gate(
    handshake: Result<(String, usize), ConnectionError>,
) -> (r: Result<(String, usize), Error>)
    ensures
        handshake matches Ok(ok) ==> (r matches Ok(p) && p == ok),
        handshake matches Err(e) ==> (r matches Err(err) && err == Error::Connection(e)),
{
    match handshake {
        Ok(p) => Ok(p),
        Err(e) => Err(Error::Connection(e)),
    }
}

} // verus!
