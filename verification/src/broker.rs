//! The broker orchestrator: it owns the configuration snapshot and the
//! router's inbound message channel.  The channel model below states the
//! router-side contract this layer depends on: every message sent is kept,
//! in arrival order, and the router observes each exactly once.

use vstd::prelude::*;

use crate::config::Config;
use crate::connection::DisconnectEvent;

verus! {

/// Spec image of one routed message: connection identifier and event image.
pub open spec fn message_image(m: (usize, DisconnectEvent)) -> (int, (Seq<char>, bool, bool)) {
    (m.0 as int, m.1@)
}

/// The router's inbound channel, modelled from the router's side: an
/// arrival-ordered inbox plus the history of what was sent and what the
/// router has already observed.
pub struct RouterChannel {
    /// Messages that arrived and are not yet processed, in arrival order.
    inbox: Vec<(usize, DisconnectEvent)>,
    /// History of every message ever sent, in arrival order.
    sent: Ghost<Seq<(int, (Seq<char>, bool, bool))>>,
    /// History of every message the router has observed, in order.
    observed: Ghost<Seq<(int, (Seq<char>, bool, bool))>>,
}

impl RouterChannel {
    /// The images of the messages still queued, in arrival order.
    pub closed spec fn queued(self) -> Seq<(int, (Seq<char>, bool, bool))> {
        self.inbox@.map(|i: int, m: (usize, DisconnectEvent)| message_image(m))
    }

    /// Everything sent, in arrival order.
    pub closed spec fn sent_history(self) -> Seq<(int, (Seq<char>, bool, bool))> {
        self.sent@
    }

    /// Everything the router observed so far, in order.
    pub closed spec fn observed_history(self) -> Seq<(int, (Seq<char>, bool, bool))> {
        self.observed@
    }

    /// Conservation: what was sent is exactly what was observed followed by
    /// what still waits — nothing lost, nothing duplicated, order kept.
    pub closed spec fn wf(self) -> bool {
        self.sent@ == self.observed@ + self.queued()
    }

    /// A fresh, empty channel.
    pub fn new() -> (c: RouterChannel)
        ensures
            c.wf(),
            c.sent_history().len() == 0,
            c.observed_history().len() == 0,
            c.queued().len() == 0,
    {
        let c = RouterChannel {
            inbox: Vec::new(),
            sent: Ghost(Seq::empty()),
            observed: Ghost(Seq::empty()),
        };
        proof {
            assert(c.sent@ =~= c.observed@ + c.queued());
        }
        c
    }

    /// Send one message: it is appended to the inbox and to the sent
    /// history; nothing already queued or observed changes.
    pub fn send(&mut self, id: usize, event: DisconnectEvent)
        requires
            old(self).wf(),
        ensures
            final(self).wf(),
            final(self).sent_history() == old(self).sent_history().push(
                (id as int, event@),
            ),
            final(self).observed_history() == old(self).observed_history(),
            final(self).queued() == old(self).queued().push((id as int, event@)),
    {
        let ghost image = (id as int, event@);
        self.inbox.push((id, event));
        proof {
            self.sent@ = self.sent@.push(image);
            assert(self.queued() =~= old(self).queued().push(image));
            assert(self.sent@ =~= self.observed@ + self.queued());
        }
    }

    /// The router takes the next message: the one that arrived first, each
    /// exactly once, in arrival order.
    pub fn process_next(&mut self) -> (r: Option<(usize, DisconnectEvent)>)
        requires
            old(self).wf(),
        ensures
            final(self).wf(),
            final(self).sent_history() == old(self).sent_history(),
            old(self).queued().len() == 0 ==> (r is None && *final(self) == *old(self)),
            old(self).queued().len() > 0 ==> (r matches Some(m)
                && message_image(m) == old(self).queued()[0]
                && final(self).observed_history() == old(self).observed_history().push(
                message_image(m),
            ) && final(self).queued() == old(self).queued().skip(1)),
    {
        if self.inbox.len() == 0 {
            proof {
                assert(self.queued() =~= old(self).queued());
            }
            None
        } else {
            let m = self.inbox.remove(0);
            proof {
                self.observed@ = self.observed@.push(message_image(m));
                assert(final(self).queued() =~= old(self).queued().skip(1));
                assert(self.sent@ =~= self.observed@ + self.queued());
            }
            Some(m)
        }
    }
}

/// Every message sent on the router channel is observed by the router
/// exactly once and in arrival order: once the queue has drained, the
/// observed history equals the sent history.
pub proof fn lemma_channel_delivers_exactly_once(c: RouterChannel)
    requires
        c.wf(),
        c.queued().len() == 0,
    ensures
        c.observed_history() == c.sent_history(),
{
    assert(c.observed_history() =~= c.observed_history() + c.queued());
}

/// The broker: the immutable configuration snapshot and the router's
/// channel, created together and never replaced.
pub struct Broker {
    pub config: Config,
    pub channel: RouterChannel,
}

impl Broker {
    /// Construct the broker: the configuration is taken as given and the
    /// router channel starts empty.  Construction never fails.
    pub fn new(config: Config) -> (b: Broker)
        ensures
            b.config == config,
            b.channel.wf(),
            b.channel.sent_history().len() == 0,
            b.channel.observed_history().len() == 0,
    {
        Broker { config, channel: RouterChannel::new() }
    }
}

} // verus!
