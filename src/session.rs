//! One streaming client's view of the hub: a lazy sequence of message texts
//! that skips over lag silently and ends when the client leaves.
use crate::hub::{Delivery, Hub, HubView, Received};
use vstd::prelude::*;

verus! {

/// What a session hands its client next.
pub enum SessionStep {
    /// One event whose payload is this message text.
    Send(String),
    /// Nothing new yet: wait for the next publish.
    Wait,
    /// The subscription is gone: end the stream.
    End,
}

/// The hub as a session sees it before its receive: a lag is stepped over.
pub open spec fn skip_lag(v: HubView, id: u64) -> HubView {
    if v.delivery(id) is Lagged {
        v.after_receive(id)
    } else {
        v
    }
}

/// One client's registration with the hub.
pub struct Session {
    id: u64,
}

impl Session {
    pub closed spec fn spec_id(&self) -> u64 {
        self.id
    }

    /// Subscribes a new session as of this moment; `None` only once the hub
    /// has no ids left.
    pub fn open(hub: &mut Hub) -> (r: Option<Session>)
        requires
            old(hub).wf(),
        ensures
            final(hub).wf(),
            old(hub)@.next_id < u64::MAX ==> (r matches Some(s) && s.spec_id()
                == old(hub)@.next_id && final(hub)@ == old(hub)@.after_subscribe()),
            old(hub)@.next_id == u64::MAX ==> r.is_none() && final(hub)@ == old(hub)@,
    {
        match hub.subscribe() {
            Some(id) => Some(Session { id }),
            None => None,
        }
    }

    pub fn id(&self) -> (r: u64)
        ensures
            r == self.spec_id(),
    {
        self.id
    }

    /// The next step of the stream: the next message if there is one, after
    /// stepping over any lag without telling the client.
    pub fn next_step(&self, hub: &mut Hub) -> (r: SessionStep)
        requires
            old(hub).wf(),
        ensures
            final(hub).wf(),
            final(hub)@ == skip_lag(old(hub)@, self.spec_id()).after_receive(self.spec_id()),
            match skip_lag(old(hub)@, self.spec_id()).delivery(self.spec_id()) {
                Delivery::Message(s) => r matches SessionStep::Send(m)
                    && m@ == old(hub)@.history[s as int],
                Delivery::Empty => r is Wait,
                Delivery::Closed => r is End,
                Delivery::Lagged(_) => false,
            },
    {
        let ghost v0 = hub@;
        let first = hub.receive(self.id);
        proof {
            old(hub).lemma_view_wf();
            let v1 = skip_lag(v0, self.id);
            if v0.delivery(self.id) is Lagged {
                assert(v1.subscribers[self.id].next == v0.oldest());
                assert(v1.oldest() == v0.oldest());
            }
            assert(!(v1.delivery(self.id) is Lagged));
            assert(v1.history == v0.history);
        }
        let r = match first {
            Received::Lagged(_) => hub.receive(self.id),
            other => other,
        };
        match r {
            Received::Message(m) => SessionStep::Send(m),
            Received::Empty => SessionStep::Wait,
            Received::Closed => SessionStep::End,
            Received::Lagged(_) => SessionStep::Wait,
        }
    }

    /// Ends the session: its registration leaves the hub.
    pub fn close(self, hub: &mut Hub)
        requires
            old(hub).wf(),
        ensures
            final(hub).wf(),
            final(hub)@ == old(hub)@.after_unsubscribe(self.spec_id()),
    {
        hub.unsubscribe(self.id);
    }
}

} // verus!
