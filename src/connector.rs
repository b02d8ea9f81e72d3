//! The upstream connector's decisions: when to connect, what each broker
//! event does to the connection and to the hub. The caller performs the
//! actions (connect and subscribe, poll) and hands back what happened.
use crate::hub::{Delivery, Hub, HubView};
use vstd::prelude::*;

verus! {

/// The text that lossy decoding gives for a payload.
pub uninterp spec fn lossy_text(bytes: Seq<u8>) -> Seq<char>;

/// Relies on `String::from_utf8_lossy`: it replaces invalid sequences
/// instead of failing, and its text depends on the bytes alone.
#[verifier::external_body]
fn decode_lossy(bytes: &Vec<u8>) -> (r: String)
    ensures
        r@ == lossy_text(bytes@),
{
    String::from_utf8_lossy(bytes).into_owned()
}

/// Where the single upstream subscription stands.
#[derive(Clone, Copy, PartialEq, Eq, Structural, Debug)]
pub enum ConnectionState {
    Disconnected,
    Connecting,
    Subscribed,
    Failed,
}

/// What the caller should do next.
#[derive(Clone, Copy, PartialEq, Eq, Structural, Debug)]
pub enum Action {
    /// Open a new connection and ask for the topic's subscription.
    Connect,
    /// Wait for the next event of the current connection.
    Poll,
}

/// What came out of one poll of the broker connection.
pub enum UpstreamEvent {
    /// The broker accepted the connection.
    ConnectionAccepted,
    /// The broker accepted the subscription.
    SubscriptionAccepted,
    /// A message on the topic, with its raw payload.
    Message(Vec<u8>),
    /// Any other protocol traffic (pings, acknowledgements).
    Other,
    /// The transport failed.
    Error,
}

/// What handling one event amounted to.
#[derive(Clone, Copy, PartialEq, Eq, Structural, Debug)]
pub enum Handled {
    /// Nothing for the hub.
    Ignored,
    /// A message was published to the hub.
    Delivered,
    /// The connection is abandoned; the next action connects anew.
    Failed,
}

/// The action taken in state `s`.
pub open spec fn action_for(s: ConnectionState) -> Action {
    match s {
        ConnectionState::Disconnected | ConnectionState::Failed => Action::Connect,
        _ => Action::Poll,
    }
}

/// The state once the action for `s` has been handed out.
pub open spec fn state_after_action(s: ConnectionState) -> ConnectionState {
    match s {
        ConnectionState::Disconnected | ConnectionState::Failed => ConnectionState::Connecting,
        _ => s,
    }
}

/// Whether a connection is live in state `s`.
pub open spec fn is_live(s: ConnectionState) -> bool {
    s == ConnectionState::Connecting || s == ConnectionState::Subscribed
}

/// The state after event `e` arrives in state `s`.
pub open spec fn state_after_event(s: ConnectionState, e: UpstreamEvent) -> ConnectionState {
    match e {
        UpstreamEvent::Error => ConnectionState::Failed,
        UpstreamEvent::SubscriptionAccepted => if s == ConnectionState::Connecting {
            ConnectionState::Subscribed
        } else {
            s
        },
        _ => s,
    }
}

/// What handling event `e` in state `s` amounts to.
pub open spec fn handled(s: ConnectionState, e: UpstreamEvent) -> Handled {
    match e {
        UpstreamEvent::Error => Handled::Failed,
        UpstreamEvent::Message(_) => if is_live(s) {
            Handled::Delivered
        } else {
            Handled::Ignored
        },
        _ => Handled::Ignored,
    }
}

/// The hub after event `e` arrives in state `s`: a message on a live
/// connection is published, decoded; nothing else touches the hub.
pub open spec fn hub_after_event(v: HubView, s: ConnectionState, e: UpstreamEvent) -> HubView {
    match e {
        UpstreamEvent::Message(p) => if is_live(s) {
            v.after_publish(lossy_text(p@))
        } else {
            v
        },
        _ => v,
    }
}

/// Keeps exactly one subscription alive: any transport error abandons the
/// connection, and the next action starts the whole cycle again at once.
pub struct Connector {
    state: ConnectionState,
}

impl Connector {
    pub closed spec fn spec_state(&self) -> ConnectionState {
        self.state
    }

    pub fn new() -> (r: Connector)
        ensures
            r.spec_state() == ConnectionState::Disconnected,
    {
        Connector { state: ConnectionState::Disconnected }
    }

    pub fn state(&self) -> (r: ConnectionState)
        ensures
            r == self.spec_state(),
    {
        self.state
    }

    /// The next thing to do: connect when there is no live connection,
    /// otherwise poll the one there is.
    pub fn next_action(&mut self) -> (r: Action)
        ensures
            r == action_for(old(self).spec_state()),
            final(self).spec_state() == state_after_action(old(self).spec_state()),
    {
        match self.state {
            ConnectionState::Disconnected | ConnectionState::Failed => {
                self.state = ConnectionState::Connecting;
                Action::Connect
            },
            _ => Action::Poll,
        }
    }

    /// Takes one event of the connection: a message is decoded and
    /// published to `hub`, an error abandons the connection, everything
    /// else only moves the state along.
    pub fn on_event(&mut self, hub: &mut Hub, event: UpstreamEvent) -> (r: Handled)
        requires
            old(hub).wf(),
            old(hub)@.published() < u64::MAX,
        ensures
            final(hub).wf(),
            r == handled(old(self).spec_state(), event),
            final(self).spec_state() == state_after_event(old(self).spec_state(), event),
            final(hub)@ == hub_after_event(old(hub)@, old(self).spec_state(), event),
    {
        match event {
            UpstreamEvent::Error => {
                self.state = ConnectionState::Failed;
                Handled::Failed
            },
            UpstreamEvent::SubscriptionAccepted => {
                if self.state == ConnectionState::Connecting {
                    self.state = ConnectionState::Subscribed;
                }
                Handled::Ignored
            },
            UpstreamEvent::Message(payload) => {
                if self.state == ConnectionState::Connecting || self.state
                    == ConnectionState::Subscribed {
                    let text = decode_lossy(&payload);
                    hub.publish(text);
                    Handled::Delivered
                } else {
                    Handled::Ignored
                }
            },
            _ => Handled::Ignored,
        }
    }
}

/// Reconnect after failure: an error in any state abandons the connection
/// without touching the hub, so nothing already delivered is delivered
/// again; the next action connects anew, and the first message on the new
/// connection reaches a registered, caught-up subscriber as the next
/// message it reads.
pub proof fn lemma_reconnect_resumes(
    s: ConnectionState,
    v: HubView,
    id: u64,
    payload: Vec<u8>,
)
    requires
        v.wf(),
        v.is_subscribed(id),
        v.subscribers[id].next == v.published(),
    ensures
        state_after_event(s, UpstreamEvent::Error) == ConnectionState::Failed,
        hub_after_event(v, s, UpstreamEvent::Error) == v,
        v.delivery(id) == Delivery::Empty,
        action_for(ConnectionState::Failed) == Action::Connect,
        is_live(state_after_action(ConnectionState::Failed)),
        handled(ConnectionState::Connecting, UpstreamEvent::Message(payload)) == Handled::Delivered,
        hub_after_event(v, ConnectionState::Connecting, UpstreamEvent::Message(payload)).delivery(id)
            == Delivery::Message(v.published()),
        hub_after_event(v, ConnectionState::Connecting, UpstreamEvent::Message(payload)).history[v.published() as int]
            == lossy_text(payload@),
{
}

} // verus!
