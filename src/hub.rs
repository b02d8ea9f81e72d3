//! The fan-out hub: a bounded ring of recent messages shared by every
//! subscriber, each of which reads at its own cursor.
use std::collections::HashMap;
use vstd::prelude::*;

verus! {

broadcast use vstd::std_specs::hash::group_hash_axioms;

/// How many messages a hub keeps for its subscribers unless told otherwise.
pub const DEFAULT_BUFFER_SIZE: usize = 1024;

/// Where one subscriber stands in the hub's sequence of messages.
#[derive(Clone, Copy)]
pub struct Cursor {
    /// Sequence number of the first message published after registration.
    pub joined: u64,
    /// Sequence number of the next message this subscriber reads.
    pub next: u64,
}

/// What a subscriber gets when it asks the hub for its next message.
pub enum Received {
    /// The next message, in publish order.
    Message(String),
    /// The subscriber fell behind the ring; this many messages were skipped
    /// and its cursor now stands at the oldest message still kept.
    Lagged(u64),
    /// Nothing new has been published.
    Empty,
    /// The subscriber is not registered.
    Closed,
}

/// The abstract state of a hub: every message ever published (in order),
/// the ring's capacity, and each registered subscriber's cursor.
pub ghost struct HubView {
    pub capacity: nat,
    pub history: Seq<Seq<char>>,
    pub subscribers: Map<u64, Cursor>,
    pub next_id: nat,
}

/// What a receive yields, in terms of sequence numbers.
pub ghost enum Delivery {
    Message(nat),
    Lagged(nat),
    Empty,
    Closed,
}

impl HubView {
    pub open spec fn published(self) -> nat {
        self.history.len()
    }

    /// How many of the latest messages the ring still holds.
    pub open spec fn retained(self) -> nat {
        if self.published() < self.capacity {
            self.published()
        } else {
            self.capacity
        }
    }

    /// Sequence number of the oldest message still held.
    pub open spec fn oldest(self) -> nat {
        (self.published() - self.retained()) as nat
    }

    pub open spec fn is_subscribed(self, id: u64) -> bool {
        self.subscribers.contains_key(id)
    }

    pub open spec fn wf(self) -> bool {
        &&& self.capacity > 0
        &&& self.next_id <= u64::MAX
        &&& self.published() <= u64::MAX
        &&& forall|id: u64| #[trigger]
            self.subscribers.contains_key(id) ==> {
                &&& id < self.next_id
                &&& self.subscribers[id].joined <= self.subscribers[id].next
                &&& self.subscribers[id].next <= self.published()
            }
    }

    /// What the next receive by `id` yields.
    pub open spec fn delivery(self, id: u64) -> Delivery {
        if !self.subscribers.contains_key(id) {
            Delivery::Closed
        } else if self.subscribers[id].next < self.oldest() {
            Delivery::Lagged((self.oldest() - self.subscribers[id].next) as nat)
        } else if self.subscribers[id].next == self.published() {
            Delivery::Empty
        } else {
            Delivery::Message(self.subscribers[id].next as nat)
        }
    }

    pub open spec fn with_cursor(self, id: u64, next: nat) -> HubView {
        HubView {
            subscribers: self.subscribers.insert(
                id,
                Cursor { joined: self.subscribers[id].joined, next: next as u64 },
            ),
            ..self
        }
    }

    /// The state after a receive by `id`.
    pub open spec fn after_receive(self, id: u64) -> HubView {
        match self.delivery(id) {
            Delivery::Lagged(_) => self.with_cursor(id, self.oldest()),
            Delivery::Message(s) => self.with_cursor(id, s + 1),
            _ => self,
        }
    }

    /// The state after `m` is published.
    pub open spec fn after_publish(self, m: Seq<char>) -> HubView {
        HubView { history: self.history.push(m), ..self }
    }

    /// The state after a new subscriber registers; it takes the id `next_id`.
    pub open spec fn after_subscribe(self) -> HubView {
        HubView {
            subscribers: self.subscribers.insert(
                self.next_id as u64,
                Cursor { joined: self.published() as u64, next: self.published() as u64 },
            ),
            next_id: self.next_id + 1,
            ..self
        }
    }

    /// The state after `id` leaves.
    pub open spec fn after_unsubscribe(self, id: u64) -> HubView {
        HubView { subscribers: self.subscribers.remove(id), ..self }
    }
}

/// Two sequence numbers less than a capacity apart sit in different slots.
proof fn lemma_distinct_slots(a: int, s: int, c: int)
    requires
        c > 0,
        0 <= s < a,
        a - s < c,
    ensures
        s % c != a % c,
{
    vstd::arithmetic::div_mod::lemma_fundamental_div_mod(a, c);
    vstd::arithmetic::div_mod::lemma_fundamental_div_mod(s, c);
    if s % c == a % c {
        let k = a / c - s / c;
        assert(k * c == a - s) by (nonlinear_arith)
            requires
                a == c * (a / c) + a % c,
                s == c * (s / c) + s % c,
                s % c == a % c,
                k == a / c - s / c,
        ;
        if k >= 1 {
            assert(k * c >= c) by (nonlinear_arith)
                requires
                    k >= 1,
                    c > 0,
            ;
        } else {
            assert(k * c <= 0) by (nonlinear_arith)
                requires
                    k <= 0,
                    c > 0,
            ;
        }
    }
}

/// The texts that `n` successive receives by `id` yield, up to the first
/// receive that yields no message.
pub open spec fn received(v: HubView, id: u64, n: nat) -> Seq<Seq<char>>
    decreases n,
{
    if n == 0 {
        Seq::empty()
    } else {
        match v.delivery(id) {
            Delivery::Message(s) => seq![v.history[s as int]] + received(
                v.after_receive(id),
                id,
                (n - 1) as nat,
            ),
            _ => Seq::empty(),
        }
    }
}

/// The state after each of `msgs` is published in turn.
pub open spec fn publish_all(v: HubView, msgs: Seq<Seq<char>>) -> HubView
    decreases msgs.len(),
{
    if msgs.len() == 0 {
        v
    } else {
        publish_all(v, msgs.drop_last()).after_publish(msgs.last())
    }
}

proof fn lemma_publish_all(v: HubView, msgs: Seq<Seq<char>>)
    ensures
        publish_all(v, msgs) == (HubView { history: v.history + msgs, ..v }),
    decreases msgs.len(),
{
    if msgs.len() > 0 {
        lemma_publish_all(v, msgs.drop_last());
        assert(v.history + msgs =~= (v.history + msgs.drop_last()).push(msgs.last()));
    }
}

/// A subscriber that is not behind the ring reads the rest of the history.
proof fn lemma_catch_up(w: HubView, id: u64)
    requires
        w.subscribers.contains_key(id),
        w.oldest() <= w.subscribers[id].next <= w.published(),
        w.published() <= u64::MAX,
    ensures
        received(w, id, (w.published() - w.subscribers[id].next) as nat) == w.history.subrange(
            w.subscribers[id].next as int,
            w.published() as int,
        ),
    decreases w.published() - w.subscribers[id].next,
{
    let c = w.subscribers[id].next as int;
    let n = (w.published() - c) as nat;
    if n > 0 {
        let w2 = w.after_receive(id);
        assert(w2.subscribers[id].next == c + 1);
        lemma_catch_up(w2, id);
        assert(w.history.subrange(c, w.published() as int) =~= seq![w.history[c]]
            + w2.history.subrange(c + 1, w.published() as int));
    } else {
        assert(w.history.subrange(c, w.published() as int) =~= Seq::<Seq<char>>::empty());
    }
}

/// Every subscriber that is registered and caught up when a run of messages
/// starts, and not left behind by more than the ring holds, receives exactly
/// those messages, in publish order.
pub proof fn lemma_delivers_in_order(v: HubView, id: u64, msgs: Seq<Seq<char>>)
    requires
        v.wf(),
        v.is_subscribed(id),
        v.subscribers[id].next == v.published(),
        msgs.len() <= v.capacity,
        v.published() + msgs.len() <= u64::MAX,
    ensures
        received(publish_all(v, msgs), id, msgs.len()) == msgs,
{
    lemma_publish_all(v, msgs);
    let w = publish_all(v, msgs);
    lemma_catch_up(w, id);
    assert(w.history.subrange(v.published() as int, w.published() as int) =~= msgs);
}

/// No replay: a subscriber starts at the count of messages published before
/// it registered, every message it receives has a sequence number at least
/// that, and no operation on the hub moves that starting point.
pub proof fn lemma_no_replay(v: HubView, id: u64, m: Seq<char>, other: u64)
    requires
        v.wf(),
        v.is_subscribed(id),
    ensures
        v.next_id < u64::MAX ==> v.after_subscribe().subscribers[v.next_id as u64].joined
            == v.published(),
        v.delivery(id) matches Delivery::Message(s) ==> s >= v.subscribers[id].joined,
        v.after_receive(id).subscribers[id].joined == v.subscribers[id].joined,
        v.after_publish(m).subscribers[id] == v.subscribers[id],
        other != id ==> v.after_unsubscribe(other).subscribers[id] == v.subscribers[id],
        v.next_id < u64::MAX ==> v.after_subscribe().subscribers[id] == v.subscribers[id],
{
}

/// A subscriber that leaves is gone from the registry at once: later
/// publishes do not bring it back, and receiving for it yields `Closed`.
pub proof fn lemma_unsubscribed_is_closed(v: HubView, id: u64, msgs: Seq<Seq<char>>)
    ensures
        !v.after_unsubscribe(id).is_subscribed(id),
        !publish_all(v.after_unsubscribe(id), msgs).is_subscribed(id),
        publish_all(v.after_unsubscribe(id), msgs).delivery(id) == Delivery::Closed,
{
    lemma_publish_all(v.after_unsubscribe(id), msgs);
}

/// A subscriber that stops reading while more messages than the ring holds
/// are published sees a lag of exactly the overflow; the publisher and every
/// other subscriber's cursor are untouched.
pub proof fn lemma_stalled_subscriber_lags(v: HubView, id: u64, msgs: Seq<Seq<char>>)
    requires
        v.wf(),
        v.is_subscribed(id),
        v.subscribers[id].next == v.published(),
        msgs.len() > v.capacity,
    ensures
        publish_all(v, msgs).subscribers == v.subscribers,
        publish_all(v, msgs).delivery(id) == Delivery::Lagged((msgs.len() - v.capacity) as nat),
{
    lemma_publish_all(v, msgs);
}

/// A bounded broadcast point: publishing writes one slot of a ring and never
/// waits for any subscriber.
pub struct Hub {
    slots: Vec<String>,
    capacity: usize,
    published: u64,
    next_id: u64,
    subscribers: HashMap<u64, Cursor>,
    history: Ghost<Seq<Seq<char>>>,
}

impl View for Hub {
    type V = HubView;

    closed spec fn view(&self) -> HubView {
        HubView {
            capacity: self.capacity as nat,
            history: self.history@,
            subscribers: self.subscribers@,
            next_id: self.next_id as nat,
        }
    }
}

impl Hub {
    pub closed spec fn wf(&self) -> bool {
        &&& self@.wf()
        &&& self.published as nat == self.history@.len()
        &&& self.slots@.len() == self@.retained()
        &&& forall|s: int|
            self@.oldest() <= s < self@.published() ==> (#[trigger] self.slots@[s
                % (self.capacity as int)])@ == self.history@[s]
    }

    /// A well-formed hub has a well-formed abstract state.
    pub proof fn lemma_view_wf(&self)
        requires
            self.wf(),
        ensures
            self@.wf(),
    {
    }

    /// A hub whose ring keeps the latest `capacity` messages.
    pub fn new(capacity: usize) -> (r: Hub)
        requires
            capacity > 0,
        ensures
            r.wf(),
            r@.capacity == capacity,
            r@.history == Seq::<Seq<char>>::empty(),
            r@.subscribers == Map::<u64, Cursor>::empty(),
            r@.next_id == 0,
    {
        Hub {
            slots: Vec::new(),
            capacity,
            published: 0,
            next_id: 0,
            subscribers: HashMap::new(),
            history: Ghost(Seq::empty()),
        }
    }

    pub fn capacity(&self) -> (r: usize)
        ensures
            r == self@.capacity,
    {
        self.capacity
    }

    /// How many messages have been published so far.
    pub fn published(&self) -> (r: u64)
        requires
            self.wf(),
        ensures
            r == self@.published(),
    {
        self.published
    }

    pub fn is_subscribed(&self, id: u64) -> (r: bool)
        ensures
            r == self@.is_subscribed(id),
    {
        self.subscribers.contains_key(&id)
    }

    /// Hands `message` to every registered subscriber by writing it into the
    /// ring. Touches no subscriber: a stalled one costs nothing here.
    pub fn publish(&mut self, message: String)
        requires
            old(self).wf(),
            old(self)@.published() < u64::MAX,
        ensures
            final(self).wf(),
            final(self)@ == old(self)@.after_publish(message@),
            final(self)@.subscribers == old(self)@.subscribers,
            final(self)@.retained() <= final(self)@.capacity,
    {
        let ghost v0 = self@;
        let ghost m = message@;
        let cap = self.capacity as u64;
        let idx = (self.published % cap) as usize;
        if self.slots.len() < self.capacity {
            proof {
                vstd::arithmetic::div_mod::lemma_small_mod(self.published as nat, cap as nat);
            }
            self.slots.push(message);
        } else {
            self.slots.set(idx, message);
        }
        self.published = self.published + 1;
        self.history = Ghost(self.history@.push(m));
        proof {
            assert(self@ == v0.after_publish(m));
            assert forall|s: int| self@.oldest() <= s < self@.published() implies (
            #[trigger] self.slots@[s % (self.capacity as int)])@ == self.history@[s] by {
                if s < v0.published() {
                    if v0.published() < v0.capacity {
                        vstd::arithmetic::div_mod::lemma_small_mod(s as nat, cap as nat);
                        vstd::arithmetic::div_mod::lemma_small_mod(
                            v0.published(),
                            cap as nat,
                        );
                    } else {
                        lemma_distinct_slots(v0.published() as int, s, cap as int);
                    }
                }
            }
        }
    }
    /// Registers a new subscriber, which sees every message published from
    /// now on and none before. Gives `None` only once every id is taken.
    pub fn subscribe(&mut self) -> (r: Option<u64>)
        requires
            old(self).wf(),
        ensures
            final(self).wf(),
            old(self)@.next_id < u64::MAX ==> r == Some(old(self)@.next_id as u64)
                && final(self)@ == old(self)@.after_subscribe(),
            old(self)@.next_id == u64::MAX ==> r.is_none() && final(self)@ == old(self)@,
    {
        if self.next_id == u64::MAX {
            return None;
        }
        let id = self.next_id;
        let c = Cursor { joined: self.published, next: self.published };
        self.subscribers.insert(id, c);
        self.next_id = self.next_id + 1;
        proof {
            assert forall|k: u64| #[trigger] self@.subscribers.contains_key(k) implies {
                &&& k < self@.next_id
                &&& self@.subscribers[k].joined <= self@.subscribers[k].next
                &&& self@.subscribers[k].next <= self@.published()
            } by {
                if k != id {
                    assert(old(self)@.subscribers.contains_key(k));
                }
            }
        }
        Some(id)
    }

    /// Removes `id` from the registry; says whether it was registered.
    pub fn unsubscribe(&mut self, id: u64) -> (r: bool)
        requires
            old(self).wf(),
        ensures
            final(self).wf(),
            final(self)@ == old(self)@.after_unsubscribe(id),
            r == old(self)@.is_subscribed(id),
            !final(self)@.is_subscribed(id),
    {
        let r = self.subscribers.remove(&id);
        proof {
            assert(self@ =~= old(self)@.after_unsubscribe(id));
        }
        r.is_some()
    }

    /// The next message for subscriber `id`, in publish order; a subscriber
    /// that fell behind the ring learns how many it missed and moves on to
    /// the oldest message still kept.
    pub fn receive(&mut self, id: u64) -> (r: Received)
        requires
            old(self).wf(),
        ensures
            final(self).wf(),
            final(self)@ == old(self)@.after_receive(id),
            match old(self)@.delivery(id) {
                Delivery::Message(s) => r matches Received::Message(m)
                    && m@ == old(self)@.history[s as int],
                Delivery::Lagged(n) => r matches Received::Lagged(k) && k == n,
                Delivery::Empty => r is Empty,
                Delivery::Closed => r is Closed,
            },
    {
        let c = match self.subscribers.get(&id) {
            Some(c) => *c,
            None => {
                return Received::Closed;
            },
        };
        let cap = self.capacity as u64;
        let retained = if self.published < cap {
            self.published
        } else {
            cap
        };
        let oldest = self.published - retained;
        if c.next < oldest {
            self.subscribers.insert(id, Cursor { joined: c.joined, next: oldest });
            Received::Lagged(oldest - c.next)
        } else if c.next == self.published {
            Received::Empty
        } else {
            proof {
                if self.published < cap {
                    vstd::arithmetic::div_mod::lemma_small_mod(c.next as nat, cap as nat);
                }
                assert(self.slots@[c.next as int % (self.capacity as int)]@
                    == self.history@[c.next as int]);
            }
            let m = self.slots[(c.next % cap) as usize].clone();
            self.subscribers.insert(id, Cursor { joined: c.joined, next: c.next + 1 });
            Received::Message(m)
        }
    }
}

} // verus!
