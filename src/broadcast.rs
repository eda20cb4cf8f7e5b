//! Fan-out of messages to independent subscribers through a bounded buffer.
//!
//! One producer publishes; each subscriber holds a cursor into the sequence of
//! everything published. A subscriber sees the messages published after it
//! subscribed, in order. The buffer keeps only the last `capacity` messages:
//! a subscriber that fell further behind is told how many it missed, on its
//! next receive, and then resumes at the oldest message kept. Publishing never
//! waits for a subscriber.
use vstd::prelude::*;
use crate::message::{Message, MessageModel};

verus! {

/// A subscriber's handle: its index among the subscribers.
#[derive(Debug, Clone, Copy, PartialEq, Eq, Structural)]
pub struct Subscription {
    pub index: usize,
}

/// What one receive hands to a subscriber.
#[derive(Debug)]
pub enum Received {
    /// The next message, in publication order.
    Message(Message),
    /// This many messages were dropped before the subscriber read them.
    Lagged(u64),
    /// Nothing new yet.
    Empty,
    /// The producer has stopped and everything published was read.
    Closed,
}

pub enum ReceivedModel {
    Message(MessageModel),
    Lagged(nat),
    Empty,
    Closed,
}

impl View for Received {
    type V = ReceivedModel;

    open spec fn view(&self) -> ReceivedModel {
        match self {
            Received::Message(m) => ReceivedModel::Message(m@),
            Received::Lagged(n) => ReceivedModel::Lagged(*n as nat),
            Received::Empty => ReceivedModel::Empty,
            Received::Closed => ReceivedModel::Closed,
        }
    }
}

/// The state of a broadcaster: everything ever published, the position of the
/// oldest message still kept, the bound on how many are kept, each
/// subscriber's next position, and whether the producer is still there.
pub struct BroadcastModel {
    pub log: Seq<MessageModel>,
    pub start: nat,
    pub capacity: nat,
    pub cursors: Seq<nat>,
    pub open: bool,
}

impl BroadcastModel {
    pub open spec fn wf(self) -> bool {
        &&& self.capacity > 0
        &&& self.start <= self.log.len()
        &&& self.log.len() - self.start <= self.capacity
        &&& forall|i: int| 0 <= i < self.cursors.len() ==> #[trigger] self.cursors[i] <= self.log.len()
    }

    /// Appends a message, dropping the oldest kept one when the buffer is full.
    pub open spec fn publish(self, m: MessageModel) -> BroadcastModel {
        let log = self.log.push(m);
        BroadcastModel {
            log,
            start: if log.len() - self.start > self.capacity {
                self.start + 1
            } else {
                self.start
            },
            ..self
        }
    }

    /// Adds a subscriber positioned after everything published so far.
    pub open spec fn subscribe(self) -> BroadcastModel {
        BroadcastModel { cursors: self.cursors.push(self.log.len()), ..self }
    }

    /// One receive by subscriber `i`: the new state and what it gets.
    pub open spec fn recv(self, i: int) -> (BroadcastModel, ReceivedModel) {
        let c = self.cursors[i];
        if c < self.start {
            (
                BroadcastModel { cursors: self.cursors.update(i, self.start), ..self },
                ReceivedModel::Lagged((self.start - c) as nat),
            )
        } else if c < self.log.len() {
            (
                BroadcastModel { cursors: self.cursors.update(i, (c + 1) as nat), ..self },
                ReceivedModel::Message(self.log[c as int]),
            )
        } else if !self.open {
            (self, ReceivedModel::Closed)
        } else {
            (self, ReceivedModel::Empty)
        }
    }

    pub open spec fn close(self) -> BroadcastModel {
        BroadcastModel { open: false, ..self }
    }
}

/// The broadcaster: the kept messages, the position of the oldest one, the
/// bound, each subscriber's next position, and whether the producer is there.
pub struct Broadcaster {
    buffer: Vec<Message>,
    start: u64,
    capacity: u64,
    cursors: Vec<u64>,
    open: bool,
    log: Ghost<Seq<MessageModel>>,
}

impl View for Broadcaster {
    type V = BroadcastModel;

    closed spec fn view(&self) -> BroadcastModel {
        BroadcastModel {
            log: self.log@,
            start: self.start as nat,
            capacity: self.capacity as nat,
            cursors: self.cursors@.map_values(|c: u64| c as nat),
            open: self.open,
        }
    }
}

impl Broadcaster {
    pub closed spec fn wf(&self) -> bool {
        &&& self@.wf()
        &&& self.log@.len() <= u64::MAX
        &&& self.buffer@.len() == self.log@.len() - self.start
        &&& forall|j: int|
            0 <= j < self.buffer@.len() ==> #[trigger] self.buffer@[j]@ == self.log@[self.start + j]
    }

    /// A broadcaster that keeps up to `capacity` messages, with no subscriber.
    pub fn new(capacity: u64) -> (r: Broadcaster)
        requires
            capacity > 0,
        ensures
            r.wf(),
            r@ == (BroadcastModel {
                log: Seq::empty(),
                start: 0,
                capacity: capacity as nat,
                cursors: Seq::empty(),
                open: true,
            }),
    {
        let r = Broadcaster {
            buffer: Vec::new(),
            start: 0,
            capacity,
            cursors: Vec::new(),
            open: true,
            log: Ghost(Seq::empty()),
        };
        assert(r@.cursors =~= Seq::<nat>::empty());
        r
    }

    pub proof fn lemma_wf(&self)
        requires
            self.wf(),
        ensures
            self@.wf(),
            self@.log.len() <= u64::MAX,
    {
    }

    /// How many messages were published so far.
    pub fn published_count(&self) -> (r: u64)
        requires
            self.wf(),
        ensures
            r == self@.log.len(),
    {
        self.start + self.buffer.len() as u64
    }

    /// How many subscribers there are.
    pub fn subscriber_count(&self) -> (r: usize)
        ensures
            r == self@.cursors.len(),
    {
        self.cursors.len()
    }

    /// Whether the producer is still there.
    pub fn is_open(&self) -> (r: bool)
        ensures
            r == self@.open,
    {
        self.open
    }

    /// A new subscriber, which will see the messages published from now on.
    pub fn subscribe(&mut self) -> (r: Subscription)
        requires
            old(self).wf(),
        ensures
            final(self).wf(),
            final(self)@ == old(self)@.subscribe(),
            r.index == old(self)@.cursors.len(),
    {
        let index = self.cursors.len();
        let next = self.start + self.buffer.len() as u64;
        self.cursors.push(next);
        assert(self@.cursors =~= old(self)@.cursors.push(old(self)@.log.len()));
        Subscription { index }
    }

    /// Publishes a message to every subscriber, without waiting for any of
    /// them; returns how many subscribers there are to see it.
    pub fn publish(&mut self, msg: Message) -> (r: usize)
        requires
            old(self).wf(),
            old(self)@.log.len() < u64::MAX,
        ensures
            final(self).wf(),
            final(self)@ == old(self)@.publish(msg@),
            r == old(self)@.cursors.len(),
    {
        let ghost m = msg@;
        if self.buffer.len() as u64 == self.capacity {
            self.buffer.remove(0);
            self.start = self.start + 1;
        }
        self.buffer.push(msg);
        self.log = Ghost(self.log@.push(m));
        assert(self@.cursors =~= old(self)@.cursors);
        assert(forall|j: int|
            0 <= j < self.buffer@.len() ==> #[trigger] self.buffer@[j]@ == self.log@[self.start + j]);
        self.cursors.len()
    }

    /// The next thing that subscriber `sub` receives.
    pub fn recv(&mut self, sub: Subscription) -> (r: Received)
        requires
            old(self).wf(),
            sub.index < old(self)@.cursors.len(),
        ensures
            final(self).wf(),
            (final(self)@, r@) == old(self)@.recv(sub.index as int),
    {
        let i = sub.index;
        let c = self.cursors[i];
        if c < self.start {
            let lag = self.start - c;
            let start = self.start;
            self.cursors.set(i, start);
            assert(self@.cursors =~= old(self)@.cursors.update(i as int, old(self)@.start));
            Received::Lagged(lag)
        } else if c - self.start < self.buffer.len() as u64 {
            let m = self.buffer[(c - self.start) as usize].copy();
            self.cursors.set(i, c + 1);
            assert(self@.cursors =~= old(self)@.cursors.update(i as int, (c + 1) as nat));
            Received::Message(m)
        } else if !self.open {
            Received::Closed
        } else {
            Received::Empty
        }
    }

    /// The producer stops: once a subscriber has read what is left, it
    /// receives `Closed`.
    pub fn close(&mut self)
        requires
            old(self).wf(),
        ensures
            final(self).wf(),
            final(self)@ == old(self)@.close(),
    {
        self.open = false;
    }
}

/// Publishes each message of `msgs` in turn.
pub open spec fn publish_all(s: BroadcastModel, msgs: Seq<MessageModel>) -> BroadcastModel
    decreases msgs.len(),
{
    if msgs.len() == 0 {
        s
    } else {
        publish_all(s, msgs.drop_last()).publish(msgs.last())
    }
}

/// `n` receives in a row by subscriber `i`: the final state and what each gave.
pub open spec fn drain(s: BroadcastModel, i: int, n: nat) -> (BroadcastModel, Seq<ReceivedModel>)
    decreases n,
{
    if n == 0 {
        (s, Seq::empty())
    } else {
        let (s1, first) = s.recv(i);
        let (s2, rest) = drain(s1, i, (n - 1) as nat);
        (s2, seq![first] + rest)
    }
}

pub open spec fn as_received(msgs: Seq<MessageModel>) -> Seq<ReceivedModel> {
    msgs.map_values(|m: MessageModel| ReceivedModel::Message(m))
}

proof fn lemma_publish_all(s: BroadcastModel, msgs: Seq<MessageModel>)
    requires
        s.wf(),
    ensures
        publish_all(s, msgs).wf(),
        publish_all(s, msgs).log == s.log + msgs,
        publish_all(s, msgs).cursors == s.cursors,
        publish_all(s, msgs).capacity == s.capacity,
        publish_all(s, msgs).open == s.open,
        publish_all(s, msgs).start == s.start || publish_all(s, msgs).log.len()
            - publish_all(s, msgs).start == s.capacity,
    decreases msgs.len(),
{
    if msgs.len() > 0 {
        lemma_publish_all(s, msgs.drop_last());
        assert(s.log + msgs.drop_last() + seq![msgs.last()] =~= s.log + msgs);
    } else {
        assert(s.log + msgs =~= s.log);
    }
}

proof fn lemma_drain(s: BroadcastModel, i: int, n: nat)
    requires
        s.wf(),
        0 <= i < s.cursors.len(),
        s.start <= s.cursors[i],
        s.cursors[i] + n <= s.log.len(),
    ensures
        drain(s, i, n).1 =~= as_received(s.log.subrange(s.cursors[i] as int, (s.cursors[i] + n) as int)),
        drain(s, i, n).0 == (BroadcastModel { cursors: s.cursors.update(i, (s.cursors[i] + n) as nat), ..s }),
    decreases n,
{
    if n == 0 {
        assert(s.cursors.update(i, (s.cursors[i] + 0) as nat) =~= s.cursors);
    } else {
        let s1 = s.recv(i).0;
        assert(s1.wf());
        lemma_drain(s1, i, (n - 1) as nat);
        assert(s1.cursors.update(i, (s1.cursors[i] + (n - 1)) as nat) =~= s.cursors.update(i, (s.cursors[i] + n) as nat));
    }
}

/// A subscriber that has read everything published so far receives, after
/// any messages are published (no more than the buffer keeps), exactly those
/// messages in publication order; and another subscriber in the same
/// position receives the same messages afterwards: subscribers do not
/// take messages from each other.
pub proof fn lemma_caught_up_subscribers_see_the_same(
    s: BroadcastModel,
    a: int,
    b: int,
    msgs: Seq<MessageModel>,
)
    requires
        s.wf(),
        0 <= a < s.cursors.len(),
        0 <= b < s.cursors.len(),
        a != b,
        s.cursors[a] == s.log.len(),
        s.cursors[b] == s.log.len(),
        msgs.len() <= s.capacity,
    ensures
        drain(publish_all(s, msgs), a, msgs.len()).1 == as_received(msgs),
        drain(drain(publish_all(s, msgs), a, msgs.len()).0, b, msgs.len()).1 == as_received(msgs),
{
    let p = publish_all(s, msgs);
    lemma_publish_all(s, msgs);
    assert(p.log.subrange(s.log.len() as int, (s.log.len() + msgs.len()) as int) =~= msgs);
    lemma_drain(p, a, msgs.len());
    let q = drain(p, a, msgs.len()).0;
    assert(q.wf());
    lemma_drain(q, b, msgs.len());
}

/// A new subscriber sees no message published before it subscribed: it
/// receives exactly the messages published afterwards, in order, as long as
/// the buffer keeps them.
pub proof fn lemma_subscriber_sees_only_later(s: BroadcastModel, msgs: Seq<MessageModel>)
    requires
        s.wf(),
        msgs.len() <= s.capacity,
    ensures
        drain(publish_all(s.subscribe(), msgs), s.cursors.len() as int, msgs.len()).1
            == as_received(msgs),
{
    let t = s.subscribe();
    let p = publish_all(t, msgs);
    let i = s.cursors.len() as int;
    lemma_publish_all(t, msgs);
    assert(p.log.subrange(s.log.len() as int, (s.log.len() + msgs.len()) as int) =~= msgs);
    lemma_drain(p, i, msgs.len());
}

} // verus!
