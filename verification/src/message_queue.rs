//! The queue of received events, waiting for the next tick.
//!
//! Each received event is numbered one past the latest queued number, so the queue holds
//! its events in arrival order. Two queued messages are the same message when they carry
//! the same event from the same address, and a message is refused when it is the same as
//! one already queued, or carries a number already taken: the queue holds each message once.
//!
//! The queue is a `Vec` kept sorted by number rather than a `BTreeSet`. vstd specifies
//! `BTreeSet` only for element types whose ordering is known to obey the laws of a total
//! order, and a message's ordering is not total: two messages numbered alike but carrying
//! other events are neither the same message nor ordered apart. vstd also gives
//! `BTreeSet::last` and `pop_first` no specification. A map keyed by the number alone would
//! lose the rule that the same message is held only once.

use vstd::prelude::*;

use std::cmp::Ordering;

use crate::address::SocketAddress;
use crate::ieee754::float_eq;
use crate::input_messages::game_event::Event;
use crate::input_messages::{same_game_event, GameEvent, Move};

verus! {

/// A received event, numbered in arrival order, with the address it came from.
#[derive(Clone, Debug)]
pub struct QueuedMessage {
    pub order: i32,
    pub data: GameEvent,
    pub addr: SocketAddress,
}

/// Two messages are the same message: the same event from the same address.
pub open spec fn same_message(a: QueuedMessage, b: QueuedMessage) -> bool {
    same_game_event(a.data, b.data) && a.addr == b.addr
}

/// How two arrival numbers compare.
pub open spec fn compare_orders(a: i32, b: i32) -> Ordering {
    if a < b {
        Ordering::Less
    } else if a == b {
        Ordering::Equal
    } else {
        Ordering::Greater
    }
}

/// How two messages compare: equal when they are the same message, otherwise by number.
pub open spec fn compare_messages(a: QueuedMessage, b: QueuedMessage) -> Ordering {
    if same_message(a, b) {
        Ordering::Equal
    } else {
        compare_orders(a.order, b.order)
    }
}

impl QueuedMessage {
    /// The two messages are the same message.
    pub fn eq(&self, other: &QueuedMessage) -> (r: bool)
        ensures
            r == same_message(*self, *other),
    {
        self.data.is_same(&other.data) && self.addr == other.addr
    }

    /// This message arrived before `other`.
    pub fn lt(&self, other: &QueuedMessage) -> (r: bool)
        ensures
            r == (self.order < other.order),
    {
        self.order < other.order
    }

    /// This message arrived no later than `other`.
    pub fn le(&self, other: &QueuedMessage) -> (r: bool)
        ensures
            r == (self.order <= other.order),
    {
        self.order <= other.order
    }

    /// This message arrived after `other`.
    pub fn gt(&self, other: &QueuedMessage) -> (r: bool)
        ensures
            r == (self.order > other.order),
    {
        self.order > other.order
    }

    /// This message arrived no earlier than `other`.
    pub fn ge(&self, other: &QueuedMessage) -> (r: bool)
        ensures
            r == (self.order >= other.order),
    {
        self.order >= other.order
    }

    /// The two messages compared by their numbers alone.
    pub fn partial_cmp(&self, other: &QueuedMessage) -> (r: Option<Ordering>)
        ensures
            r == Some(compare_orders(self.order, other.order)),
    {
        if self.order < other.order {
            Some(Ordering::Less)
        } else if self.order == other.order {
            Some(Ordering::Equal)
        } else {
            Some(Ordering::Greater)
        }
    }

    /// The two messages compared: equal when they are the same message, otherwise by number.
    pub fn cmp(&self, other: &QueuedMessage) -> (r: Ordering)
        ensures
            r == compare_messages(*self, *other),
    {
        if self.eq(other) {
            return Ordering::Equal;
        }
        match self.partial_cmp(other) {
            Some(o) => o,
            None => Ordering::Equal,
        }
    }
}

/// The numbers of `s` increase strictly from front to back.
pub open spec fn sorted_by_order(s: Seq<QueuedMessage>) -> bool {
    forall|i: int, j: int| #![trigger s[i], s[j]] 0 <= i < j < s.len() ==> s[i].order < s[j].order
}

/// No two messages of `s` are the same message.
pub open spec fn no_repeated_message(s: Seq<QueuedMessage>) -> bool {
    forall|i: int, j: int|
        #![trigger s[i], s[j]]
        0 <= i < s.len() && 0 <= j < s.len() && i != j ==> !same_message(s[i], s[j])
}

/// `m` clashes with a message of `s`: it is the same message, or carries the same number.
pub open spec fn clashes(s: Seq<QueuedMessage>, m: QueuedMessage) -> bool {
    exists|i: int| #![trigger s[i]] 0 <= i < s.len() && (s[i].order == m.order || same_message(s[i], m))
}

/// `k` is where a message numbered `order` goes: after every message numbered no higher,
/// before the first message numbered higher.
pub open spec fn is_insert_index(s: Seq<QueuedMessage>, order: i32, k: int) -> bool {
    &&& 0 <= k <= s.len()
    &&& forall|j: int| #![trigger s[j]] 0 <= j < k ==> s[j].order <= order
    &&& k < s.len() ==> s[k].order > order
}

/// The number of the latest message of `s`, or 0 when `s` is empty.
pub open spec fn latest_order(s: Seq<QueuedMessage>) -> i32 {
    if s.len() == 0 {
        0
    } else {
        s.last().order
    }
}

/// The received events, oldest first.
pub struct MessageQueue {
    items: Vec<QueuedMessage>,
}

impl MessageQueue {
    /// The queued messages, front first.
    pub closed spec fn messages(&self) -> Seq<QueuedMessage> {
        self.items@
    }

    /// The queue is in arrival order and holds each message once; every queue is.
    #[verifier::type_invariant]
    pub open spec fn wf(&self) -> bool {
        sorted_by_order(self.messages()) && no_repeated_message(self.messages())
    }

    /// An empty queue.
    pub fn new() -> (r: MessageQueue)
        ensures
            r.messages() == Seq::<QueuedMessage>::empty(),
    {
        MessageQueue { items: Vec::new() }
    }

    /// The number of queued messages.
    pub fn len(&self) -> (r: usize)
        ensures
            r == self.messages().len(),
    {
        self.items.len()
    }

    /// Whether the queue is empty.
    pub fn is_empty(&self) -> (r: bool)
        ensures
            r == (self.messages().len() == 0),
    {
        self.items.len() == 0
    }

    /// The queued messages, front first.
    pub fn messages_vec(&self) -> (r: &Vec<QueuedMessage>)
        ensures
            r@ == self.messages(),
    {
        &self.items
    }

    /// The message at the back of the queue, the latest one.
    pub fn last(&self) -> (r: Option<&QueuedMessage>)
        ensures
            self.messages().len() == 0 ==> r is None,
            self.messages().len() > 0 ==> r == Some(&self.messages().last()),
    {
        if self.items.len() == 0 {
            None
        } else {
            Some(&self.items[self.items.len() - 1])
        }
    }

    /// The number of the latest queued message, or 0 when the queue is empty.
    pub fn peek_latest_order(&self) -> (r: i32)
        ensures
            r == latest_order(self.messages()),
    {
        if let Some(item) = self.last() {
            return item.order;
        }
        0
    }

    /// Queues `m` at its place by number, unless it clashes with a queued message.
    /// Returns whether `m` was queued.
    pub fn insert(&mut self, m: QueuedMessage) -> (r: bool)
        ensures
            r == !clashes(old(self).messages(), m),
            r ==> exists|k: int|
                is_insert_index(old(self).messages(), m.order, k) && final(self).messages()
                    == old(self).messages().insert(k, m),
            !r ==> final(self).messages() == old(self).messages(),
    {
        proof {
            use_type_invariant(&*self);
        }
        let ghost s = self.items@;
        let mut i: usize = 0;
        while i < self.items.len()
            invariant
                s == self.items@,
                0 <= i <= s.len(),
                forall|j: int|
                    #![trigger s[j]]
                    0 <= j < i ==> !(s[j].order == m.order || same_message(s[j], m)),
            decreases s.len() - i,
        {
            if self.items[i].order == m.order || self.items[i].eq(&m) {
                return false;
            }
            i = i + 1;
        }
        let mut k: usize = 0;
        while k < self.items.len() && self.items[k].order <= m.order
            invariant
                s == self.items@,
                0 <= k <= s.len(),
                forall|j: int| #![trigger s[j]] 0 <= j < k ==> s[j].order <= m.order,
            decreases s.len() - k,
        {
            k = k + 1;
        }
        let mut items: Vec<QueuedMessage> = Vec::new();
        std::mem::swap(&mut items, &mut self.items);
        items.insert(k, m);
        proof {
            assert(is_insert_index(s, m.order, k as int));
            let t = items@;
            if sorted_by_order(s) && no_repeated_message(s) {
                assert forall|a: int, b: int| #![trigger t[a], t[b]] 0 <= a < b < t.len() implies t[a].order
                    < t[b].order by {
                    if a < k && b < k {
                        assert(t[a] == s[a] && t[b] == s[b]);
                    } else if a < k && b == k {
                        assert(t[a] == s[a]);
                        assert(s[a].order != m.order);
                    } else if a < k {
                        assert(t[a] == s[a] && t[b] == s[b - 1]);
                    } else if a == k {
                        assert(t[b] == s[b - 1]);
                        assert(s[k as int].order > m.order);
                        assert(s[k as int].order <= s[b - 1].order);
                    } else {
                        assert(t[a] == s[a - 1] && t[b] == s[b - 1]);
                    }
                }
                assert forall|a: int, b: int|
                    #![trigger t[a], t[b]]
                    0 <= a < t.len() && 0 <= b < t.len() && a != b implies !same_message(
                    t[a],
                    t[b],
                ) by {
                    let sa = if a < k { a } else { a - 1 };
                    let sb = if b < k { b } else { b - 1 };
                    if a == k {
                        assert(t[b] == s[sb]);
                        assert(!same_message(s[sb], m));
                        crate::input_messages::lemma_same_game_event_symmetric(s[sb].data, m.data);
                    } else if b == k {
                        assert(t[a] == s[sa]);
                        assert(!same_message(s[sa], m));
                    } else {
                        assert(t[a] == s[sa] && t[b] == s[sb]);
                    }
                }
            }
        }
        self.items = items;
        true
    }

    /// Queues `data`, received from `addr`, numbered one past the latest queued number.
    /// Returns whether it was queued: it is refused exactly when the same event from the same
    /// address is already queued, and otherwise goes to the back.
    pub fn push_next(&mut self, data: GameEvent, addr: SocketAddress) -> (r: bool)
        requires
            latest_order(old(self).messages()) < i32::MAX,
        ensures
            ({
                let m = QueuedMessage {
                    order: (latest_order(old(self).messages()) + 1) as i32,
                    data,
                    addr,
                };
                &&& r == !clashes(old(self).messages(), m)
                &&& !r ==> final(self).messages() == old(self).messages()
                &&& r <==> !exists|i: int|
                    #![trigger old(self).messages()[i]]
                    0 <= i < old(self).messages().len() && same_message(
                        old(self).messages()[i],
                        m,
                    )
                &&& r ==> final(self).messages() == old(self).messages().push(m)
            }),
    {
        proof {
            use_type_invariant(&*self);
        }
        let last_order = self.peek_latest_order();
        let m = QueuedMessage { order: last_order + 1, data, addr };
        let ghost s = self.items@;
        let r = self.insert(m);
        proof {
            if sorted_by_order(s) && no_repeated_message(s) {
                assert forall|i: int| #![trigger s[i]] 0 <= i < s.len() implies s[i].order
                    < m.order by {
                    if i < s.len() - 1 {
                        assert(s[i].order < s[s.len() - 1].order);
                    }
                }
                if r {
                    let k = choose|k: int|
                        is_insert_index(s, m.order, k) && self.items@ == s.insert(k, m);
                    if k < s.len() {
                        assert(s[k].order > m.order);
                    }
                    assert(s.insert(s.len() as int, m) == s.push(m));
                }
            }
        }
        r
    }

    /// Takes the earliest message out of the queue.
    pub fn pop_first(&mut self) -> (r: Option<QueuedMessage>)
        ensures
            old(self).messages().len() == 0 ==> r is None && final(self).messages()
                == old(self).messages(),
            old(self).messages().len() > 0 ==> r == Some(old(self).messages()[0])
                && final(self).messages() == old(self).messages().drop_first(),
    {
        if self.items.len() == 0 {
            None
        } else {
            proof {
                use_type_invariant(&*self);
            }
            let ghost s = self.items@;
            let mut items: Vec<QueuedMessage> = Vec::new();
            std::mem::swap(&mut items, &mut self.items);
            let m = items.remove(0);
            assert(items@ == s.drop_first());
            assert(sorted_by_order(items@) && no_repeated_message(items@)) by {
                assert forall|a: int, b: int| 0 <= a < items@.len() && 0 <= b < items@.len() implies #[trigger] items@[a]
                    == s[a + 1] && #[trigger] items@[b] == s[b + 1] by {}
            }
            self.items = items;
            Some(m)
        }
    }

    /// Takes every queued message out, leaving the queue empty.
    pub fn flush(&mut self) -> (r: MessageQueue)
        ensures
            r.messages() == old(self).messages(),
            final(self).messages() == Seq::<QueuedMessage>::empty(),
    {
        proof {
            use_type_invariant(&*self);
        }
        let mut taken: Vec<QueuedMessage> = Vec::new();
        std::mem::swap(&mut taken, &mut self.items);
        MessageQueue { items: taken }
    }

    /// Empties the queue.
    pub fn clear(&mut self)
        ensures
            final(self).messages() == Seq::<QueuedMessage>::empty(),
    {
        let mut items: Vec<QueuedMessage> = Vec::new();
        std::mem::swap(&mut items, &mut self.items);
    }
}

/// Being the same message is symmetric.
pub proof fn lemma_same_message_symmetric(a: QueuedMessage, b: QueuedMessage)
    ensures
        same_message(a, b) == same_message(b, a),
{
    crate::input_messages::lemma_same_game_event_symmetric(a.data, b.data);
}

/// Comparing messages is antisymmetric: `a` comes before `b` exactly when `b` comes
/// after `a`, and they compare equal both ways or neither.
pub proof fn lemma_compare_antisymmetric(a: QueuedMessage, b: QueuedMessage)
    ensures
        (compare_messages(a, b) == Ordering::Less) == (compare_messages(b, a) == Ordering::Greater),
        (compare_messages(a, b) == Ordering::Equal) == (compare_messages(b, a) == Ordering::Equal),
{
    lemma_same_message_symmetric(a, b);
}

/// In a well-formed queue the front message is the earliest and the back message the latest.
pub proof fn lemma_front_is_earliest(q: MessageQueue)
    requires
        q.wf(),
        q.messages().len() > 0,
    ensures
        forall|i: int|
            #![trigger q.messages()[i]]
            0 <= i < q.messages().len() ==> q.messages()[0].order <= q.messages()[i].order
                && q.messages()[i].order <= latest_order(q.messages()),
{
    let s = q.messages();
    assert forall|i: int| #![trigger s[i]] 0 <= i < s.len() implies s[0].order <= s[i].order
        && s[i].order <= latest_order(s) by {
        if 0 < i {
            assert(s[0].order < s[i].order);
        }
        if i < s.len() - 1 {
            assert(s[i].order < s[s.len() - 1].order);
        }
    }
}

/// First in, first out: once a message has gone to the back of a queue (as `push_next`
/// puts an accepted message), the queue's front is what it was, or that message when the
/// queue was empty, and taking the front leaves the rest in order with that message last.
pub proof fn lemma_first_in_first_out(before: MessageQueue, after: MessageQueue, m: QueuedMessage)
    requires
        after.messages() == before.messages().push(m),
    ensures
        before.messages().len() > 0 ==> after.messages()[0] == before.messages()[0]
            && after.messages().drop_first() == before.messages().drop_first().push(m),
        before.messages().len() == 0 ==> after.messages()[0] == m && after.messages().drop_first()
            == before.messages(),
{
    let s = before.messages();
    if s.len() > 0 {
        assert(s.push(m).drop_first() == s.drop_first().push(m));
    } else {
        assert(s.push(m).drop_first() == s);
    }
}

/// A movement numbered past every queued message is refused only for a repeat: when each
/// queued message from its address is no movement, or a movement whose x or y distance
/// differs from it as an `f64`, it clashes with nothing, and `push_next` queues it.
pub proof fn lemma_differing_move_is_queued(s: Seq<QueuedMessage>, m: QueuedMessage, mv: Move)
    requires
        m.data.event == Some(Event::Move(mv)),
        forall|i: int| #![trigger s[i]] 0 <= i < s.len() ==> s[i].order < m.order,
        forall|i: int|
            #![trigger s[i]]
            0 <= i < s.len() && s[i].addr == m.addr ==> match s[i].data.event {
                Some(Event::Move(p)) => !float_eq(p.distance_x, mv.distance_x) || !float_eq(
                    p.distance_y,
                    mv.distance_y,
                ),
                _ => true,
            },
    ensures
        !clashes(s, m),
{
    assert forall|i: int| #![trigger s[i]] 0 <= i < s.len() implies !(s[i].order == m.order
        || same_message(s[i], m)) by {
        if s[i].addr == m.addr && same_game_event(s[i].data, m.data) {
            let e = s[i].data.event->0;
            crate::input_messages::lemma_same_event_agrees_on_every_field(e, Event::Move(mv));
        }
    }
}

} // verus!
