//! The dispatcher.
//!
//! Decoded messages fan out to subscribers keyed by command kind. Each
//! subscriber is a bounded queue: when it is full, the oldest item is
//! dropped rather than blocking the reader. Per subscriber, messages keep
//! their arrival order: [`lemma_ordering_per_subscriber`] states the law
//! that a subscriber's queue is always a suffix of the published history.

use vstd::prelude::*;
use vstd::string::StrSliceExecFns;
use crate::irc::IrcMessage;
use crate::util::str_eq;

verus! {

/// One subscriber: a bounded, drop-oldest queue of the raw frames of one
/// command kind.
#[derive(Clone, Debug)]
pub struct Subscriber {
    kind: String,
    queue: Vec<String>,
    capacity: usize,
}

/// A bounded push: the message is appended, and when the queue is at
/// capacity the oldest item leaves.
pub open spec fn push_bounded(q: Seq<Seq<char>>, m: Seq<char>, cap: nat) -> Seq<Seq<char>> {
    if q.len() < cap {
        q.push(m)
    } else {
        q.skip(1).push(m)
    }
}

impl Subscriber {
    /// The command kind this subscriber receives.
    pub closed spec fn s_kind(self) -> Seq<char> {
        self.kind@
    }

    /// The queued frames, oldest first.
    pub closed spec fn s_queue(self) -> Seq<Seq<char>> {
        self.queue@.map_values(|x: String| x@)
    }

    /// The queue's bound.
    pub closed spec fn s_capacity(self) -> nat {
        self.capacity as nat
    }

    /// The queue never outgrows its bound, which admits at least one item.
    pub closed spec fn wf(self) -> bool {
        self.queue@.len() <= self.capacity && self.capacity >= 1
    }
}

/// Routes decoded messages to subscribers keyed by command kind.
#[derive(Clone, Debug)]
pub struct Dispatcher {
    subscribers: Vec<Subscriber>,
}

impl Dispatcher {
    /// The subscribers, in subscription order.
    pub closed spec fn s_subs(self) -> Seq<Subscriber> {
        self.subscribers@
    }

    /// Every subscriber's queue respects its bound.
    pub closed spec fn wf(self) -> bool {
        forall|i: int| 0 <= i < self.subscribers@.len() ==> (#[trigger] self.subscribers@[i]).wf()
    }

    /// A dispatcher with no subscribers.
    pub fn new() -> (r: Dispatcher)
        ensures
            r.wf(),
            r.s_subs().len() == 0,
    {
        Dispatcher { subscribers: Vec::new() }
    }

    /// Subscribe to the given command kind with a bounded queue; the result
    /// names the subscriber for [`Self::drain`].
    pub fn subscribe(&mut self, kind: &str, capacity: usize) -> (id: usize)
        requires
            old(self).wf(),
            capacity >= 1,
        ensures
            final(self).wf(),
            id == old(self).s_subs().len(),
            final(self).s_subs().len() == old(self).s_subs().len() + 1,
            forall|i: int|
                0 <= i < old(self).s_subs().len() ==> final(self).s_subs()[i] == old(
                    self,
                ).s_subs()[i],
            final(self).s_subs().last().s_kind() == kind@,
            final(self).s_subs().last().s_queue().len() == 0,
            final(self).s_subs().last().s_capacity() == capacity,
    {
        let id = self.subscribers.len();
        let sub = Subscriber { kind: kind.to_owned(), queue: Vec::new(), capacity };
        proof {
            assert(sub.s_queue() =~= Seq::<Seq<char>>::empty());
        }
        self.subscribers.push(sub);
        id
    }

    /// Publish a decoded message: its raw frame is appended to the queue of
    /// every subscriber of its command kind, dropping that queue's oldest
    /// item when it is full. Other subscribers are untouched, so per
    /// subscriber the arrival order is kept.
    pub fn publish(&mut self, msg: &IrcMessage)
        requires
            old(self).wf(),
            msg.wf(),
        ensures
            final(self).wf(),
            final(self).s_subs().len() == old(self).s_subs().len(),
            forall|i: int|
                0 <= i < old(self).s_subs().len() ==> {
                    let s0 = old(self).s_subs()[i];
                    let s1 = #[trigger] final(self).s_subs()[i];
                    &&& s1.s_kind() == s0.s_kind()
                    &&& s1.s_capacity() == s0.s_capacity()
                    &&& s1.s_queue() == (if s0.s_kind() == msg.s_command() {
                        push_bounded(s0.s_queue(), msg.s_raw(), s0.s_capacity())
                    } else {
                        s0.s_queue()
                    })
                },
    {
        let cmd_owned = msg.command().to_owned();
        let line = msg.raw().to_owned();
        let n = self.subscribers.len();
        let mut i: usize = 0;
        while i < n
            invariant
                old(self).wf(),
                msg.wf(),
                cmd_owned@ == msg.s_command(),
                line@ == msg.s_raw(),
                n == old(self).s_subs().len(),
                self.subscribers@.len() == n,
                0 <= i <= n,
                forall|x: int|
                    i <= x < n ==> #[trigger] self.subscribers@[x] == old(self).s_subs()[x],
                forall|x: int|
                    0 <= x < i ==> {
                        let s0 = old(self).s_subs()[x];
                        let s1 = #[trigger] self.subscribers@[x];
                        &&& s1.wf()
                        &&& s1.s_kind() == s0.s_kind()
                        &&& s1.s_capacity() == s0.s_capacity()
                        &&& s1.s_queue() == (if s0.s_kind() == msg.s_command() {
                            push_bounded(s0.s_queue(), msg.s_raw(), s0.s_capacity())
                        } else {
                            s0.s_queue()
                        })
                    },
            decreases n - i,
        {
            proof {
                assert(old(self).s_subs()[i as int].wf());
            }
            if str_eq(self.subscribers[i].kind.as_str(), cmd_owned.as_str()) {
                let ghost q0 = self.subscribers@[i as int].s_queue();
                let ghost cap = self.subscribers@[i as int].s_capacity();
                if self.subscribers[i].queue.len() >= self.subscribers[i].capacity {
                    let sub = &mut self.subscribers[i];
                    sub.queue.remove(0);
                    sub.queue.push(line.clone());
                    proof {
                        assert(self.subscribers@[i as int].s_queue() =~= q0.skip(1).push(
                            msg.s_raw(),
                        ));
                    }
                } else {
                    let sub = &mut self.subscribers[i];
                    sub.queue.push(line.clone());
                    proof {
                        assert(self.subscribers@[i as int].s_queue() =~= q0.push(msg.s_raw()));
                    }
                }
            }
            i = i + 1;
        }
    }

    /// Take every queued frame of one subscriber, oldest first.
    pub fn drain(&mut self, id: usize) -> (r: Vec<String>)
        requires
            old(self).wf(),
            id < old(self).s_subs().len(),
        ensures
            final(self).wf(),
            r@.map_values(|x: String| x@) == old(self).s_subs()[id as int].s_queue(),
            final(self).s_subs().len() == old(self).s_subs().len(),
            forall|i: int|
                0 <= i < old(self).s_subs().len() && i != id ==> #[trigger] final(self).s_subs()[i]
                    == old(self).s_subs()[i],
            final(self).s_subs()[id as int].s_kind() == old(self).s_subs()[id as int].s_kind(),
            final(self).s_subs()[id as int].s_capacity() == old(self).s_subs()[
                id as int
            ].s_capacity(),
            final(self).s_subs()[id as int].s_queue().len() == 0,
    {
        proof {
            assert(old(self).s_subs()[id as int].wf());
        }
        let sub = &mut self.subscribers[id];
        let mut taken: Vec<String> = Vec::new();
        core::mem::swap(&mut taken, &mut sub.queue);
        proof {
            assert(self.subscribers@[id as int].s_queue() =~= Seq::<Seq<char>>::empty());
        }
        taken
    }

    /// Drop every subscriber.
    pub fn clear(&mut self)
        ensures
            final(self).wf(),
            final(self).s_subs().len() == 0,
    {
        self.subscribers.clear();
    }

    /// The number of subscribers.
    pub fn len(&self) -> (r: usize)
        ensures
            r == self.s_subs().len(),
    {
        self.subscribers.len()
    }
}

/// Law: ordering per subscriber. After two messages are pushed in order,
/// the queue is a suffix of the history `queue + [m1] + [m2]`: whatever the
/// bound drops, a subscriber never observes `m2` before `m1`.
pub proof fn lemma_ordering_per_subscriber(
    q: Seq<Seq<char>>,
    m1: Seq<char>,
    m2: Seq<char>,
    cap: nat,
)
    requires
        cap >= 1,
        q.len() <= cap,
    ensures
        ({
            let h = q + seq![m1] + seq![m2];
            let q2 = push_bounded(push_bounded(q, m1, cap), m2, cap);
            q2 == h.skip(h.len() - q2.len())
        }),
{
    let h = q + seq![m1] + seq![m2];
    let q1 = push_bounded(q, m1, cap);
    let q2 = push_bounded(q1, m2, cap);
    if q.len() < cap {
        assert(q1 =~= q.push(m1));
        if q1.len() < cap {
            assert(q2 =~= h);
            assert(q2 =~= h.skip(0));
        } else {
            assert(q2 =~= q.push(m1).skip(1).push(m2));
            assert(q2 =~= h.skip(1));
        }
    } else {
        assert(q1 =~= q.skip(1).push(m1));
        assert(q1.len() == q.len());
        assert(q2 =~= q1.skip(1).push(m2));
        assert(q2 =~= h.skip(2));
    }
}

} // verus!
