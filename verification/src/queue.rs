//! The message queue: a bounded, ordered buffer of observed lines.
//!
//! Connection handlers push every received line with a non-blocking,
//! lossy push — a full queue drops the line rather than stall the echo —
//! and the server handle drains it in arrival order.

use vstd::prelude::*;

verus! {

/// Capacity a server's queue is created with unless configured otherwise.
pub const DEFAULT_QUEUE_CAPACITY: usize = 32;

/// What one lossy bounded push leaves in a queue holding `s` with room
/// for `cap`: the message is appended while there is room and dropped
/// otherwise.
pub open spec fn push_effect(s: Seq<Seq<char>>, cap: nat, m: Seq<char>) -> Seq<Seq<char>> {
    if s.len() < cap {
        s.push(m)
    } else {
        s
    }
}

/// `push_effect` folded over a whole sequence of messages, first to last.
pub open spec fn push_all_effect(s: Seq<Seq<char>>, cap: nat, ms: Seq<Seq<char>>) -> Seq<
    Seq<char>,
>
    decreases ms.len(),
{
    if ms.len() == 0 {
        s
    } else {
        push_all_effect(push_effect(s, cap, ms[0]), cap, ms.drop_first())
    }
}

/// Bounded multi-producer queue of received lines, drained in FIFO order.
pub struct MessageQueue {
    items: Vec<String>,
    capacity: usize,
}

impl View for MessageQueue {
    type V = Seq<Seq<char>>;

    closed spec fn view(&self) -> Seq<Seq<char>> {
        self.items@.map_values(|m: String| m@)
    }
}

impl MessageQueue {
    /// The bound the queue was created with.
    pub closed spec fn cap(&self) -> nat {
        self.capacity as nat
    }

    /// The queue never holds more than its bound.
    pub closed spec fn wf(&self) -> bool {
        self@.len() <= self.cap()
    }

    /// An empty queue that will hold at most `capacity` lines.
    pub fn new(capacity: usize) -> (q: MessageQueue)
        ensures
            q@ == Seq::<Seq<char>>::empty(),
            q.cap() == capacity,
            q.wf(),
    {
        MessageQueue { items: Vec::new(), capacity }
    }

    /// How many lines are waiting.
    pub fn len(&self) -> (n: usize)
        ensures
            n == self@.len(),
    {
        self.items.len()
    }

    /// Non-blocking push: appends `msg` when there is room, drops it
    /// otherwise, and reports whether it was accepted. Never fails and
    /// never blocks — a full queue degrades to lossy observation.
    pub fn try_push(&mut self, msg: String) -> (accepted: bool)
        requires
            old(self).wf(),
        ensures
            final(self).wf(),
            final(self).cap() == old(self).cap(),
            final(self)@ == push_effect(old(self)@, old(self).cap(), msg@),
            accepted == (old(self)@.len() < old(self).cap()),
    {
        if self.items.len() < self.capacity {
            self.items.push(msg);
            proof {
                assert(self@ =~= push_effect(old(self)@, old(self).cap(), msg@));
            }
            true
        } else {
            false
        }
    }

    /// Removes and returns the line that has waited longest, or `None`
    /// on an empty queue.
    pub fn pop(&mut self) -> (r: Option<String>)
        requires
            old(self).wf(),
        ensures
            final(self).wf(),
            final(self).cap() == old(self).cap(),
            old(self)@.len() == 0 ==> r is None && final(self)@ == old(self)@,
            old(self)@.len() > 0 ==> r is Some && r->Some_0@ == old(self)@[0] && final(self)@
                == old(self)@.drop_first(),
    {
        if self.items.len() == 0 {
            None
        } else {
            let m = self.items.remove(0);
            proof {
                assert(self@ =~= old(self)@.drop_first());
            }
            Some(m)
        }
    }
}

/// Arrival order is preserved: as long as the queue has room for every
/// push, a run of pushes appends the messages unchanged, so successive
/// pops hand them back first to last — the order the queue received
/// them in.
pub proof fn lemma_queue_fifo(s: Seq<Seq<char>>, cap: nat, ms: Seq<Seq<char>>)
    requires
        s.len() + ms.len() <= cap,
    ensures
        push_all_effect(s, cap, ms) == s + ms,
    decreases ms.len(),
{
    if ms.len() == 0 {
        assert(s + ms =~= s);
    } else {
        lemma_queue_fifo(s.push(ms[0]), cap, ms.drop_first());
        assert(s.push(ms[0]) + ms.drop_first() =~= s + ms);
    }
}

} // verus!
