//! The event source: one ordered queue in front of the state machine.
//!
//! Events leave in the order in which they arrived and none is dropped. Two
//! events that became ready at the same instant get a fixed order: what the
//! motion sensor reports goes behind the other one.

use vstd::prelude::*;
use crate::types::Event;

verus! {

/// The events that wait for the state machine, oldest first.
#[derive(Debug)]
pub struct EventQueue {
    waiting: Vec<Event>,
}

/// The order given to two events `a` and `b` that became ready together: a
/// motion event steps behind one that is none, and otherwise `a` stays first.
pub open spec fn ready_order(a: Event, b: Event) -> Seq<Event> {
    if a.is_motion() && !b.is_motion() {
        seq![b, a]
    } else {
        seq![a, b]
    }
}

impl View for EventQueue {
    type V = Seq<Event>;

    closed spec fn view(&self) -> Seq<Event> {
        self.waiting@
    }
}

impl EventQueue {
    /// A queue with nothing waiting.
    pub fn new() -> (q: EventQueue)
        ensures
            q@ == Seq::<Event>::empty(),
    {
        EventQueue { waiting: Vec::new() }
    }

    /// How many events wait.
    pub fn len(&self) -> (n: usize)
        ensures
            n == self@.len(),
    {
        self.waiting.len()
    }

    /// Whether nothing waits.
    pub fn is_empty(&self) -> (res: bool)
        ensures
            res == (self@.len() == 0),
    {
        self.waiting.len() == 0
    }

    /// Puts `event` behind all that wait.
    pub fn push(&mut self, event: Event)
        ensures
            final(self)@ == old(self)@.push(event),
    {
        self.waiting.push(event);
    }

    /// Puts two events that became ready at the same instant behind all that
    /// wait, in the order that [`ready_order`] gives them.
    pub fn push_ready(&mut self, a: Event, b: Event)
        ensures
            final(self)@ == old(self)@ + ready_order(a, b),
    {
        if a.motion() && !b.motion() {
            self.waiting.push(b);
            self.waiting.push(a);
        } else {
            self.waiting.push(a);
            self.waiting.push(b);
        }
        assert(self.waiting@ =~= old(self)@ + ready_order(a, b));
    }

    /// Takes the oldest event, if there is one.
    pub fn pop(&mut self) -> (event: Option<Event>)
        ensures
            old(self)@.len() == 0 ==> event is None && final(self)@ == old(self)@,
            old(self)@.len() > 0 ==> event == Some(old(self)@[0]) && final(self)@ == old(
                self,
            )@.drop_first(),
    {
        if self.waiting.len() == 0 {
            None
        } else {
            let event = self.waiting.remove(0);
            assert(self.waiting@ =~= old(self)@.drop_first());
            Some(event)
        }
    }
}

/// Two events that became ready together join the queue without disturbing
/// it: the waiting events keep their places, the queue gains exactly those
/// two, two events of one kind keep the order given, and a motion event
/// never stands before one that is none.
pub proof fn ready_events_join_in_order(waiting: Seq<Event>, a: Event, b: Event)
    ensures
        (waiting + ready_order(a, b)).len() == waiting.len() + 2,
        (waiting + ready_order(a, b)).subrange(0, waiting.len() as int) == waiting,
        (waiting + ready_order(a, b)).to_multiset() == waiting.to_multiset().insert(a).insert(b),
        a.is_motion() == b.is_motion() ==> ready_order(a, b) == seq![a, b],
        ready_order(a, b)[0].is_motion() ==> ready_order(a, b)[1].is_motion(),
{
    let all = waiting + ready_order(a, b);
    assert(all.subrange(0, waiting.len() as int) =~= waiting);
    if a.is_motion() && !b.is_motion() {
        assert(all =~= waiting.push(b).push(a));
        waiting.to_multiset_ensures();
        waiting.push(b).to_multiset_ensures();
        assert(all.to_multiset() =~= waiting.to_multiset().insert(a).insert(b));
    } else {
        assert(all =~= waiting.push(a).push(b));
        waiting.to_multiset_ensures();
        waiting.push(a).to_multiset_ensures();
    }
}

} // verus!
