use vstd::prelude::*;
use crate::action::{Action, ActionV};

verus! {

/// The action queue: every action produced anywhere in the event loop is
/// appended here and consumed, in order, by the orchestrator alone.
///
/// Producers and the consumer run on the same cooperative task, so sending
/// can neither block nor fail; the queue is unbounded by design, producers
/// being self-limiting (one action per key press, one per timer pulse).
/// Actions are delivered first-in, first-out.
#[derive(Debug)]
pub struct ActionBus {
    queue: Vec<Action>,
}

impl View for ActionBus {
    type V = Seq<ActionV>;

    closed spec fn view(&self) -> Seq<ActionV> {
        self.queue@.map_values(|a: Action| a@)
    }
}

impl ActionBus {
    pub fn new() -> (b: ActionBus)
        ensures
            b@ == Seq::<ActionV>::empty(),
    {
        let b = ActionBus { queue: Vec::new() };
        assert(b@ =~= Seq::<ActionV>::empty());
        b
    }

    pub fn len(&self) -> (n: usize)
        ensures
            n == self@.len(),
    {
        self.queue.len()
    }

    pub fn is_empty(&self) -> (r: bool)
        ensures
            r == (self@.len() == 0),
    {
        self.queue.len() == 0
    }

    /// Appends an action at the back of the queue.
    pub fn send(&mut self, a: Action)
        ensures
            final(self)@ == old(self)@.push(a@),
    {
        let ghost av = a@;
        self.queue.push(a);
        assert(self@ =~= old(self)@.push(av));
    }

    /// Removes and returns the oldest queued action, if any.
    pub fn pop(&mut self) -> (r: Option<Action>)
        ensures
            old(self)@.len() == 0 ==> r is None && final(self)@ == old(self)@,
            old(self)@.len() > 0 ==> (match r {
                Option::Some(a) => a@ == old(self)@[0] && final(self)@ == old(self)@.drop_first(),
                Option::None => false,
            }),
    {
        if self.queue.len() == 0 {
            Option::None
        } else {
            let a = self.queue.remove(0);
            assert(self@ =~= old(self)@.drop_first());
            Option::Some(a)
        }
    }
}

} // verus!
