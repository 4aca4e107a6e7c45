use vstd::prelude::*;

use crate::event::InputEvent;

verus! {

/// A stage of the input pipeline: it rewrites a batch of events into a batch of
/// the same length, element by element, and may update its own state on the way.
///
/// `output` and `advances_to` describe a call of `process` on the state before
/// the call: the batch that comes out, and the states that may follow.
pub trait Intermediate: Sized {
    /// The batch that a processor in this state emits for `input`.
    spec fn output(&self, input: Seq<InputEvent>) -> Seq<InputEvent>;

    /// Whether `after` is a state in which a processor in this state may be left
    /// once it has handled `input`.
    spec fn advances_to(&self, input: Seq<InputEvent>, after: Self) -> bool;

    /// A processor never adds nor drops an event.
    proof fn lemma_output_len(&self, input: Seq<InputEvent>)
        ensures
            self.output(input).len() == input.len(),
    ;

    /// Rewrites `input`, event by event and in order.
    fn process(&mut self, input: Vec<InputEvent>) -> (r: Vec<InputEvent>)
        ensures
            r@ == old(self).output(input@),
            r@.len() == input@.len(),
            old(self).advances_to(input@, *final(self)),
    ;
}

} // verus!
