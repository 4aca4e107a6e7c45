use vstd::prelude::*;

use crate::event::InputEvent;
use crate::processor::Intermediate;

verus! {

/// The batch that comes out of the stages `stages`, applied in order to `input`,
/// each stage in the state it is given in.
pub open spec fn chain_output<P: Intermediate>(stages: Seq<P>, input: Seq<InputEvent>) -> Seq<InputEvent>
    decreases stages.len(),
{
    if stages.len() == 0 {
        input
    } else {
        stages.last().output(chain_output(stages.drop_last(), input))
    }
}

/// A chain of processors that threads each batch through every stage in the
/// order in which the stages were added.
pub struct Pipeline<P> {
    stages: Vec<P>,
}

impl<P> View for Pipeline<P> {
    type V = Seq<P>;

    closed spec fn view(&self) -> Seq<P> {
        self.stages@
    }
}

impl<P: Intermediate> Pipeline<P> {
    /// Creates a pipeline with no stage, which hands every batch back unchanged.
    pub fn new() -> (r: Pipeline<P>)
        ensures
            r@ == Seq::<P>::empty(),
    {
        Pipeline { stages: Vec::new() }
    }

    /// Appends `stage`, which will see the batches after all earlier stages.
    pub fn add(&mut self, stage: P)
        ensures
            final(self)@ == old(self)@.push(stage),
    {
        self.stages.push(stage);
    }

    /// The number of stages.
    pub fn len(&self) -> (r: usize)
        ensures
            r == self@.len(),
    {
        self.stages.len()
    }

    /// Threads `input` through every stage in order: each stage's output is the
    /// next stage's input. Stage `i` handles the batch that reaches it, which is
    /// what the stages before it emitted.
    pub fn process(&mut self, input: Vec<InputEvent>) -> (r: Vec<InputEvent>)
        ensures
            r@ == chain_output(old(self)@, input@),
            r@.len() == input@.len(),
            final(self)@.len() == old(self)@.len(),
            forall|i: int|
                0 <= i < old(self)@.len() ==> #[trigger] old(self)@[i].advances_to(
                    chain_output(old(self)@.take(i), input@),
                    final(self)@[i],
                ),
    {
        let ghost start = self@;
        let mut batch = input;
        let mut i: usize = 0;
        while i < self.stages.len()
            invariant
                i <= self@.len(),
                self@.len() == start.len(),
                batch@ == chain_output(start.take(i as int), input@),
                batch@.len() == input@.len(),
                forall|j: int|
                    0 <= j < i ==> #[trigger] start[j].advances_to(
                        chain_output(start.take(j), input@),
                        self@[j],
                    ),
                forall|j: int| i <= j < start.len() ==> #[trigger] self@[j] == start[j],
            decreases start.len() - i,
        {
            let next = self.stages[i].process(batch);
            assert(start.take(i as int + 1).drop_last() =~= start.take(i as int));
            batch = next;
            i = i + 1;
        }
        assert(start.take(i as int) =~= start);
        batch
    }
}

/// Whatever its stages, a pipeline emits as many events as it was given.
pub proof fn lemma_chain_len<P: Intermediate>(stages: Seq<P>, input: Seq<InputEvent>)
    ensures
        chain_output(stages, input).len() == input.len(),
    decreases stages.len(),
{
    if stages.len() > 0 {
        lemma_chain_len(stages.drop_last(), input);
        stages.last().lemma_output_len(chain_output(stages.drop_last(), input));
    }
}

} // verus!
