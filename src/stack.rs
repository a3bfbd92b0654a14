use vstd::prelude::*;
use crate::render_state::{origin, Offset, ZERO_BITS};

verus! {

/// What popping `stack` gives: the top entry and the rest, or the origin and
/// the unchanged (empty) stack.
pub open spec fn pop_of(stack: Seq<Offset>) -> (Offset, Seq<Offset>) {
    if stack.len() == 0 {
        (origin(), stack)
    } else {
        (stack.last(), stack.drop_last())
    }
}

/// What pop-then-push does to `stack`: the popped translation, and the stack
/// with that translation pushed back.
pub open spec fn pop_push_of(stack: Seq<Offset>) -> (Offset, Seq<Offset>) {
    let (t, rest) = pop_of(stack);
    (t, rest.push(t))
}

/// The stack of saved translations that one script decode keeps.
pub struct TranslationStack {
    items: Vec<Offset>,
}

impl View for TranslationStack {
    type V = Seq<Offset>;

    closed spec fn view(&self) -> Seq<Offset> {
        self.items@
    }
}

impl TranslationStack {
    pub fn new() -> (s: TranslationStack)
        ensures
            s@ == Seq::<Offset>::empty(),
    {
        TranslationStack { items: Vec::new() }
    }

    pub fn len(&self) -> (n: usize)
        ensures
            n == self@.len(),
    {
        self.items.len()
    }

    /// Saves `t` on top of the stack.
    pub fn push(&mut self, t: Offset)
        ensures
            final(self)@ == old(self)@.push(t),
    {
        self.items.push(t);
    }

    /// Takes the top translation off; an empty stack gives `(0.0, 0.0)`.
    pub fn pop(&mut self) -> (t: Offset)
        ensures
            (t, final(self)@) == pop_of(old(self)@),
            old(self)@.len() == 0 ==> t == origin() && final(self)@.len() == 0,
    {
        match self.items.pop() {
            Some(t) => t,
            None => Offset { x: ZERO_BITS, y: ZERO_BITS },
        }
    }

    /// Pops the top translation and pushes it straight back, returning it.
    pub fn pop_push(&mut self) -> (t: Offset)
        ensures
            (t, final(self)@) == pop_push_of(old(self)@),
            old(self)@.len() > 0 ==> final(self)@ == old(self)@ && t == old(self)@.last(),
    {
        let t = self.pop();
        self.push(t);
        proof {
            if old(self)@.len() > 0 {
                assert(self@ =~= old(self)@);
            }
        }
        t
    }
}

/// Pop-then-push on a non-empty stack keeps its depth and contents, and makes
/// the saved top translation the current one.
pub proof fn lemma_pop_push_keeps_depth(stack: Seq<Offset>)
    requires
        stack.len() > 0,
    ensures
        pop_push_of(stack).1.len() == stack.len(),
        pop_push_of(stack).1 == stack,
        pop_push_of(stack).0 == stack.last(),
{
    assert(pop_push_of(stack).1 =~= stack);
}

/// Popping an empty stack gives the translation `(0.0, 0.0)`.
pub proof fn lemma_pop_empty_gives_origin()
    ensures
        pop_of(Seq::<Offset>::empty()).0 == origin(),
        pop_of(Seq::<Offset>::empty()).1.len() == 0,
{
}

} // verus!
