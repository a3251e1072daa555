use vstd::prelude::*;
use std::slice::Iter;
use vstd::std_specs::iter::IteratorSpec;

verus! {

/// The subview stack: the views drawn over the current view, the last one
/// on top.
#[derive(Debug, Clone, PartialEq)]
pub struct SubviewStack<S>(Vec<S>);

impl<S> View for SubviewStack<S> {
    type V = Seq<S>;

    closed spec fn view(&self) -> Seq<S> {
        self.0@
    }
}

impl<S> SubviewStack<S> {
    /// Creates an empty stack.
    pub fn new() -> (r: Self)
        ensures
            r@ == Seq::<S>::empty(),
    {
        SubviewStack(Vec::new())
    }

    /// Replaces the current subview with the specified subview. If the
    /// subview stack is empty, the specified subview will be pushed onto the
    /// stack.
    pub fn set(&mut self, subview: S)
        ensures
            old(self)@.len() > 0 ==> final(self)@ == old(self)@.update(old(self)@.len() - 1, subview),
            old(self)@.len() == 0 ==> final(self)@ == seq![subview],
    {
        let n = self.0.len();
        if n > 0 {
            self.0.set(n - 1, subview);
        } else {
            self.push(subview);
        }
    }

    /// Pushes the specified subview onto the stack.
    pub fn push(&mut self, subview: S)
        ensures
            final(self)@ == old(self)@.push(subview),
    {
        self.0.push(subview);
    }

    /// Pops the top-most subview from the stack. If the stack is empty, this
    /// does nothing.
    pub fn pop(&mut self)
        ensures
            old(self)@.len() > 0 ==> final(self)@ == old(self)@.drop_last(),
            old(self)@.len() == 0 ==> final(self)@ == old(self)@,
    {
        self.0.pop();
    }

    /// Clears the subview stack. This is usually a good idea when switching
    /// actual views, since otherwise the view change will be invisible
    /// underneath the stacked subviews.
    pub fn clear(&mut self)
        ensures
            final(self)@ == Seq::<S>::empty(),
    {
        self.0.clear();
    }

    /// The number of stacked subviews.
    pub fn len(&self) -> (r: usize)
        ensures
            r == self@.len(),
    {
        self.0.len()
    }

    /// Returns an iterator over the subviews, bottom first.
    pub fn iter(&self) -> (r: Iter<'_, S>)
        ensures
            r.remaining() == self@.map_values(|s: S| &s),
    {
        broadcast use vstd::std_specs::slice::axiom_spec_slice_iter;
        let r = self.0.as_slice().iter();
        assert(self@.map_values(|s: S| &s) =~= self.0@.as_ref());
        r
    }
}

impl<S> Default for SubviewStack<S> {
    fn default() -> (r: Self)
        ensures
            r@ == Seq::<S>::empty(),
    {
        SubviewStack(Vec::new())
    }
}

/// Popping undoes pushing: a pushed subview covers the stack only until it
/// is popped again.
pub proof fn lemma_push_pop<S>(stack: Seq<S>, subview: S)
    ensures
        stack.push(subview).len() > 0,
        stack.push(subview).drop_last() == stack,
        stack.push(subview).last() == subview,
{
    assert(stack.push(subview).drop_last() =~= stack);
}

/// Setting a subview on a non-empty stack keeps its height and everything
/// beneath the top.
pub proof fn lemma_set_keeps_beneath<S>(stack: Seq<S>, subview: S)
    requires
        stack.len() > 0,
    ensures
        stack.update(stack.len() - 1, subview).len() == stack.len(),
        stack.update(stack.len() - 1, subview).drop_last() == stack.drop_last(),
        stack.update(stack.len() - 1, subview).last() == subview,
{
    assert(stack.update(stack.len() - 1, subview).drop_last() =~= stack.drop_last());
}

} // verus!
