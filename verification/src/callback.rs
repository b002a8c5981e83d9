//! A queue of callbacks to run once the editor call that triggered them has
//! returned.

use vstd::prelude::*;

verus! {

/// Callbacks waiting to run, oldest first.
pub struct CallBackQueue<C> {
    items: Vec<C>,
}

impl<C> View for CallBackQueue<C> {
    type V = Seq<C>;

    closed spec fn view(&self) -> Seq<C> {
        self.items@
    }
}

impl<C> CallBackQueue<C> {
    /// An empty queue.
    pub fn new() -> (r: CallBackQueue<C>)
        ensures
            r@ == Seq::<C>::empty(),
    {
        CallBackQueue { items: Vec::new() }
    }

    /// Adds a callback at the end.
    pub fn push(&mut self, item: C)
        ensures
            final(self)@ == old(self)@.push(item),
    {
        self.items.push(item);
    }

    /// Takes the oldest callback, if any.
    pub fn pop_front(&mut self) -> (r: Option<C>)
        ensures
            old(self)@.len() == 0 ==> r is None && final(self)@ == old(self)@,
            old(self)@.len() > 0 ==> r == Some(old(self)@[0]) && final(self)@ == old(
                self,
            )@.drop_first(),
    {
        if self.items.len() == 0 {
            None
        } else {
            let item = self.items.remove(0);
            assert(self.items@ =~= old(self)@.drop_first());
            Some(item)
        }
    }

    /// Whether no callback is waiting.
    pub fn is_empty(&self) -> (r: bool)
        ensures
            r == (self@.len() == 0),
    {
        self.items.len() == 0
    }
}

/// Callbacks run in the order they were queued: queueing one more callback
/// does not change which callback comes out next, nor the order of those
/// behind it; on an empty queue the new callback comes out next.
pub proof fn law_callbacks_in_order<C>(q: Seq<C>, c: C)
    ensures
        q.len() == 0 ==> q.push(c)[0] == c && q.push(c).drop_first().len() == 0,
        q.len() > 0 ==> q.push(c)[0] == q[0] && q.push(c).drop_first() =~= q.drop_first().push(c),
{
}

} // verus!
