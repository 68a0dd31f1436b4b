//! The FIFO queue connecting the render loop to a worker.
//!
//! In the running client one end of a queue lives on the render thread and
//! the other on a worker thread; the queue is the only state the two
//! threads share.  This model holds the queue's whole contents in one
//! place, so that sending and draining can be specified exactly: a send
//! appends, a drain removes the oldest item or reports that nothing is
//! queued, and nothing is ever reordered, duplicated or lost.

use vstd::prelude::*;

verus! {

/// An unbounded FIFO queue.  The view is the sequence of queued items,
/// oldest first.
#[derive(Clone, Debug)]
pub struct Channel<T> {
    pub items: Vec<T>,
}

impl<T> View for Channel<T> {
    type V = Seq<T>;

    closed spec fn view(&self) -> Seq<T> {
        self.items@
    }
}

impl<T> Channel<T> {
    /// An empty queue.
    pub fn new() -> (r: Channel<T>)
        ensures
            r@ == Seq::<T>::empty(),
    {
        Channel { items: Vec::new() }
    }

    /// The number of queued items.
    pub fn len(&self) -> (r: usize)
        ensures
            r == self@.len(),
    {
        self.items.len()
    }

    /// Whether nothing is queued.
    pub fn is_empty(&self) -> (r: bool)
        ensures
            r <==> self@.len() == 0,
    {
        self.items.is_empty()
    }

    /// Appends `item` behind everything already queued.
    pub fn send(&mut self, item: T)
        ensures
            final(self)@ == old(self)@.push(item),
    {
        self.items.push(item);
    }

    /// Non-blocking drain: removes and returns the oldest queued item, or
    /// returns `None` and changes nothing when the queue is empty.
    pub fn try_recv(&mut self) -> (r: Option<T>)
        ensures
            old(self)@.len() == 0 ==> r is None && *final(self) == *old(self),
            old(self)@.len() > 0 ==> r == Some(old(self)@[0]) && final(self)@ == old(self)@.drop_first(),
    {
        if self.items.is_empty() {
            None
        } else {
            let item = self.items.remove(0);
            proof {
                assert(self@ =~= old(self)@.drop_first());
            }
            Some(item)
        }
    }
}

/// First in, first out: sending `a` and then `b` into a drained queue
/// queues exactly those two items, and two successive drains hand them back
/// in submission order: first `a`, then `b`.
pub proof fn lemma_fifo<T>(q: Seq<T>, a: T, b: T)
    requires
        q.len() == 0,
    ensures
        ({
            let after = q.push(a).push(b);
            &&& after.len() == 2
            &&& after[0] == a
            &&& after.drop_first()[0] == b
        }),
{
    let after = q.push(a).push(b);
    assert(after[0] == a);
    assert(after.drop_first()[0] == after[1]);
    assert(after[1] == b);
}

} // verus!
