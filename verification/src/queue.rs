use vstd::prelude::*;

verus! {

/// A work queue of pending items with a one-shot "no more work" signal.
///
/// This type is the logical core of the engine's shared queue.  It records
/// the pending items and whether the producer side has announced that no
/// further items will ever arrive.  In the running engine the queue is
/// shared by all workers behind a lock, and a worker that finds the queue
/// empty while the operation is still open blocks until an item arrives or
/// the signal is given; `pop`'s precondition states exactly that a caller
/// never observes the one remaining situation, empty-and-not-done, in which
/// it would otherwise have to block.
pub struct WorkQueue<T> {
    items: Vec<T>,
    done: bool,
}

impl<T> WorkQueue<T> {
    /// The pending items, oldest first.
    pub closed spec fn pending(self) -> Seq<T> {
        self.items@
    }

    /// Whether `signal_done` has been called.
    pub closed spec fn is_done(self) -> bool {
        self.done
    }

    pub fn new() -> (q: Self)
        ensures
            q.pending() == Seq::<T>::empty(),
            !q.is_done(),
    {
        WorkQueue { items: Vec::new(), done: false }
    }

    /// How many items are pending.
    pub fn len(&self) -> (n: usize)
        ensures
            n == self.pending().len(),
    {
        self.items.len()
    }

    /// Add one item to the queue.
    pub fn push(&mut self, item: T)
        ensures
            final(self).pending() == old(self).pending().push(item),
            final(self).is_done() == old(self).is_done(),
    {
        self.items.push(item);
    }

    /// Add a whole batch of items to the queue at once.  In the running
    /// engine a batch push wakes every blocked worker, so a batch of new
    /// jobs is not starved behind a single-waiter wakeup.
    pub fn push_many(&mut self, items: Vec<T>)
        ensures
            final(self).pending() == old(self).pending() + items@,
            final(self).is_done() == old(self).is_done(),
    {
        if items.len() == 0 {
            assert(final(self).pending() =~= old(self).pending() + items@);
            return;
        }
        let mut batch = items;
        self.items.append(&mut batch);
    }

    /// Take the most recently added item, or report end-of-work.
    ///
    /// `None` is returned exactly when the queue is empty and the done
    /// signal has been given.  A call on an empty queue before the signal
    /// would block forever in the shared setting, so it is excluded here.
    pub fn pop(&mut self) -> (r: Option<T>)
        requires
            old(self).is_done() || old(self).pending().len() > 0,
        ensures
            final(self).is_done() == old(self).is_done(),
            match r {
                Some(item) => old(self).pending().len() > 0
                    && item == old(self).pending().last()
                    && final(self).pending() == old(self).pending().drop_last(),
                None => old(self).pending().len() == 0
                    && old(self).is_done()
                    && final(self).pending() == old(self).pending(),
            },
    {
        self.items.pop()
    }

    /// Announce that no further items will ever be pushed.  After this, a
    /// `pop` on an empty queue reports end-of-work instead of waiting.
    pub fn signal_done(&mut self)
        ensures
            final(self).is_done(),
            final(self).pending() == old(self).pending(),
    {
        self.done = true;
    }
}

} // verus!
