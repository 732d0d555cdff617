//! The worker pool's point of synchronization: a FIFO queue of tasks that
//! records what was submitted and what was handed out.
//!
//! The queue discipline is what makes the pool correct: every task submitted
//! is handed out at most once, nothing is duplicated, nothing is dropped,
//! and hand-out follows submission order. Those properties are proved here
//! over the queue's history. Spawning the worker threads that drain such a
//! queue, and blocking on it, are left to the embedding program.

use vstd::prelude::*;

verus! {

/// A first-in, first-out queue of tasks, with its full history: everything
/// ever submitted and everything already handed out to a worker.
pub struct TaskQueue<T> {
    items: Vec<T>,
    submitted: Ghost<Seq<T>>,
    delivered: Ghost<Seq<T>>,
}

impl<T> TaskQueue<T> {
    /// The tasks waiting in the queue, oldest first.
    pub closed spec fn pending(&self) -> Seq<T> {
        self.items@
    }

    /// Every task ever submitted, in submission order.
    pub closed spec fn submitted(&self) -> Seq<T> {
        self.submitted@
    }

    /// Every task already handed out, in hand-out order.
    pub closed spec fn delivered(&self) -> Seq<T> {
        self.delivered@
    }

    /// The queue's invariant: what was submitted is exactly what was handed
    /// out followed by what still waits. Nothing is lost, duplicated or
    /// reordered.
    pub open spec fn wf(&self) -> bool {
        self.submitted() == self.delivered() + self.pending()
    }

    /// An empty queue with an empty history.
    pub fn new() -> (q: TaskQueue<T>)
        ensures
            q.wf(),
            q.submitted() == Seq::<T>::empty(),
            q.delivered() == Seq::<T>::empty(),
            q.pending() == Seq::<T>::empty(),
    {
        let q = TaskQueue {
            items: Vec::new(),
            submitted: Ghost(Seq::empty()),
            delivered: Ghost(Seq::empty()),
        };
        proof {
            assert(q.submitted() =~= q.delivered() + q.pending());
        }
        q
    }

    /// Submit a task: it joins the back of the queue and the submission
    /// history, and returns without waiting for execution.
    pub fn enqueue(&mut self, task: T)
        requires
            old(self).wf(),
        ensures
            final(self).wf(),
            final(self).submitted() == old(self).submitted().push(task),
            final(self).delivered() == old(self).delivered(),
            final(self).pending() == old(self).pending().push(task),
    {
        proof {
            self.submitted@ = self.submitted@.push(task);
        }
        self.items.push(task);
        proof {
            assert(self.submitted() =~= self.delivered() + self.pending());
        }
    }

    /// Hand the oldest waiting task out, if any: exactly that task leaves
    /// the queue and joins the delivery history.
    pub fn dequeue(&mut self) -> (r: Option<T>)
        requires
            old(self).wf(),
        ensures
            final(self).wf(),
            final(self).submitted() == old(self).submitted(),
            match r {
                None => {
                    &&& old(self).pending().len() == 0
                    &&& final(self).pending() == old(self).pending()
                    &&& final(self).delivered() == old(self).delivered()
                },
                Some(task) => {
                    &&& old(self).pending().len() > 0
                    &&& task == old(self).pending()[0]
                    &&& final(self).pending() == old(self).pending().drop_first()
                    &&& final(self).delivered() == old(self).delivered().push(task)
                },
            },
    {
        if self.items.len() == 0 {
            return None;
        }
        let task = self.items.remove(0);
        proof {
            self.delivered@ = self.delivered@.push(task);
            assert(self.items@ =~= old(self).items@.drop_first());
            assert(self.submitted() =~= self.delivered() + self.pending());
        }
        Some(task)
    }

    /// How many tasks wait in the queue.
    pub fn len(&self) -> (n: usize)
        ensures
            n == self.pending().len(),
    {
        self.items.len()
    }
}

/// Law: when the queue has drained, every submitted task has been handed out
/// exactly once, in submission order — submitting `k` tasks yields exactly
/// `k` deliveries, with none lost and none duplicated.
pub proof fn lemma_drained_queue_delivered_all<T>(q: &TaskQueue<T>)
    requires
        q.wf(),
        q.pending().len() == 0,
    ensures
        q.delivered() == q.submitted(),
{
    assert(q.delivered() + q.pending() =~= q.delivered());
}

/// Law: at every point, the tasks handed out are a prefix of the tasks
/// submitted — a task is never delivered before it is submitted, never
/// delivered twice, and deliveries follow submission order.
pub proof fn lemma_delivered_prefix_of_submitted<T>(q: &TaskQueue<T>)
    requires
        q.wf(),
    ensures
        q.delivered().len() + q.pending().len() == q.submitted().len(),
        q.delivered() == q.submitted().subrange(0, q.delivered().len() as int),
{
    assert(q.submitted().subrange(0, q.delivered().len() as int) =~= q.delivered());
}

} // verus!
