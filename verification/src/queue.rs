//! The bounded queue that carries admitted tasks to the builds.

use std::collections::VecDeque;
use vstd::prelude::*;

use crate::runner::{Task, TaskView};

verus! {

/// Why a task was not admitted.
#[derive(Debug, Clone, Copy, PartialEq, Eq, Structural)]
pub enum SendError {
    /// The queue holds as many tasks as it may.
    Full,
    /// The queue no longer admits tasks.
    Closed,
}

/// What a queue holds: the waiting tasks, oldest first, the bound on their
/// number, and whether the queue still admits tasks.
pub ghost struct QueueView {
    pub tasks: Seq<TaskView>,
    pub capacity: nat,
    pub closed: bool,
}

/// What offering `task` to `queue` ends in: a closed queue refuses it, a full
/// one too, and otherwise the task is admitted.
pub open spec fn offer(queue: QueueView, task: TaskView) -> Result<(), SendError> {
    if queue.closed {
        Err(SendError::Closed)
    } else if queue.tasks.len() >= queue.capacity {
        Err(SendError::Full)
    } else {
        Ok(())
    }
}

/// The queue after `task` was offered to it: an admitted task waits behind
/// all others, a refused one changes nothing.
pub open spec fn after_offer(queue: QueueView, task: TaskView) -> QueueView {
    if offer(queue, task) is Ok {
        QueueView { tasks: queue.tasks.push(task), ..queue }
    } else {
        queue
    }
}

impl QueueView {
    /// Whether the queue holds no more tasks than its bound allows.
    pub open spec fn bounded(self) -> bool {
        self.tasks.len() <= self.capacity
    }
}

/// Offering a task never takes a queue over its bound: a queue at its bound
/// refuses the task and stays as it is.
pub proof fn lemma_offer_keeps_bound(queue: QueueView, task: TaskView)
    requires
        queue.bounded(),
    ensures
        after_offer(queue, task).bounded(),
        queue.tasks.len() == queue.capacity ==> offer(queue, task) is Err && after_offer(
            queue,
            task,
        ) == queue,
{
}

/// Tasks leave in the order in which they were admitted: a task admitted to
/// a queue of `n` waiting tasks is the one at position `n`, behind all of
/// them, and the waiting tasks keep their places.
pub proof fn lemma_offer_keeps_order(queue: QueueView, task: TaskView)
    requires
        offer(queue, task) is Ok,
    ensures
        after_offer(queue, task).tasks.len() == queue.tasks.len() + 1,
        after_offer(queue, task).tasks[queue.tasks.len() as int] == task,
        forall|i: int|
            0 <= i < queue.tasks.len() ==> #[trigger] after_offer(queue, task).tasks[i]
                == queue.tasks[i],
{
}

/// A bounded queue of tasks that hands them out in the order in which it
/// admitted them.
pub struct TaskQueue {
    tasks: VecDeque<Task>,
    capacity: usize,
    closed: bool,
}

impl View for TaskQueue {
    type V = QueueView;

    closed spec fn view(&self) -> QueueView {
        QueueView {
            tasks: Seq::new(self.tasks@.len(), |i: int| self.tasks@[i]@),
            capacity: self.capacity as nat,
            closed: self.closed,
        }
    }
}

impl TaskQueue {
    /// An empty, open queue that admits up to `capacity` tasks.
    pub fn new(capacity: usize) -> (queue: TaskQueue)
        ensures
            queue@ == (QueueView { tasks: Seq::empty(), capacity: capacity as nat, closed: false }),
            queue@.bounded(),
    {
        let queue = TaskQueue { tasks: VecDeque::new(), capacity, closed: false };
        assert(queue@.tasks =~= Seq::empty());
        queue
    }

    /// Offers `task` without waiting: it is admitted behind the waiting tasks
    /// unless the queue is closed or full.
    pub fn try_send(&mut self, task: Task) -> (sent: Result<(), SendError>)
        ensures
            sent == offer(old(self)@, task@),
            final(self)@ == after_offer(old(self)@, task@),
    {
        if self.closed {
            return Err(SendError::Closed);
        }
        if self.tasks.len() >= self.capacity {
            return Err(SendError::Full);
        }
        self.tasks.push_back(task);
        assert(self@.tasks =~= old(self)@.tasks.push(task@));
        Ok(())
    }

    /// Takes the task that has waited longest, if any waits.
    pub fn recv(&mut self) -> (received: Option<Task>)
        ensures
            match received {
                Some(task) => old(self)@.tasks.len() > 0 && task@ == old(self)@.tasks[0]
                    && final(self)@ == (QueueView {
                    tasks: old(self)@.tasks.subrange(1, old(self)@.tasks.len() as int),
                    ..old(self)@
                }),
                None => old(self)@.tasks.len() == 0 && final(self)@ == old(self)@,
            },
    {
        let received = self.tasks.pop_front();
        proof {
            if received is Some {
                assert(self@.tasks =~= old(self)@.tasks.subrange(
                    1,
                    old(self)@.tasks.len() as int,
                ));
            } else {
                assert(self@.tasks =~= old(self)@.tasks);
            }
        }
        received
    }

    /// Stops admitting tasks. Those that wait can still be taken.
    pub fn close(&mut self)
        ensures
            final(self)@ == (QueueView { closed: true, ..old(self)@ }),
    {
        self.closed = true;
    }

    /// The number of waiting tasks.
    pub fn len(&self) -> (count: usize)
        ensures
            count == self@.tasks.len(),
    {
        self.tasks.len()
    }

    /// Whether no task waits.
    pub fn is_empty(&self) -> (empty: bool)
        ensures
            empty == (self@.tasks.len() == 0),
    {
        self.tasks.len() == 0
    }

    /// The bound on the number of waiting tasks.
    pub fn capacity(&self) -> (capacity: usize)
        ensures
            capacity == self@.capacity,
    {
        self.capacity
    }

    /// Whether the queue has stopped admitting tasks.
    pub fn is_closed(&self) -> (closed: bool)
        ensures
            closed == self@.closed,
    {
        self.closed
    }
}

} // verus!
