//! Deferring work to the host's main thread.
//!
//! A thread other than the main thread cannot perform main-thread effects
//! itself. It leaves a task in a bounded queue and asks the host for a
//! callback on the main thread, where the queue is emptied. Submitting never
//! waits: when the queue is full the task is refused.

use crossbeam::queue::ArrayQueue;
use vstd::prelude::*;

verus! {

/// The queue capacity an instance uses unless told otherwise.
pub const TASK_QUEUE_CAPACITY: usize = 512;

/// The largest capacity a task queue can be made with. The queue lays out
/// one slot of at most eight bytes for each task it can hold, and no
/// allocation is larger than the greatest `isize`.
pub const MAX_TASK_QUEUE_CAPACITY: usize = usize::MAX / 16;

/// Tasks that can be sent from any thread to be executed on the main thread
/// without blocking the sender.
#[derive(Debug, Clone, Copy, PartialEq, Eq, Structural)]
pub enum Task {
    /// Inform the host that the latency has changed.
    LatencyChanged,
}

/// `crossbeam::queue::ArrayQueue`, a bounded queue with a capacity fixed at
/// construction. Nothing of its representation is known here.
#[verifier::external_type_specification]
#[verifier::external_body]
#[verifier::reject_recursive_types(T)]
pub struct ExArrayQueue<T>(ArrayQueue<T>);

/// The tasks held by a queue, the oldest first.
pub uninterp spec fn queued(q: ArrayQueue<Task>) -> Seq<Task>;

/// The capacity a queue was made with.
pub uninterp spec fn queue_limit(q: ArrayQueue<Task>) -> nat;

/// `ArrayQueue::new`: makes an empty queue that holds at most `capacity`
/// tasks. The outside function panics on a capacity of zero, on one whose
/// slots exceed the largest allocation, and on one too large to index; the
/// precondition leaves these out.
#[verifier::external_body]
fn queue_with_capacity(capacity: usize) -> (q: ArrayQueue<Task>)
    requires
        0 < capacity <= MAX_TASK_QUEUE_CAPACITY,
    ensures
        queued(q) == Seq::<Task>::empty(),
        queue_limit(q) == capacity,
{
    ArrayQueue::new(capacity)
}

/// `ArrayQueue::push`: appends the task behind those already queued and
/// returns `Ok`, unless the queue holds as many tasks as its capacity, in
/// which case the queue is left as it was and the task comes back in `Err`.
#[verifier::external_body]
fn queue_push(q: &mut ArrayQueue<Task>, task: Task) -> (r: Result<(), Task>)
    ensures
        queue_limit(*final(q)) == queue_limit(*old(q)),
        queued(*old(q)).len() < queue_limit(*old(q)) ==> r is Ok && queued(*final(q)) == queued(
            *old(q),
        ).push(task),
        queued(*old(q)).len() >= queue_limit(*old(q)) ==> r is Err && r->Err_0 == task
            && queued(*final(q)) == queued(*old(q)),
{
    q.push(task)
}

/// `ArrayQueue::pop`: removes and returns the oldest task, or returns `None`
/// and leaves the queue as it was when it is empty.
#[verifier::external_body]
fn queue_pop(q: &mut ArrayQueue<Task>) -> (r: Option<Task>)
    ensures
        queue_limit(*final(q)) == queue_limit(*old(q)),
        queued(*old(q)).len() == 0 ==> r is None && queued(*final(q)) == queued(*old(q)),
        queued(*old(q)).len() > 0 ==> r == Some(queued(*old(q))[0]) && queued(*final(q))
            == queued(*old(q)).drop_first(),
{
    q.pop()
}

/// What became of a submitted task.
#[derive(Debug, Clone, Copy, PartialEq, Eq, Structural)]
pub enum Submission {
    /// The caller is the main thread: it performs the task's effect itself,
    /// now. The queue was not touched.
    RunNow(Task),
    /// The task was queued. The caller asks the host for a callback on the
    /// main thread.
    Queued,
    /// The queue was full. The task is dropped.
    Rejected,
}

impl Submission {
    /// Whether the task was, or will be, carried out.
    pub open spec fn accepted_spec(self) -> bool {
        !(self is Rejected)
    }

    /// Whether the task was, or will be, carried out.
    pub fn accepted(&self) -> (r: bool)
        ensures
            r == self.accepted_spec(),
    {
        match self {
            Submission::Rejected => false,
            _ => true,
        }
    }
}

/// Decides whether the calling thread is the main thread. The host's own
/// answer is taken where the host can tell; otherwise the main thread is the
/// thread that created the instance.
pub fn is_main_thread(host_answer: Option<bool>, on_creating_thread: bool) -> (r: bool)
    ensures
        r == match host_answer {
            Some(answer) => answer,
            None => on_creating_thread,
        },
{
    match host_answer {
        Some(answer) => answer,
        None => on_creating_thread,
    }
}

/// A bounded queue of tasks waiting for the main thread.
#[derive(Debug)]
pub struct TaskQueue {
    tasks: ArrayQueue<Task>,
}

impl TaskQueue {
    /// The waiting tasks, the oldest first.
    pub closed spec fn view(&self) -> Seq<Task> {
        queued(self.tasks)
    }

    /// The number of tasks the queue can hold.
    pub closed spec fn capacity(&self) -> nat {
        queue_limit(self.tasks)
    }

    /// The queue never holds more tasks than its capacity.
    pub open spec fn wf(&self) -> bool {
        0 < self.capacity() && self@.len() <= self.capacity()
    }

    /// Makes an empty queue for at most `capacity` tasks.
    pub fn new(capacity: usize) -> (q: TaskQueue)
        requires
            0 < capacity <= MAX_TASK_QUEUE_CAPACITY,
        ensures
            q.wf(),
            q@ == Seq::<Task>::empty(),
            q.capacity() == capacity,
    {
        TaskQueue { tasks: queue_with_capacity(capacity) }
    }

    /// Submits a task. On the main thread the task is handed back to be run
    /// at once; elsewhere it is queued behind the waiting tasks, or refused
    /// when the queue is full.
    pub fn do_maybe_async(&mut self, task: Task, on_main_thread: bool) -> (r: Submission)
        requires
            old(self).wf(),
        ensures
            final(self).wf(),
            final(self).capacity() == old(self).capacity(),
            on_main_thread ==> r == Submission::RunNow(task) && *final(self) == *old(self),
            !on_main_thread && old(self)@.len() < old(self).capacity() ==> r == Submission::Queued
                && final(self)@ == old(self)@.push(task),
            !on_main_thread && old(self)@.len() == old(self).capacity() ==> r
                == Submission::Rejected && final(self)@ == old(self)@,
    {
        if on_main_thread {
            Submission::RunNow(task)
        } else {
            match queue_push(&mut self.tasks, task) {
                Ok(_) => Submission::Queued,
                Err(_) => Submission::Rejected,
            }
        }
    }

    /// Empties the queue on the main thread and returns the tasks to run, the
    /// oldest first.
    pub fn on_main_thread(&mut self) -> (due: Vec<Task>)
        requires
            old(self).wf(),
        ensures
            final(self).wf(),
            final(self).capacity() == old(self).capacity(),
            final(self)@ == Seq::<Task>::empty(),
            due@ == old(self)@,
    {
        let mut due: Vec<Task> = Vec::new();
        loop
            invariant
                self.wf(),
                self.capacity() == old(self).capacity(),
                due@ + self@ == old(self)@,
            ensures
                self@.len() == 0,
            decreases self@.len(),
        {
            match queue_pop(&mut self.tasks) {
                Some(task) => {
                    proof {
                        assert(due@.push(task) + self@ =~= old(self)@);
                    }
                    due.push(task);
                },
                None => {
                    break ;
                },
            }
        }
        proof {
            assert(self@ =~= Seq::<Task>::empty());
            assert(due@ =~= old(self)@);
        }
        due
    }
}

} // verus!
