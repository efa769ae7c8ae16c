use clap_wrapper::tasks::{
    is_main_thread, Submission, Task, TaskQueue, MAX_TASK_QUEUE_CAPACITY, TASK_QUEUE_CAPACITY,
};

#[test]
fn main_thread_runs_the_task_at_once() {
    let mut queue = TaskQueue::new(1);
    assert_eq!(queue.do_maybe_async(Task::LatencyChanged, true), Submission::RunNow(Task::LatencyChanged));
    // The queue was not touched: its single slot is still free, and nothing is due.
    assert_eq!(queue.do_maybe_async(Task::LatencyChanged, false), Submission::Queued);
    assert_eq!(queue.on_main_thread(), vec![Task::LatencyChanged]);
}

#[test]
fn main_thread_submission_works_on_a_full_queue() {
    let mut queue = TaskQueue::new(1);
    assert_eq!(queue.do_maybe_async(Task::LatencyChanged, false), Submission::Queued);
    assert_eq!(queue.do_maybe_async(Task::LatencyChanged, true), Submission::RunNow(Task::LatencyChanged));
    assert_eq!(queue.on_main_thread().len(), 1);
}

#[test]
fn full_queue_rejects_without_blocking() {
    let mut queue = TaskQueue::new(2);
    assert_eq!(queue.do_maybe_async(Task::LatencyChanged, false), Submission::Queued);
    assert_eq!(queue.do_maybe_async(Task::LatencyChanged, false), Submission::Queued);
    assert_eq!(queue.do_maybe_async(Task::LatencyChanged, false), Submission::Rejected);
    assert_eq!(queue.do_maybe_async(Task::LatencyChanged, false), Submission::Rejected);
    assert_eq!(queue.on_main_thread().len(), 2);
}

#[test]
fn draining_empties_the_queue_and_makes_room() {
    let mut queue = TaskQueue::new(2);
    assert!(queue.on_main_thread().is_empty());
    queue.do_maybe_async(Task::LatencyChanged, false);
    queue.do_maybe_async(Task::LatencyChanged, false);
    assert_eq!(queue.on_main_thread(), vec![Task::LatencyChanged, Task::LatencyChanged]);
    assert!(queue.on_main_thread().is_empty());
    assert_eq!(queue.do_maybe_async(Task::LatencyChanged, false), Submission::Queued);
}

#[test]
fn default_capacity_holds_512_tasks() {
    assert_eq!(TASK_QUEUE_CAPACITY, 512);
    let mut queue = TaskQueue::new(TASK_QUEUE_CAPACITY);
    for _ in 0..512 {
        assert_eq!(queue.do_maybe_async(Task::LatencyChanged, false), Submission::Queued);
    }
    assert_eq!(queue.do_maybe_async(Task::LatencyChanged, false), Submission::Rejected);
    assert_eq!(queue.on_main_thread().len(), 512);
}

#[test]
fn accepted_tells_rejection_apart() {
    assert!(Submission::RunNow(Task::LatencyChanged).accepted());
    assert!(Submission::Queued.accepted());
    assert!(!Submission::Rejected.accepted());
}

#[test]
fn host_answer_decides_the_main_thread_where_there_is_one() {
    assert!(is_main_thread(Some(true), false));
    assert!(!is_main_thread(Some(false), true));
    assert!(is_main_thread(None, true));
    assert!(!is_main_thread(None, false));
}

#[test]
fn capacity_is_bounded_by_the_largest_allocation_only() {
    assert_eq!(MAX_TASK_QUEUE_CAPACITY, usize::MAX / 16);
    let mut queue = TaskQueue::new(100_000);
    for _ in 0..100_000 {
        assert_eq!(queue.do_maybe_async(Task::LatencyChanged, false), Submission::Queued);
    }
    assert_eq!(queue.do_maybe_async(Task::LatencyChanged, false), Submission::Rejected);
    assert_eq!(queue.on_main_thread().len(), 100_000);
}
