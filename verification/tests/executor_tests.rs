use axirq::bridge::Bridge;
use axirq::executor::{Executor, Task, TaskId, TaskKind, TaskState};
use axirq::line_buffer::LineBuffer;

#[test]
fn spawn_assigns_fresh_increasing_ids() {
    let mut e = Executor::new();
    assert_eq!(e.spawn(TaskKind::UartDrain), TaskId(0));
    assert_eq!(e.spawn(TaskKind::Example), TaskId(1));
    assert_eq!(e.spawn(TaskKind::Example), TaskId(2));
    assert_eq!(e.task_count(), 3);
    assert_eq!(e.run_queue_len(), 3);
}

#[test]
fn fifo_polling_order() {
    let mut e = Executor::new();
    let a = e.spawn(TaskKind::Example);
    let b = e.spawn(TaskKind::Example);
    assert_eq!(e.fetch_next(), Some(a));
    e.finish_poll(a, true);
    assert_eq!(e.fetch_next(), Some(b));
    e.finish_poll(b, true);
    assert_eq!(e.fetch_next(), None);
}

#[test]
fn wake_when_runnable_is_a_no_op() {
    let mut e = Executor::new();
    let id = e.spawn(TaskKind::UartDrain);
    assert_eq!(e.task_state(id), Some(TaskState::Runnable));
    assert_eq!(e.run_queue_len(), 1);
    e.wake(id);
    e.wake(id);
    // No duplicate entry, no state change.
    assert_eq!(e.run_queue_len(), 1);
    assert_eq!(e.task_state(id), Some(TaskState::Runnable));
}

#[test]
fn at_most_one_queue_entry_after_many_wakes() {
    let mut e = Executor::new();
    let id = e.spawn(TaskKind::UartDrain);
    assert_eq!(e.fetch_next(), Some(id));
    e.finish_poll(id, false);
    assert_eq!(e.task_state(id), Some(TaskState::Parked));
    assert_eq!(e.run_queue_len(), 0);
    e.wake(id);
    e.wake(id);
    e.wake(id);
    assert_eq!(e.run_queue_len(), 1);
    assert_eq!(e.fetch_next(), Some(id));
    e.finish_poll(id, false);
    assert_eq!(e.fetch_next(), None);
}

#[test]
fn wake_during_poll_requeues_on_finish() {
    let mut e = Executor::new();
    let id = e.spawn(TaskKind::UartDrain);
    assert_eq!(e.fetch_next(), Some(id));
    assert_eq!(e.task_state(id), Some(TaskState::Polling));
    e.wake(id);
    assert_eq!(e.task_state(id), Some(TaskState::PollingWoken));
    e.finish_poll(id, false);
    // The mid-poll wake was not lost: the task went straight back.
    assert_eq!(e.task_state(id), Some(TaskState::Runnable));
    assert_eq!(e.run_queue_len(), 1);
}

#[test]
fn completed_task_is_removed_and_wakes_are_ignored() {
    let mut e = Executor::new();
    let id = e.spawn(TaskKind::Example);
    assert_eq!(e.fetch_next(), Some(id));
    e.finish_poll(id, true);
    assert_eq!(e.task_state(id), None);
    assert_eq!(e.task_kind(id), None);
    e.wake(id);
    assert_eq!(e.run_queue_len(), 0);
    // The identifier is not reused.
    assert_eq!(e.spawn(TaskKind::Example), TaskId(1));
}

#[test]
fn wake_of_unknown_id_is_ignored() {
    let mut e = Executor::new();
    e.wake(TaskId(12));
    assert_eq!(e.run_queue_len(), 0);
    assert_eq!(e.task_state(TaskId(12)), None);
}

#[test]
fn task_poll_drain_drains_and_suspends() {
    let t = Task::new(TaskId(4), TaskKind::UartDrain);
    assert_eq!(t.id(), TaskId(4));
    assert_eq!(t.kind(), TaskKind::UartDrain);
    let mut b = Bridge::new(8);
    let mut lb = LineBuffer::new(16);
    assert_eq!(b.push(0x61), Ok(None));
    assert_eq!(b.push(0x62), Ok(None));
    let completed = t.poll(&mut b, &mut lb);
    assert!(!completed);
    assert_eq!(b.len(), 0);
    assert_eq!(b.take_waker(), Some(4));
    assert_eq!(lb.len(), 2);
    assert_eq!(lb.byte_at(0), 0x61);
    assert_eq!(lb.byte_at(1), 0x62);
}

#[test]
fn task_poll_example_completes() {
    let t = Task::new(TaskId(0), TaskKind::Example);
    let mut b = Bridge::new(2);
    let mut lb = LineBuffer::new(4);
    assert!(t.poll(&mut b, &mut lb));
    assert_eq!(b.len(), 0);
    assert_eq!(lb.len(), 0);
}
