use axirq::executor::TaskState;
use axirq::runtime::{init_async_irq_runtime, notify_async_uart_irq_handler};

#[test]
fn end_to_end_three_bytes() {
    let mut rt = init_async_irq_runtime(100);
    assert_eq!(rt.drain_state(), Some(TaskState::Runnable));
    notify_async_uart_irq_handler(&mut rt, 0x41);
    notify_async_uart_irq_handler(&mut rt, 0x42);
    notify_async_uart_irq_handler(&mut rt, 0x43);
    assert_eq!(rt.queued_len(), 3);
    rt.run_ready_tasks();
    assert_eq!(rt.queued_len(), 0);
    assert_eq!(rt.buffered_len(), 3);
    assert_eq!(rt.buffered_byte_at(0), 0x41);
    assert_eq!(rt.buffered_byte_at(1), 0x42);
    assert_eq!(rt.buffered_byte_at(2), 0x43);
    assert_eq!(rt.drain_state(), Some(TaskState::Parked));
}

#[test]
fn end_to_end_overflow_150_into_100() {
    let mut rt = init_async_irq_runtime(100);
    for i in 0..150u32 {
        notify_async_uart_irq_handler(&mut rt, (i % 251) as u8);
    }
    assert_eq!(rt.queued_len(), 100);
    // The loss diagnostic was recorded for the 50 dropped bytes.
    assert_eq!(rt.dropped_count(), 50);
    rt.run_ready_tasks();
    // Exactly the oldest 100 bytes come through.
    assert_eq!(rt.buffered_len(), 100);
    for i in 0..100usize {
        assert_eq!(rt.buffered_byte_at(i), (i % 251) as u8);
    }
    assert_eq!(rt.drain_state(), Some(TaskState::Parked));
}

#[test]
fn push_after_park_wakes_drain_again() {
    let mut rt = init_async_irq_runtime(100);
    rt.run_ready_tasks();
    assert_eq!(rt.drain_state(), Some(TaskState::Parked));
    // The parked drain task left its waker registered; the ISR push fires it.
    notify_async_uart_irq_handler(&mut rt, 0x5a);
    assert_eq!(rt.drain_state(), Some(TaskState::Runnable));
    rt.run_ready_tasks();
    assert_eq!(rt.drain_state(), Some(TaskState::Parked));
    assert_eq!(rt.buffered_len(), 1);
    assert_eq!(rt.buffered_byte_at(0), 0x5a);
}

#[test]
fn idle_run_changes_nothing() {
    let mut rt = init_async_irq_runtime(10);
    rt.run_ready_tasks();
    let before = rt.buffered_len();
    rt.run_ready_tasks();
    assert_eq!(rt.buffered_len(), before);
    assert_eq!(rt.drain_state(), Some(TaskState::Parked));
}

#[test]
fn console_reader_pops_in_order() {
    let mut rt = init_async_irq_runtime(16);
    notify_async_uart_irq_handler(&mut rt, 1);
    notify_async_uart_irq_handler(&mut rt, 2);
    rt.run_ready_tasks();
    assert_eq!(rt.pop_buffered(), Some(1));
    assert_eq!(rt.pop_buffered(), Some(2));
    assert_eq!(rt.pop_buffered(), None);
}
