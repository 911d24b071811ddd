use axirq::async_uart_irq::{async_uart_handler, PollNext, UartStream};
use axirq::bridge::Bridge;
use axirq::line_buffer::LineBuffer;

#[test]
fn poll_ready_returns_oldest_and_clears_waker() {
    let mut b = Bridge::new(4);
    assert_eq!(b.push(0x10), Ok(None));
    assert_eq!(b.push(0x20), Ok(None));
    b.register_waker(9);
    let s = UartStream::new(9);
    assert_eq!(s.poll_next(&mut b), PollNext::Ready(0x10));
    // The stale waker was consumed on delivery.
    assert_eq!(b.take_waker(), None);
}

#[test]
fn poll_empty_suspends_with_waker_registered() {
    let mut b = Bridge::new(4);
    let s = UartStream::new(42);
    assert_eq!(s.poll_next(&mut b), PollNext::Pending);
    assert_eq!(b.take_waker(), Some(42));
}

#[test]
fn push_after_pending_wakes_and_next_poll_delivers() {
    let mut b = Bridge::new(4);
    let s = UartStream::new(3);
    assert_eq!(s.poll_next(&mut b), PollNext::Pending);
    // The ISR push fires the registered waker; the re-poll gets the byte.
    assert_eq!(b.push(0x7f), Ok(Some(3)));
    assert_eq!(s.poll_next(&mut b), PollNext::Ready(0x7f));
    assert_eq!(s.poll_next(&mut b), PollNext::Pending);
}

#[test]
fn drain_copies_bridge_into_line_buffer() {
    let mut b = Bridge::new(10);
    let mut lb = LineBuffer::new(1024);
    for i in 0..4u8 {
        assert_eq!(b.push(i), Ok(None));
    }
    let s = UartStream::new(0);
    async_uart_handler(&s, &mut b, &mut lb);
    assert_eq!(b.len(), 0);
    assert_eq!(b.take_waker(), Some(0));
    assert_eq!(lb.len(), 4);
    for i in 0..4usize {
        assert_eq!(lb.byte_at(i), i as u8);
    }
}

#[test]
fn drain_drops_beyond_line_buffer_capacity() {
    let mut b = Bridge::new(10);
    let mut lb = LineBuffer::new(2);
    for i in 10..15u8 {
        assert_eq!(b.push(i), Ok(None));
    }
    let s = UartStream::new(1);
    async_uart_handler(&s, &mut b, &mut lb);
    // The bridge is drained either way; only the first two bytes fit.
    assert_eq!(b.len(), 0);
    assert_eq!(lb.len(), 2);
    assert_eq!(lb.byte_at(0), 10);
    assert_eq!(lb.byte_at(1), 11);
}

#[test]
fn line_buffer_drop_newest_when_full() {
    let mut lb = LineBuffer::new(3);
    assert!(lb.push_byte(1));
    assert!(lb.push_byte(2));
    assert!(lb.push_byte(3));
    assert!(!lb.push_byte(4));
    assert_eq!(lb.len(), 3);
    assert_eq!(lb.pop_byte(), Some(1));
    assert_eq!(lb.pop_byte(), Some(2));
    assert_eq!(lb.pop_byte(), Some(3));
    assert_eq!(lb.pop_byte(), None);
}
