use axirq::bridge::{Bridge, Full};

#[test]
fn fifo_order_push_then_pop() {
    let mut b = Bridge::new(10);
    assert_eq!(b.push(0x01), Ok(None));
    assert_eq!(b.push(0x02), Ok(None));
    assert_eq!(b.push(0x03), Ok(None));
    assert_eq!(b.len(), 3);
    assert_eq!(b.pop(), Some(0x01));
    assert_eq!(b.pop(), Some(0x02));
    assert_eq!(b.pop(), Some(0x03));
    assert_eq!(b.pop(), None);
    assert_eq!(b.len(), 0);
}

#[test]
fn bounded_loss_keeps_oldest() {
    let mut b = Bridge::new(5);
    for i in 0..8u8 {
        let r = b.push(i);
        if i < 5 {
            assert_eq!(r, Ok(None));
        } else {
            assert_eq!(r, Err(Full));
        }
        assert!(b.len() <= 5);
    }
    assert_eq!(b.len(), 5);
    assert_eq!(b.dropped_count(), 3);
    for i in 0..5u8 {
        assert_eq!(b.pop(), Some(i));
    }
    assert_eq!(b.pop(), None);
}

#[test]
fn push_fires_registered_waker_exactly_once() {
    let mut b = Bridge::new(4);
    b.register_waker(7);
    assert_eq!(b.push(0xaa), Ok(Some(7)));
    // The slot was emptied by the wake: the next push wakes nobody.
    assert_eq!(b.push(0xbb), Ok(None));
    assert_eq!(b.take_waker(), None);
}

#[test]
fn overflow_wakes_nobody_and_keeps_waker() {
    let mut b = Bridge::new(1);
    assert_eq!(b.push(1), Ok(None));
    b.register_waker(3);
    assert_eq!(b.push(2), Err(Full));
    assert_eq!(b.dropped_count(), 1);
    // The waker survives a failed push.
    assert_eq!(b.take_waker(), Some(3));
}

#[test]
fn last_registered_waker_wins() {
    let mut b = Bridge::new(2);
    b.register_waker(1);
    b.register_waker(2);
    assert_eq!(b.take_waker(), Some(2));
    assert_eq!(b.take_waker(), None);
}

#[test]
fn capacity_one_bridge() {
    let mut b = Bridge::new(1);
    assert_eq!(b.capacity(), 1);
    assert_eq!(b.push(9), Ok(None));
    assert_eq!(b.push(8), Err(Full));
    assert_eq!(b.pop(), Some(9));
    assert_eq!(b.pop(), None);
}

#[test]
fn pop_does_not_touch_waker() {
    let mut b = Bridge::new(2);
    b.register_waker(5);
    assert_eq!(b.push(1), Ok(Some(5)));
    b.register_waker(6);
    assert_eq!(b.pop(), Some(1));
    assert_eq!(b.take_waker(), Some(6));
}
