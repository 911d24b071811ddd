use axirq::executor::TaskState;
use axirq::irq::{dispatch_irq_common, HandlerTable, IrqHandler};
use axirq::line_buffer::LineBuffer;
use axirq::runtime::init_async_irq_runtime;
use axirq::x86_pc::platform_init;
use axirq::{pl011, uart16550};

#[test]
fn pl011_putchar_expands_newline() {
    let mut u = pl011::Pl011::new();
    pl011::putchar(&mut u, b'a');
    pl011::putchar(&mut u, b'\n');
    assert_eq!(u.tx_len(), 3);
    assert_eq!(u.tx_byte_at(0), b'a');
    assert_eq!(u.tx_byte_at(1), b'\r');
    assert_eq!(u.tx_byte_at(2), b'\n');
}

#[test]
fn pl011_write_bytes_expands_each_newline() {
    let mut u = pl011::Pl011::new();
    pl011::write_bytes(&mut u, b"a\nb\n");
    let expected = b"a\r\nb\r\n";
    assert_eq!(u.tx_len(), expected.len());
    for (i, c) in expected.iter().enumerate() {
        assert_eq!(u.tx_byte_at(i), *c);
    }
}

#[test]
fn pl011_irq_handler_feeds_bridge_and_drain() {
    let mut rt = init_async_irq_runtime(100);
    let mut u = pl011::Pl011::new();
    u.device_receive(0x31);
    u.device_receive(0x32);
    assert!(u.is_receive_interrupt());
    pl011::uart_irq_handler(&mut u, &mut rt);
    assert_eq!(u.rx_len(), 0);
    assert!(!u.is_receive_interrupt());
    assert_eq!(rt.queued_len(), 2);
    rt.run_ready_tasks();
    assert_eq!(rt.buffered_len(), 2);
    assert_eq!(rt.buffered_byte_at(0), 0x31);
    assert_eq!(rt.buffered_byte_at(1), 0x32);
    assert_eq!(rt.drain_state(), Some(TaskState::Parked));
}

#[test]
fn pl011_irq_handler_without_pending_interrupt_reads_nothing() {
    let mut rt = init_async_irq_runtime(8);
    let mut u = pl011::Pl011::new();
    pl011::uart_irq_handler(&mut u, &mut rt);
    assert_eq!(rt.queued_len(), 0);
}

#[test]
fn pl011_wakes_parked_drain_task() {
    let mut rt = init_async_irq_runtime(8);
    rt.run_ready_tasks();
    assert_eq!(rt.drain_state(), Some(TaskState::Parked));
    let mut u = pl011::Pl011::new();
    u.device_receive(0x55);
    pl011::uart_irq_handler(&mut u, &mut rt);
    assert_eq!(rt.drain_state(), Some(TaskState::Runnable));
}

#[test]
fn pl011_init_registers_uart_handler() {
    let mut t = HandlerTable::new();
    let mut a = platform_init(false);
    pl011::init(&mut t, &mut a);
    assert_eq!(
        dispatch_irq_common(&t, pl011::UART_IRQ_NUM),
        Some(IrqHandler::UartReceive)
    );
    assert!(a.io_enabled(pl011::UART_IRQ_NUM));
}

#[test]
fn pl011_read_bytes_fills_prefix() {
    let mut lb = LineBuffer::new(16);
    assert!(lb.push_byte(1));
    assert!(lb.push_byte(2));
    let mut buf = vec![0u8; 4];
    let n = pl011::read_bytes(&mut lb, &mut buf);
    assert_eq!(n, 2);
    assert_eq!(buf, vec![1, 2, 0, 0]);
    assert_eq!(lb.len(), 0);
}

#[test]
fn pl011_getchar_pops_line_buffer() {
    let mut lb = LineBuffer::new(4);
    assert!(lb.push_byte(0x61));
    assert_eq!(pl011::getchar(&mut lb), Some(0x61));
    assert_eq!(pl011::getchar(&mut lb), None);
}

#[test]
fn uart16550_init_divisor_at_115200() {
    let mut u = uart16550::Uart16550::new(0x3f8);
    uart16550::init(&mut u);
    assert_eq!(u.divisor(), 1);
}

#[test]
fn uart16550_line_status_tracks_fifo() {
    let mut u = uart16550::Uart16550::new(0x3f8);
    assert_eq!(u.line_sts() & uart16550::LINE_STS_INPUT_FULL, 0);
    assert_ne!(u.line_sts() & uart16550::LINE_STS_OUTPUT_EMPTY, 0);
    u.device_receive(7);
    assert_ne!(u.line_sts() & uart16550::LINE_STS_INPUT_FULL, 0);
    assert_eq!(u.getchar(), Some(7));
    assert_eq!(u.getchar(), None);
}

#[test]
fn uart16550_write_bytes_expands_newline() {
    let mut u = uart16550::Uart16550::new(0x3f8);
    uart16550::write_bytes(&mut u, b"hi\n");
    let expected = b"hi\r\n";
    assert_eq!(u.tx_len(), expected.len());
    for (i, c) in expected.iter().enumerate() {
        assert_eq!(u.tx_byte_at(i), *c);
    }
}

#[test]
fn uart16550_read_bytes_polls_the_device() {
    let mut u = uart16550::Uart16550::new(0x3f8);
    u.device_receive(3);
    u.device_receive(4);
    u.device_receive(5);
    let mut buf = vec![0u8; 2];
    let n = uart16550::read_bytes(&mut u, &mut buf);
    assert_eq!(n, 2);
    assert_eq!(buf, vec![3, 4]);
    assert_eq!(uart16550::getchar(&mut u), Some(5));
}

#[test]
fn uart16550_irq_handler_fills_line_buffer() {
    let mut u = uart16550::Uart16550::new(0x3f8);
    let mut lb = LineBuffer::new(1024);
    u.device_receive(b'x');
    u.device_receive(b'y');
    uart16550::uart_irq_handler(&mut u, &mut lb);
    assert_eq!(lb.len(), 2);
    assert_eq!(lb.byte_at(0), b'x');
    assert_eq!(lb.byte_at(1), b'y');
    assert_eq!(u.getchar(), None);
}

#[test]
fn uart16550_irq_handler_respects_buffer_capacity() {
    let mut u = uart16550::Uart16550::new(0x3f8);
    let mut lb = LineBuffer::new(2);
    for i in 0..5u8 {
        u.device_receive(i);
    }
    uart16550::uart_irq_handler(&mut u, &mut lb);
    assert_eq!(lb.len(), 2);
    assert_eq!(lb.byte_at(0), 0);
    assert_eq!(lb.byte_at(1), 1);
    assert_eq!(u.getchar(), None);
}
