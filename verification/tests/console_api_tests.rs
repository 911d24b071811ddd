use axirq::api::{ax_console_read_bytes, ax_console_write_bytes};
use axirq::line_buffer::LineBuffer;
use axirq::pl011::Pl011;

#[test]
fn read_maps_carriage_return_to_line_feed() {
    let mut lb = LineBuffer::new(16);
    assert!(lb.push_byte(b'a'));
    assert!(lb.push_byte(b'\r'));
    assert!(lb.push_byte(b'b'));
    let mut buf = vec![0u8; 8];
    let n = ax_console_read_bytes(&mut lb, &mut buf);
    assert_eq!(n, 3);
    assert_eq!(&buf[..3], b"a\nb");
    assert_eq!(&buf[3..], &[0u8; 5]);
}

#[test]
fn read_stops_at_buffer_length() {
    let mut lb = LineBuffer::new(16);
    for i in 1..=5u8 {
        assert!(lb.push_byte(i));
    }
    let mut buf = vec![0u8; 3];
    let n = ax_console_read_bytes(&mut lb, &mut buf);
    assert_eq!(n, 3);
    assert_eq!(buf, vec![1, 2, 3]);
    assert_eq!(lb.len(), 2);
}

#[test]
fn read_from_empty_console_returns_zero() {
    let mut lb = LineBuffer::new(16);
    let mut buf = vec![9u8; 4];
    let n = ax_console_read_bytes(&mut lb, &mut buf);
    assert_eq!(n, 0);
    assert_eq!(buf, vec![9, 9, 9, 9]);
}

#[test]
fn write_reports_all_bytes_written() {
    let mut u = Pl011::new();
    let n = ax_console_write_bytes(&mut u, b"ok\n");
    assert_eq!(n, 3);
    let expected = b"ok\r\n";
    assert_eq!(u.tx_len(), expected.len());
    for (i, c) in expected.iter().enumerate() {
        assert_eq!(u.tx_byte_at(i), *c);
    }
}
