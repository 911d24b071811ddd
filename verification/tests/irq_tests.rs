use axirq::irq::{dispatch_irq_common, register_handler_common, HandlerTable, IrqHandler};
use axirq::x86_pc::{
    dispatch_irq, platform_init, platform_init_secondary, raw_apic_id, register_handler,
    set_enable, MAX_IRQ_COUNT,
};

#[test]
fn registration_rejects_second_handler() {
    let mut t = HandlerTable::new();
    let mut a = platform_init(false);
    assert!(register_handler_common(&mut t, &mut a, 5, IrqHandler::External(1)));
    // The second registration fails and the first handler stays installed.
    assert!(!register_handler_common(&mut t, &mut a, 5, IrqHandler::External(2)));
    assert_eq!(dispatch_irq_common(&t, 5), Some(IrqHandler::External(1)));
}

#[test]
fn registration_rejects_out_of_range() {
    let mut t = HandlerTable::new();
    let mut a = platform_init(false);
    assert!(!register_handler_common(&mut t, &mut a, MAX_IRQ_COUNT, IrqHandler::External(1)));
    assert!(!register_handler_common(&mut t, &mut a, 100_000, IrqHandler::External(1)));
}

#[test]
fn registration_unmasks_the_line() {
    let mut t = HandlerTable::new();
    let mut a = platform_init(true);
    assert!(!a.io_enabled(4));
    assert!(register_handler(&mut t, &mut a, 4, IrqHandler::UartReceive));
    assert!(a.io_enabled(4));
    assert!(!a.io_enabled(5));
}

#[test]
fn dispatch_unhandled_is_none() {
    let t = HandlerTable::new();
    assert_eq!(dispatch_irq_common(&t, 7), None);
    assert_eq!(dispatch_irq_common(&t, 100_000), None);
}

#[test]
fn dispatch_acknowledges_exactly_once() {
    let mut t = HandlerTable::new();
    let mut a = platform_init(false);
    assert!(register_handler(&mut t, &mut a, 9, IrqHandler::External(4)));
    assert_eq!(a.eoi_count(), 0);
    assert_eq!(dispatch_irq(&mut a, &t, 9), Some(IrqHandler::External(4)));
    assert_eq!(a.eoi_count(), 1);
    // Unhandled vectors are still acknowledged, never fatal.
    assert_eq!(dispatch_irq(&mut a, &t, 10), None);
    assert_eq!(a.eoi_count(), 2);
}

#[test]
fn set_enable_skips_lapic_vectors() {
    let mut a = platform_init(false);
    set_enable(&mut a, 0x30, true);
    assert!(a.io_enabled(0x30));
    set_enable(&mut a, 0x30, false);
    assert!(!a.io_enabled(0x30));
    // Vectors the local APIC owns are never masked through this path.
    set_enable(&mut a, 0xf0, true);
    assert!(!a.io_enabled(0xf0));
}

#[test]
fn platform_init_boot_state() {
    let a = platform_init(true);
    assert!(a.is_x2apic());
    assert!(a.pic_disabled());
    assert!(a.lapic_enabled());
    assert_eq!(a.eoi_count(), 0);
    let b = platform_init(false);
    assert!(!b.is_x2apic());
}

#[test]
fn platform_init_secondary_enables_lapic_only() {
    let mut a = platform_init(false);
    set_enable(&mut a, 3, true);
    platform_init_secondary(&mut a);
    assert!(a.lapic_enabled());
    assert!(a.io_enabled(3));
    assert!(!a.is_x2apic());
}

#[test]
fn raw_apic_id_encoding() {
    assert_eq!(raw_apic_id(true, 5), 5);
    assert_eq!(raw_apic_id(false, 5), 5 << 24);
    assert_eq!(raw_apic_id(false, 0xff), 0xff00_0000);
    assert_eq!(raw_apic_id(true, 0), 0);
}
