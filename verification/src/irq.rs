//! Interrupt management: the platform-independent dispatch table from IRQ
//! number to handler capability.
//!
//! A handler is a tagged capability rather than a stored function pointer:
//! registration is a one-shot write, dispatch is a read-only lookup that
//! returns the capability for the platform glue to invoke. An IRQ with no
//! handler is a diagnosed no-op, never fatal.

use vstd::prelude::*;

use crate::x86_pc::{io_updated, same_config, set_enable, ApicState, MAX_IRQ_COUNT};

verus! {

/// A handler capability: which piece of code a vector is wired to.
#[derive(Clone, Copy, Debug, PartialEq, Eq, Structural)]
pub enum IrqHandler {
    /// Drain the UART's receive FIFO into the byte bridge.
    UartReceive,
    /// A handler supplied from outside this crate, named by tag.
    External(u64),
}

/// The fixed-capacity table mapping IRQ number to handler capability. It is
/// written only during boot-time registration and read on the dispatch path.
pub struct HandlerTable {
    slots: Vec<Option<IrqHandler>>,
}

impl HandlerTable {
    /// One slot per possible IRQ number.
    pub closed spec fn view(&self) -> Seq<Option<IrqHandler>> {
        self.slots@
    }

    pub open spec fn wf(&self) -> bool {
        self@.len() == MAX_IRQ_COUNT
    }

    /// An empty table: no handler on any line.
    pub fn new() -> (t: HandlerTable)
        ensures
            t.wf(),
            forall|i: int| 0 <= i < MAX_IRQ_COUNT ==> t@[i] is None,
    {
        HandlerTable { slots: vec![None;MAX_IRQ_COUNT] }
    }

    /// One-shot registration: fails, changing nothing, when the IRQ number is
    /// out of range or the slot is already taken — the first handler stays
    /// installed.
    pub fn register_handler(&mut self, irq_num: usize, handler: IrqHandler) -> (ok: bool)
        requires
            old(self).wf(),
        ensures
            final(self).wf(),
            ok == (irq_num < MAX_IRQ_COUNT && old(self)@[irq_num as int] is None),
            final(self)@ == (if irq_num < MAX_IRQ_COUNT && old(self)@[irq_num as int] is None {
                old(self)@.update(irq_num as int, Some(handler))
            } else {
                old(self)@
            }),
    {
        if irq_num < MAX_IRQ_COUNT {
            let taken = self.slots[irq_num].is_some();
            if !taken {
                self.slots[irq_num] = Some(handler);
                return true;
            }
        }
        false
    }

    /// The handler registered for the given IRQ number, if any; `None` also
    /// for out-of-range numbers.
    pub fn handler(&self, irq_num: usize) -> (r: Option<IrqHandler>)
        requires
            self.wf(),
        ensures
            r == (if irq_num < MAX_IRQ_COUNT {
                self@[irq_num as int]
            } else {
                None::<IrqHandler>
            }),
    {
        if irq_num < MAX_IRQ_COUNT {
            self.slots[irq_num]
        } else {
            None
        }
    }
}

/// Platform-independent IRQ dispatch: looks up the handler capability for the
/// vector. The caller invokes what comes back; `None` means the interrupt is
/// unhandled and is logged and ignored, never escalated.
pub fn dispatch_irq_common(table: &HandlerTable, irq_num: usize) -> (r: Option<IrqHandler>)
    requires
        table.wf(),
    ensures
        r == (if irq_num < MAX_IRQ_COUNT {
            table@[irq_num as int]
        } else {
            None::<IrqHandler>
        }),
{
    table.handler(irq_num)
}

/// Platform-independent registration: installs the handler and, on success,
/// also unmasks the line at the interrupt controller. Returns `false`, with
/// the table and controller unchanged, when the number is out of range or the
/// line already has a handler; boot continues, the failure is only reported.
pub fn register_handler_common(
    table: &mut HandlerTable,
    apic: &mut ApicState,
    irq_num: usize,
    handler: IrqHandler,
) -> (ok: bool)
    requires
        old(table).wf(),
        old(apic).wf(),
    ensures
        final(table).wf(),
        final(apic).wf(),
        ok == (irq_num < MAX_IRQ_COUNT && old(table)@[irq_num as int] is None),
        final(table)@ == (if irq_num < MAX_IRQ_COUNT && old(table)@[irq_num as int] is None {
            old(table)@.update(irq_num as int, Some(handler))
        } else {
            old(table)@
        }),
        ok ==> same_config(*old(apic), *final(apic)) && final(apic).spec_eoi_count() == old(
            apic,
        ).spec_eoi_count() && io_updated(*old(apic), *final(apic), irq_num, true),
        !ok ==> *final(apic) == *old(apic),
{
    if table.register_handler(irq_num, handler) {
        set_enable(apic, irq_num, true);
        return true;
    }
    false
}

} // verus!
