//! Model of the PC interrupt controllers: the IO APIC's per-vector masks and
//! the local APIC's state, as far as the dispatch path reads and writes them.
//!
//! Programming the real registers (MMIO, port I/O, CPUID probing) is hardware
//! work outside this crate; what is modeled here is the state those registers
//! carry and the decisions made over it: which vectors the IO APIC manages,
//! that controller-managed vectors are never masked through `set_enable`, and
//! that each dispatched interrupt is acknowledged exactly once.

use vstd::prelude::*;

use crate::bridge::sat_inc;
use crate::irq::{dispatch_irq_common, register_handler_common, HandlerTable, IrqHandler};

verus! {

/// The maximum number of IRQs.
pub const MAX_IRQ_COUNT: usize = 256;

/// The local APIC timer vector: the first vector the IO APIC does not manage.
pub const APIC_TIMER_VECTOR: u8 = 0xf0;

/// The local APIC spurious-interrupt vector.
pub const APIC_SPURIOUS_VECTOR: u8 = 0xf1;

/// The local APIC error vector.
pub const APIC_ERROR_VECTOR: u8 = 0xf2;

/// The timer IRQ number.
pub const TIMER_IRQ_NUM: usize = 0xf0;

/// Whether a vector is routed through the IO APIC at all. Vectors from the
/// timer vector upwards belong to the local APIC and are never masked or
/// unmasked through this path.
pub open spec fn io_apic_managed(vector: usize) -> bool {
    vector < APIC_TIMER_VECTOR as usize
}

/// The controller state the dispatch path depends on.
pub struct ApicState {
    io_apic_enabled: Vec<bool>,
    is_x2apic: bool,
    pic_disabled: bool,
    lapic_enabled: bool,
    eoi_count: u64,
}

impl ApicState {
    /// Whether the IO APIC redirection entry for `vector` is unmasked.
    pub closed spec fn spec_io_enabled(&self, vector: int) -> bool {
        self.io_apic_enabled@[vector]
    }

    /// Whether the CPU runs the local APIC in x2APIC mode (as opposed to
    /// memory-mapped xAPIC mode).
    pub closed spec fn spec_is_x2apic(&self) -> bool {
        self.is_x2apic
    }

    /// Whether the legacy 8259A controllers are masked out.
    pub closed spec fn spec_pic_disabled(&self) -> bool {
        self.pic_disabled
    }

    /// Whether this core's local APIC is enabled.
    pub closed spec fn spec_lapic_enabled(&self) -> bool {
        self.lapic_enabled
    }

    /// How many end-of-interrupt acknowledgements have been issued.
    pub closed spec fn spec_eoi_count(&self) -> nat {
        self.eoi_count as nat
    }

    /// Internal consistency: one mask slot per possible vector.
    pub closed spec fn inv(&self) -> bool {
        self.io_apic_enabled@.len() == MAX_IRQ_COUNT
    }

    pub open spec fn wf(&self) -> bool {
        self.inv()
    }

    /// Whether the IO APIC entry for `vector` is unmasked, for observation.
    pub fn io_enabled(&self, vector: usize) -> (r: bool)
        requires
            self.wf(),
            vector < MAX_IRQ_COUNT,
        ensures
            r == self.spec_io_enabled(vector as int),
    {
        self.io_apic_enabled[vector]
    }

    pub fn is_x2apic(&self) -> (r: bool)
        ensures
            r == self.spec_is_x2apic(),
    {
        self.is_x2apic
    }

    pub fn pic_disabled(&self) -> (r: bool)
        ensures
            r == self.spec_pic_disabled(),
    {
        self.pic_disabled
    }

    pub fn lapic_enabled(&self) -> (r: bool)
        ensures
            r == self.spec_lapic_enabled(),
    {
        self.lapic_enabled
    }

    /// How many end-of-interrupt acknowledgements have been issued.
    pub fn eoi_count(&self) -> (r: u64)
        ensures
            r as nat == self.spec_eoi_count(),
    {
        self.eoi_count
    }
}

/// The mode, PIC and local-APIC configuration is the same in both states.
pub open spec fn same_config(a: ApicState, b: ApicState) -> bool {
    &&& a.spec_is_x2apic() == b.spec_is_x2apic()
    &&& a.spec_pic_disabled() == b.spec_pic_disabled()
    &&& a.spec_lapic_enabled() == b.spec_lapic_enabled()
}

/// Every IO APIC mask is the same in both states.
pub open spec fn io_same(a: ApicState, b: ApicState) -> bool {
    forall|v: int| 0 <= v < MAX_IRQ_COUNT ==> a.spec_io_enabled(v) == b.spec_io_enabled(v)
}

/// The IO APIC masks of `b` are those of `a` with `vector` set to `enabled`
/// where the IO APIC manages it, and untouched everywhere else.
pub open spec fn io_updated(a: ApicState, b: ApicState, vector: usize, enabled: bool) -> bool {
    forall|v: int|
        0 <= v < MAX_IRQ_COUNT ==> b.spec_io_enabled(v) == (if v == vector as int
            && io_apic_managed(vector) {
            enabled
        } else {
            a.spec_io_enabled(v)
        })
}

/// Brings the controllers into their boot configuration: the legacy 8259A
/// controllers masked, the local APIC enabled in the mode the CPU offers, and
/// every IO APIC redirection entry still masked. Whether x2APIC mode is
/// available is a property of the machine, probed outside this crate and
/// passed in.
pub fn init_primary(has_x2apic: bool) -> (a: ApicState)
    ensures
        a.wf(),
        a.spec_is_x2apic() == has_x2apic,
        a.spec_pic_disabled(),
        a.spec_lapic_enabled(),
        a.spec_eoi_count() == 0,
        forall|v: int| 0 <= v < MAX_IRQ_COUNT ==> !a.spec_io_enabled(v),
{
    ApicState {
        io_apic_enabled: vec![false;MAX_IRQ_COUNT],
        is_x2apic: has_x2apic,
        pic_disabled: true,
        lapic_enabled: true,
        eoi_count: 0,
    }
}

/// Enables or disables the given IRQ at the IO APIC. A no-op for vectors the
/// IO APIC does not manage (the local APIC's own vectors, timer and above,
/// must never be masked through this path).
pub fn set_enable(apic: &mut ApicState, vector: usize, enabled: bool)
    requires
        old(apic).wf(),
    ensures
        final(apic).wf(),
        same_config(*old(apic), *final(apic)),
        final(apic).spec_eoi_count() == old(apic).spec_eoi_count(),
        io_updated(*old(apic), *final(apic), vector, enabled),
{
    if vector < APIC_TIMER_VECTOR as usize {
        self::io_apic_write(apic, vector, enabled);
    }
}

/// Writes one IO APIC redirection-entry mask in the model.
fn io_apic_write(apic: &mut ApicState, vector: usize, enabled: bool)
    requires
        old(apic).wf(),
        vector < MAX_IRQ_COUNT,
    ensures
        final(apic).wf(),
        same_config(*old(apic), *final(apic)),
        final(apic).spec_eoi_count() == old(apic).spec_eoi_count(),
        forall|v: int|
            0 <= v < MAX_IRQ_COUNT ==> final(apic).spec_io_enabled(v) == (if v == vector as int {
                enabled
            } else {
                old(apic).spec_io_enabled(v)
            }),
{
    apic.io_apic_enabled[vector] = enabled;
}

/// Registers an IRQ handler for the given vector and unmasks the line on
/// success; returns `false`, changing nothing, when the vector is out of
/// range or already has a handler.
pub fn register_handler(
    table: &mut HandlerTable,
    apic: &mut ApicState,
    vector: usize,
    handler: IrqHandler,
) -> (ok: bool)
    requires
        old(table).wf(),
        old(apic).wf(),
    ensures
        final(table).wf(),
        final(apic).wf(),
        ok == (vector < MAX_IRQ_COUNT && old(table)@[vector as int] is None),
        final(table)@ == (if vector < MAX_IRQ_COUNT && old(table)@[vector as int] is None {
            old(table)@.update(vector as int, Some(handler))
        } else {
            old(table)@
        }),
        ok ==> same_config(*old(apic), *final(apic)) && final(apic).spec_eoi_count() == old(
            apic,
        ).spec_eoi_count() && io_updated(*old(apic), *final(apic), vector, true),
        !ok ==> *final(apic) == *old(apic),
{
    register_handler_common(table, apic, vector, handler)
}

/// Dispatches the IRQ: looks the vector up in the handler table and hands the
/// capability back for the caller to invoke; afterwards the local APIC is
/// acknowledged exactly once so further interrupts of that or lower priority
/// can be delivered. An unknown vector dispatches to nobody but is still
/// acknowledged.
pub fn dispatch_irq(apic: &mut ApicState, table: &HandlerTable, vector: usize) -> (r: Option<
    IrqHandler,
>)
    requires
        old(apic).wf(),
        table.wf(),
    ensures
        final(apic).wf(),
        r == (if vector < MAX_IRQ_COUNT {
            table@[vector as int]
        } else {
            None::<IrqHandler>
        }),
        same_config(*old(apic), *final(apic)),
        io_same(*old(apic), *final(apic)),
        final(apic).spec_eoi_count() == sat_inc(old(apic).spec_eoi_count()),
{
    let r = dispatch_irq_common(table, vector);
    end_of_interrupt(apic);
    r
}

/// Acknowledges the current interrupt at the local APIC.
pub fn end_of_interrupt(apic: &mut ApicState)
    requires
        old(apic).wf(),
    ensures
        final(apic).wf(),
        same_config(*old(apic), *final(apic)),
        io_same(*old(apic), *final(apic)),
        final(apic).spec_eoi_count() == sat_inc(old(apic).spec_eoi_count()),
{
    if apic.eoi_count < u64::MAX {
        apic.eoi_count = apic.eoi_count + 1;
    }
}

/// The register encoding of a physical APIC identifier: the raw byte in
/// x2APIC mode, the byte shifted into bits 24 to 31 in xAPIC mode.
pub fn raw_apic_id(is_x2apic: bool, id_u8: u8) -> (r: u32)
    ensures
        r as int == (if is_x2apic {
            id_u8 as int
        } else {
            (id_u8 as int) * 0x100_0000
        }),
{
    if is_x2apic {
        id_u8 as u32
    } else {
        let id = id_u8 as u32;
        proof {
            assert(id <= 255 ==> id << 24u32 == id * 0x100_0000) by (bit_vector);
        }
        id << 24
    }
}

/// Initializes the platform's interrupt controllers for the primary CPU.
/// (The timer's calibration is time-keeping work outside this crate.)
pub fn platform_init(has_x2apic: bool) -> (a: ApicState)
    ensures
        a.wf(),
        a.spec_is_x2apic() == has_x2apic,
        a.spec_pic_disabled(),
        a.spec_lapic_enabled(),
        a.spec_eoi_count() == 0,
        forall|v: int| 0 <= v < MAX_IRQ_COUNT ==> !a.spec_io_enabled(v),
{
    init_primary(has_x2apic)
}

/// Initializes the platform for a secondary CPU: enables that core's local
/// APIC and touches nothing else.
pub fn platform_init_secondary(apic: &mut ApicState)
    requires
        old(apic).wf(),
    ensures
        final(apic).wf(),
        final(apic).spec_lapic_enabled(),
        final(apic).spec_is_x2apic() == old(apic).spec_is_x2apic(),
        final(apic).spec_pic_disabled() == old(apic).spec_pic_disabled(),
        final(apic).spec_eoi_count() == old(apic).spec_eoi_count(),
        io_same(*old(apic), *final(apic)),
{
    apic.lapic_enabled = true;
}

} // verus!
