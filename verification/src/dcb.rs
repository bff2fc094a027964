//! The Debug Control Block: its register file and the control operations.
//!
//! The block is four consecutive 32-bit slots at a fixed, hardware-defined
//! base address (byte offsets 0, 4, 8 and 12). This module models the block
//! as plain values with the hardware's access discipline: the Selector slot
//! is write-only, the Control/Status slot clears two of its status flags on
//! every read, and at most one live handle to the block exists at a time.
//! The memory-mapped implementation in the application layer performs the
//! same operations as volatile accesses at the block's real address; the bit
//! computations it writes back are the verified functions of this module.

use vstd::prelude::*;

use crate::reg::RwReg;
use crate::reg::WoReg;

verus! {

/// Bit position of the trace-enable flag (TRCENA) in the Exception/Monitor
/// Control slot (DEMCR).
pub const TRACE_ENABLE_BIT: u32 = 24;

/// Mask of the trace-enable flag: bit 24 of DEMCR.
pub const DEMCR_TRCENA: u32 = 1u32 << TRACE_ENABLE_BIT;

/// Mask of the debugger-attached flag: bit 0 of the Control/Status slot
/// (DHCSR), set while a debugger is halting or controlling the core.
pub const DHCSR_DEBUGGER_ATTACHED: u32 = 1;

/// Mask of the reset-occurred status flag (S_RESET_ST): bit 25 of DHCSR.
/// The hardware clears it as a side effect of every read of DHCSR.
pub const DHCSR_S_RESET_ST: u32 = 1u32 << 25;

/// Mask of the retire-occurred status flag (S_RETIRE_ST): bit 24 of DHCSR.
/// The hardware clears it as a side effect of every read of DHCSR.
pub const DHCSR_S_RETIRE_ST: u32 = 1u32 << 24;

/// True when bit `i` of `w` is set.
pub open spec fn bit_is_set(w: u32, i: u32) -> bool {
    w & (1u32 << i) != 0
}

/// The Exception/Monitor Control value after enabling trace: the
/// trace-enable bit set, every other bit kept.
pub open spec fn with_trace_enabled(w: u32) -> u32 {
    w | DEMCR_TRCENA
}

/// The Exception/Monitor Control value after disabling trace: the
/// trace-enable bit cleared, every other bit kept.
pub open spec fn with_trace_disabled(w: u32) -> u32 {
    w & !DEMCR_TRCENA
}

/// The Control/Status slot (DHCSR): read-write, but every read is
/// destructive — the hardware clears the reset-occurred and retire-occurred
/// status flags as a side effect of the read itself, not of any software
/// logic. Observing status through `read` therefore consumes those two
/// transient flags; the slot must not be polled as if reads were pure.
pub struct StatusReg {
    value: u32,
}

impl View for StatusReg {
    type V = u32;

    closed spec fn view(&self) -> u32 {
        self.value
    }
}

impl StatusReg {
    /// A fresh slot holding `value`, the state the hardware powered up with.
    pub fn new(value: u32) -> (r: StatusReg)
        ensures
            r@ == value,
    {
        StatusReg { value }
    }

    /// One read access: returns the slot's current value and, as the
    /// hardware does, clears the reset-occurred and retire-occurred flags.
    pub fn read(&mut self) -> (r: u32)
        ensures
            r == old(self)@,
            final(self)@ == old(self)@ & !(DHCSR_S_RESET_ST | DHCSR_S_RETIRE_ST),
    {
        let v = self.value;
        self.value = v & !(DHCSR_S_RESET_ST | DHCSR_S_RETIRE_ST);
        v
    }

    /// One write access: unconditionally overwrites the slot.
    pub fn write(&mut self, value: u32)
        ensures
            final(self)@ == value,
    {
        self.value = value;
    }
}

/// Register block: the four 32-bit slots of the Debug Control Block, in
/// hardware layout order.
pub struct RegisterBlock {
    /// Debug Halting Control and Status (byte offset 0, read-write;
    /// reads are destructive, see `StatusReg`)
    pub dhcsr: StatusReg,
    /// Debug Core Register Selector (byte offset 4, write-only)
    pub dcrsr: WoReg,
    /// Debug Core Register Data (byte offset 8, read-write)
    pub dcrdr: RwReg,
    /// Debug Exception and Monitor Control (byte offset 12, read-write)
    pub demcr: RwReg,
}

/// The four slots of the register block, by name.
#[derive(Clone, Copy)]
pub enum Slot {
    /// Control/Status (DHCSR), byte offset 0, read-write
    ControlStatus,
    /// Selector (DCRSR), byte offset 4, write-only
    Selector,
    /// Data (DCRDR), byte offset 8, read-write
    Data,
    /// Exception/Monitor Control (DEMCR), byte offset 12, read-write
    ExceptionMonitor,
}

impl RegisterBlock {
    /// The current value of a slot, for specifications.
    pub open spec fn slot_value(&self, slot: Slot) -> u32 {
        match slot {
            Slot::ControlStatus => self.dhcsr@,
            Slot::Selector => self.dcrsr@,
            Slot::Data => self.dcrdr@,
            Slot::ExceptionMonitor => self.demcr@,
        }
    }

    /// A fresh block whose slots hold the given power-up values.
    pub fn new(dhcsr: u32, dcrsr: u32, dcrdr: u32, demcr: u32) -> (r: RegisterBlock)
        ensures
            r.dhcsr@ == dhcsr,
            r.dcrsr@ == dcrsr,
            r.dcrdr@ == dcrdr,
            r.demcr@ == demcr,
    {
        RegisterBlock {
            dhcsr: StatusReg::new(dhcsr),
            dcrsr: WoReg::new(dcrsr),
            dcrdr: RwReg::new(dcrdr),
            demcr: RwReg::new(demcr),
        }
    }

    /// Reads a slot by name. Valid only for the read-write slots: a request
    /// to read the write-only Selector slot is rejected with `None` and
    /// performs no access. Reading the Control/Status slot is destructive
    /// (see `StatusReg::read`).
    pub fn read_slot(&mut self, slot: Slot) -> (r: Option<u32>)
        ensures
            (match slot {
                Slot::Selector => r is None,
                _ => r == Some(old(self).slot_value(slot)),
            }),
            (slot is ControlStatus ==> final(self).dhcsr@ == old(self).dhcsr@ & !(
            DHCSR_S_RESET_ST | DHCSR_S_RETIRE_ST)),
            !(slot is ControlStatus) ==> final(self).dhcsr@ == old(self).dhcsr@,
            final(self).dcrsr@ == old(self).dcrsr@,
            final(self).dcrdr@ == old(self).dcrdr@,
            final(self).demcr@ == old(self).demcr@,
    {
        match slot {
            Slot::ControlStatus => Some(self.dhcsr.read()),
            Slot::Selector => None,
            Slot::Data => Some(self.dcrdr.read()),
            Slot::ExceptionMonitor => Some(self.demcr.read()),
        }
    }

    /// Writes a slot by name: one write access that overwrites the slot and
    /// leaves every other slot untouched. Every slot of this block is
    /// writable (read-write or write-only).
    pub fn write_slot(&mut self, slot: Slot, value: u32)
        ensures
            final(self).slot_value(slot) == value,
            forall|s: Slot| s != slot ==> #[trigger] final(self).slot_value(s) == old(
            self).slot_value(s),
    {
        match slot {
            Slot::ControlStatus => self.dhcsr.write(value),
            Slot::Selector => self.dcrsr.write(value),
            Slot::Data => self.dcrdr.write(value),
            Slot::ExceptionMonitor => self.demcr.write(value),
        }
    }
}

/// An exclusive handle to the Debug Control Block.
///
/// At most one `DCB` is live at a time: the only way to obtain one is
/// `Peripherals::take_dcb`, which refuses a second acquisition while the
/// first handle is out. The handle's view (`@`) is the register block behind
/// it, so contracts can speak of every slot's value.
pub struct DCB {
    regs: RegisterBlock,
}

impl View for DCB {
    type V = RegisterBlock;

    closed spec fn view(&self) -> RegisterBlock {
        self.regs
    }
}

impl DCB {
    /// Enables TRACE: one read-modify-write of the Exception/Monitor Control
    /// slot that sets the trace-enable bit (TRCENA, bit 24) and leaves every
    /// other bit, and every other slot, unchanged. Required, for example,
    /// before the cycle counter of the data watchpoint unit can run.
    ///
    /// The trace-enable bit survives a soft reset and is cleared only by a
    /// power-cycle, so a prior program run may have left it set; the
    /// read-modify-write is idempotent either way.
    pub fn enable_trace(&mut self)
        ensures
            final(self)@.demcr@ == with_trace_enabled(old(self)@.demcr@),
            final(self)@.demcr@ & DEMCR_TRCENA == DEMCR_TRCENA,
            final(self)@.demcr@ & !DEMCR_TRCENA == old(self)@.demcr@ & !DEMCR_TRCENA,
            final(self)@.dhcsr@ == old(self)@.dhcsr@,
            final(self)@.dcrsr@ == old(self)@.dcrsr@,
            final(self)@.dcrdr@ == old(self)@.dcrdr@,
    {
        let f = |w: u32| -> (r: u32)
            ensures
                r == with_trace_enabled(w),
            { trace_enabled_value(w) };
        self.regs.demcr.modify(f);
        proof {
            let w0 = old(self)@.demcr@;
            assert(with_trace_enabled(w0) & DEMCR_TRCENA == DEMCR_TRCENA && with_trace_enabled(w0)
                & !DEMCR_TRCENA == w0 & !DEMCR_TRCENA) by (bit_vector);
        }
    }

    /// Disables TRACE: one read-modify-write of the Exception/Monitor
    /// Control slot that clears the trace-enable bit (TRCENA, bit 24) and
    /// leaves every other bit, and every other slot, unchanged. See
    /// `enable_trace` for the bit's reset behaviour.
    pub fn disable_trace(&mut self)
        ensures
            final(self)@.demcr@ == with_trace_disabled(old(self)@.demcr@),
            final(self)@.demcr@ & DEMCR_TRCENA == 0,
            final(self)@.demcr@ & !DEMCR_TRCENA == old(self)@.demcr@ & !DEMCR_TRCENA,
            final(self)@.dhcsr@ == old(self)@.dhcsr@,
            final(self)@.dcrsr@ == old(self)@.dcrsr@,
            final(self)@.dcrdr@ == old(self)@.dcrdr@,
    {
        let f = |w: u32| -> (r: u32)
            ensures
                r == with_trace_disabled(w),
            { trace_disabled_value(w) };
        self.regs.demcr.modify(f);
        proof {
            let w0 = old(self)@.demcr@;
            assert(with_trace_disabled(w0) & DEMCR_TRCENA == 0 && with_trace_disabled(w0)
                & !DEMCR_TRCENA == w0 & !DEMCR_TRCENA) by (bit_vector);
        }
    }

    /// Is a debugger attached? Returns whether the debugger-attached flag
    /// (bit 0 of the Control/Status slot) is set at the time of the read.
    ///
    /// Side effect: this query reads the Control/Status slot and therefore
    /// clears the reset-occurred and retire-occurred status flags, exactly as
    /// any read of that slot does. It is not pure and must not be memoized:
    /// a caller also inspecting those transient flags through `read_slot`
    /// will find them consumed.
    ///
    /// Caveat: on some core variants, software-side access to this status
    /// register is implementation defined and reads as "no debugger"
    /// regardless of actual debugger presence. The result is best effort,
    /// hardware- and vendor-dependent.
    pub fn is_debugger_attached(&mut self) -> (r: bool)
        ensures
            r == (old(self)@.dhcsr@ & DHCSR_DEBUGGER_ATTACHED == DHCSR_DEBUGGER_ATTACHED),
            r == bit_is_set(old(self)@.dhcsr@, 0),
            final(self)@.dhcsr@ == old(self)@.dhcsr@ & !(DHCSR_S_RESET_ST | DHCSR_S_RETIRE_ST),
            final(self)@.dcrsr@ == old(self)@.dcrsr@,
            final(self)@.dcrdr@ == old(self)@.dcrdr@,
            final(self)@.demcr@ == old(self)@.demcr@,
    {
        let v = self.regs.dhcsr.read();
        proof {
            assert((v & 1u32 == 1u32) == (v & (1u32 << 0) != 0)) by (bit_vector);
        }
        debugger_attached_value(v)
    }

    /// Reads a slot of the block by name; same contract as
    /// `RegisterBlock::read_slot`, stated over the handle's view.
    pub fn read_slot(&mut self, slot: Slot) -> (r: Option<u32>)
        ensures
            (match slot {
                Slot::Selector => r is None,
                _ => r == Some(old(self)@.slot_value(slot)),
            }),
            (slot is ControlStatus ==> final(self)@.dhcsr@ == old(self)@.dhcsr@ & !(
            DHCSR_S_RESET_ST | DHCSR_S_RETIRE_ST)),
            !(slot is ControlStatus) ==> final(self)@.dhcsr@ == old(self)@.dhcsr@,
            final(self)@.dcrsr@ == old(self)@.dcrsr@,
            final(self)@.dcrdr@ == old(self)@.dcrdr@,
            final(self)@.demcr@ == old(self)@.demcr@,
    {
        self.regs.read_slot(slot)
    }

    /// Writes a slot of the block by name; same contract as
    /// `RegisterBlock::write_slot`, stated over the handle's view.
    pub fn write_slot(&mut self, slot: Slot, value: u32)
        ensures
            final(self)@.slot_value(slot) == value,
            forall|s: Slot| s != slot ==> #[trigger] final(self)@.slot_value(s) == old(
            self)@.slot_value(s),
    {
        self.regs.write_slot(slot, value)
    }
}

/// The Exception/Monitor Control value with the trace-enable bit set and
/// every other bit kept: the computation half of `DCB::enable_trace`, for
/// the memory-mapped implementation to write back inside its volatile
/// read-modify-write.
pub fn trace_enabled_value(w: u32) -> (r: u32)
    ensures
        r == with_trace_enabled(w),
{
    w | DEMCR_TRCENA
}

/// The Exception/Monitor Control value with the trace-enable bit cleared and
/// every other bit kept: the computation half of `DCB::disable_trace`.
pub fn trace_disabled_value(w: u32) -> (r: u32)
    ensures
        r == with_trace_disabled(w),
{
    w & !DEMCR_TRCENA
}

/// Whether a Control/Status value read from the hardware has the
/// debugger-attached flag (bit 0) set: the decision half of
/// `DCB::is_debugger_attached`.
pub fn debugger_attached_value(dhcsr: u32) -> (r: bool)
    ensures
        r == (dhcsr & DHCSR_DEBUGGER_ATTACHED == DHCSR_DEBUGGER_ATTACHED),
{
    dhcsr & DHCSR_DEBUGGER_ATTACHED == DHCSR_DEBUGGER_ATTACHED
}

/// The ownership collaborator: holds the one authoritative handle to the
/// Debug Control Block and hands it out at most once concurrently.
///
/// The hardware block is a single shared resource, so aliased mutable access
/// to it must be structurally impossible. `DCB` has no public constructor;
/// the only way to obtain a handle is `take_dcb`, which yields it exactly
/// when none is outstanding, with no lock and no arbitration — contention is
/// prevented, never paid for. A handle can be given back with `release_dcb`
/// when exclusive, scoped access is needed elsewhere later.
///
/// Constructing a `Peripherals` stands for bringing up one core, with the
/// four register slots holding the given power-up values.
pub struct Peripherals {
    dcb: Option<DCB>,
}

impl Peripherals {
    /// The handle not yet handed out: `None` while a handle is live.
    pub closed spec fn held_dcb(&self) -> Option<DCB> {
        self.dcb
    }

    /// Whether the one `DCB` handle has been taken and is still live.
    pub open spec fn dcb_taken(&self) -> bool {
        self.held_dcb() is None
    }

    /// A fresh core whose Debug Control Block slots hold the given power-up
    /// values, with the `DCB` handle not yet taken.
    pub fn new(dhcsr: u32, dcrsr: u32, dcrdr: u32, demcr: u32) -> (p: Peripherals)
        ensures
            !p.dcb_taken(),
            (p.held_dcb() matches Some(d) && d@.dhcsr@ == dhcsr && d@.dcrsr@ == dcrsr && d@.dcrdr@
                == dcrdr && d@.demcr@ == demcr),
    {
        Peripherals { dcb: Some(DCB { regs: RegisterBlock::new(dhcsr, dcrsr, dcrdr, demcr) }) }
    }

    /// Acquires the one handle to the block. Yields it exactly when no
    /// handle is live; a second acquisition while the first is out is
    /// refused with `None`.
    pub fn take_dcb(&mut self) -> (r: Option<DCB>)
        ensures
            r == old(self).held_dcb(),
            final(self).dcb_taken(),
            old(self).dcb_taken() ==> r is None,
            !old(self).dcb_taken() ==> r is Some,
    {
        self.dcb.take()
    }

    /// Gives the handle back, so that a later `take_dcb` yields it again,
    /// with the register state it had when released.
    pub fn release_dcb(&mut self, dcb: DCB)
        requires
            old(self).dcb_taken(),
        ensures
            !final(self).dcb_taken(),
            final(self).held_dcb() == Some(dcb),
    {
        self.dcb = Some(dcb);
    }
}

/// Law: enabling trace sets the trace-enable bit, and every other bit of the
/// Exception/Monitor Control slot reads unchanged; disabling trace clears
/// that bit, and every other bit reads unchanged.
pub proof fn lemma_trace_toggle_bitwise(w: u32, i: u32)
    by (bit_vector)
    requires
        i < 32,
        i != TRACE_ENABLE_BIT,
    ensures
        bit_is_set(with_trace_enabled(w), TRACE_ENABLE_BIT),
        bit_is_set(with_trace_enabled(w), i) == bit_is_set(w, i),
        !bit_is_set(with_trace_disabled(w), TRACE_ENABLE_BIT),
        bit_is_set(with_trace_disabled(w), i) == bit_is_set(w, i),
{
}

/// Law: enabling trace twice leaves the slot exactly as enabling it once
/// does, and likewise for disabling.
pub proof fn lemma_trace_toggle_idempotent(w: u32)
    by (bit_vector)
    ensures
        with_trace_enabled(with_trace_enabled(w)) == with_trace_enabled(w),
        with_trace_disabled(with_trace_disabled(w)) == with_trace_disabled(w),
{
}

/// Law: when the trace-enable bit starts clear, disabling trace right after
/// enabling it restores the slot exactly — bit 24 back to its pre-enable
/// value, every other bit untouched throughout. (When the bit starts set,
/// the pair clears it instead: see `lemma_trace_last_toggle_wins`.)
pub proof fn lemma_trace_disable_inverts_enable(w: u32)
    by (bit_vector)
    requires
        !bit_is_set(w, TRACE_ENABLE_BIT),
    ensures
        with_trace_disabled(with_trace_enabled(w)) == w,
{
}

/// Law: whatever was toggled before and however often, the slot's final
/// state is decided by the last toggle alone.
pub proof fn lemma_trace_last_toggle_wins(w: u32)
    by (bit_vector)
    ensures
        with_trace_disabled(with_trace_enabled(w)) == with_trace_disabled(w),
        with_trace_enabled(with_trace_disabled(w)) == with_trace_enabled(w),
{
}

} // verus!
