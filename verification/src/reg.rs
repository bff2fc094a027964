//! The register slot types.
//!
//! A hardware register block is a sequence of 32-bit slots, each of which
//! permits a fixed set of accesses: read-write or write-only. Each access
//! mode is its own type, so that an access the hardware forbids cannot be
//! written down at all. A slot's current 32-bit value is exposed to
//! specifications through its view (`@`); executable code can observe it only
//! through the operations the slot's access mode permits.
//!
//! On real hardware every one of these accesses is a volatile load or store:
//! it must happen exactly once, in program order, because the location has
//! side effects of its own. This model keeps the same interface — one
//! operation is one access — so contracts proved here carry over to the
//! memory-mapped implementation access for access.

use vstd::prelude::*;

verus! {

/// A 32-bit register slot that may be both read and written.
pub struct RwReg {
    value: u32,
}

impl View for RwReg {
    type V = u32;

    closed spec fn view(&self) -> u32 {
        self.value
    }
}

impl RwReg {
    /// A fresh slot holding `value`, the state the hardware powered up with.
    pub fn new(value: u32) -> (r: RwReg)
        ensures
            r@ == value,
    {
        RwReg { value }
    }

    /// One read access: returns the slot's current value.
    pub fn read(&self) -> (r: u32)
        ensures
            r == self@,
    {
        self.value
    }

    /// One write access: unconditionally overwrites the slot.
    pub fn write(&mut self, value: u32)
        ensures
            final(self)@ == value,
    {
        self.value = value;
    }

    /// A read-modify-write: one read access, then one write access of
    /// `f` applied to the value read.
    ///
    /// The pair is a single logical operation for the caller, but it is not
    /// atomic with respect to other execution contexts: if an interrupt
    /// handler or a second core touches the slot between the read and the
    /// write, that intervening change is silently overwritten. A caller that
    /// needs atomicity must provide its own mutual exclusion around the call.
    pub fn modify<F: FnOnce(u32) -> u32>(&mut self, f: F)
        requires
            call_requires(f, (old(self)@,)),
        ensures
            call_ensures(f, (old(self)@,), final(self)@),
    {
        let v = self.value;
        self.value = f(v);
    }
}

/// A 32-bit register slot that may only be written.
///
/// There is no read operation: a read of a write-only hardware slot is
/// undefined, so this type makes it impossible to express. Specifications
/// may still speak of the last value written through the view (`@`), which
/// is ghost state and produces no access.
pub struct WoReg {
    value: u32,
}

impl View for WoReg {
    type V = u32;

    closed spec fn view(&self) -> u32 {
        self.value
    }
}

impl WoReg {
    /// A fresh slot holding `value`, the state the hardware powered up with.
    pub fn new(value: u32) -> (r: WoReg)
        ensures
            r@ == value,
    {
        WoReg { value }
    }

    /// One write access: unconditionally overwrites the slot.
    pub fn write(&mut self, value: u32)
        ensures
            final(self)@ == value,
    {
        self.value = value;
    }
}

} // verus!
