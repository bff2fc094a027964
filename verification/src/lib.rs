//! A verified model of a processor core's Debug Control Block (DCB): a fixed
//! block of four 32-bit hardware registers together with the control
//! operations built on top of it (enable/disable tracing, query whether a
//! debugger is attached).
//!
//! The register file is modelled as plain values with per-slot access-mode
//! types, so that misuse (reading the write-only slot, holding two live
//! handles to the one block) is impossible to express or is rejected when a
//! handle is acquired. The bit-level behaviour of every operation is stated
//! in its contract and proved. The memory-mapped implementation, which
//! performs the same operations through volatile accesses at the block's
//! fixed address, lives in the surrounding application layer and reuses the
//! verified bit computations from this crate.

pub mod dcb;
pub mod reg;

pub use crate::dcb::DCB;
pub use crate::dcb::Peripherals;
pub use crate::dcb::RegisterBlock;
pub use crate::dcb::Slot;
pub use crate::dcb::StatusReg;
pub use crate::reg::RwReg;
pub use crate::reg::WoReg;
