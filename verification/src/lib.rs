//! A ledger-resident registry of owned, tradable leaf records ("blocks"),
//! indexed through depth-tagged nodes of 32 write-once slots ("stores").
//!
//! The host environment supplies persistent keyed storage, signature
//! verification and a value-transfer primitive; this crate holds the data
//! model, the linking and trading rules, and their proofs.

use vstd::prelude::*;

pub mod block;
pub mod index;
pub mod store;

verus! {

/// Number of slots in every store node.
pub const SLOT_COUNT: usize = 32;

/// Size in bytes of a block's opaque payload.
pub const PAYLOAD_LEN: usize = 512;

/// An opaque identity handle: the address of a participant or of a stored
/// entity. The registry only ever compares handles for equality.
#[derive(Clone, Copy, Debug, PartialEq, Eq, Hash, Structural)]
pub struct Handle(pub u64);

/// The validation failures an operation can report. Every failure aborts the
/// whole operation with no mutation applied.
#[derive(Clone, Copy, Debug, PartialEq, Eq, Structural)]
pub enum RegistryError {
    /// A store was created, or offered as a child, with depth zero.
    InvalidDepth,
    /// A slot index at or beyond the slot count.
    IndexOutOfRange,
    /// The signing identity is not the required owner.
    Unauthorized,
    /// The depths of the two nodes being linked are not consecutive, or a
    /// block was linked into a node whose depth is not one.
    DepthMismatch,
    /// The target slot already holds a link.
    SlotOccupied,
    /// A trade was attempted on a block whose price is zero.
    NotForSale,
    /// The payment sub-step of a trade did not complete.
    PaymentFailed,
}

} // verus!
