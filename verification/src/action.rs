//! The requests a present operation issues against the outside world.
//!
//! The verified core never performs a foreign call itself: it decides, and
//! each decision appears as one [`Action`] in the order the unverified driver
//! must perform them. This makes every contract about "what the engine asks
//! for" a statement about a plain sequence of values.

use vstd::prelude::*;

verus! {

/// One request against the display service or the system, in the order the
/// driver must issue them.
#[derive(Clone, Copy, Debug, PartialEq, Eq, Structural)]
pub enum Action {
    /// Unmap the shared-memory region with the given system id from this
    /// process.
    UnmapSegment { id: u64 },
    /// Release the system identifier of a shared-memory region.
    ReleaseId { id: u64 },
    /// Allocate and map a fresh shared-memory region of `size` bytes.
    AllocateSegment { size: u64 },
    /// Copy `size` bytes of pixel data into the held shared-memory region.
    WritePixels { size: u64 },
    /// Create a display-service image descriptor bound to the shared-memory
    /// region with the given system id.
    CreateSharedImage { id: u64, width: u16, height: u16 },
    /// Hand the shared image to the display service's shared-memory draw
    /// entry point.
    DrawShared { width: u16, height: u16 },
    /// Build a protocol-level image descriptor directly over the caller's
    /// pixel bytes, `stride` bytes per row.
    CreateImageFromBytes { width: u16, height: u16, stride: u32 },
    /// Hand the byte-backed image to the display service's non-shared draw
    /// entry point.
    Draw { width: u16, height: u16 },
    /// Destroy the transient byte-backed image descriptor.
    DestroyImage,
}

} // verus!
