//! Plain-value models of the native allocation engine's heap objects.
//!
//! The engine owns every heap: all this layer ever holds is the engine's
//! handle, carried here as a plain address so that contracts can speak about
//! heap identity. The engine itself runs outside the verified boundary; an
//! unverified runtime layer owns the real handles and performs the calls that
//! the rest of this crate describes.
#![allow(nonstandard_style)]

use vstd::prelude::*;

verus! {

/// The largest request, in bytes, that the engine's small-object entry point
/// accepts: 128 pointers of 8 bytes each.
pub const MI_SMALL_SIZE_MAX: usize = 128 * 8;

/// Handle to one engine heap.
///
/// A heap is an opaque arena managed by the native allocation engine; its
/// identity is the engine-returned handle value. This layer never creates or
/// destroys a heap on its own: a `Created` handle must come from the engine's
/// new-heap entry point, and the variant's `addr` is that handle's address as
/// a plain value. `DefaultHeap` stands for the engine's implicit default
/// heap, the one that pool identifier 0 is permanently bound to.
#[derive(Clone, Copy, PartialEq, Eq, Structural, Debug)]
pub enum mi_heap_t {
    /// The engine's implicit default heap.
    DefaultHeap,
    /// A heap previously returned by the engine's new-heap call, identified
    /// by the address of the returned handle.
    Created { addr: usize },
}

/// One area of heap space: a contiguous region holding blocks of a single
/// size class. The engine reports areas during block visitation; the runtime
/// layer hands them to callers as plain values in this form.
#[derive(Clone, Copy, PartialEq, Eq, Structural, Debug)]
pub struct mi_heap_area_t {
    /// Start address of the area containing heap blocks.
    pub blocks: usize,
    /// Bytes reserved for this area.
    pub reserved: usize,
    /// Bytes of this area currently committed.
    pub committed: usize,
    /// Bytes in use by allocated blocks.
    pub used: usize,
    /// Size in bytes of one block.
    pub block_size: usize,
    /// Size in bytes of a full block including padding and metadata.
    pub full_block_size: usize,
}

impl mi_heap_area_t {
    /// Bytes sitting in freed blocks of this area: committed but not in use.
    pub fn free_bytes(&self) -> (r: usize)
        requires
            self.used <= self.committed,
        ensures
            r == self.committed - self.used,
    {
        self.committed - self.used
    }
}

} // verus!
