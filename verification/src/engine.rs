//! The native allocation engine's per-heap call surface, described as data.
//!
//! Verified code cannot touch raw memory, so an allocation is split in two:
//! this crate builds an exact description of the engine call to perform — a
//! [`HeapCall`] — and an unverified runtime layer executes it against the
//! real engine and hands the resulting address back as a [`Block`]. The
//! contracts on the constructors in [`crate::allocator`] pin down, for every
//! operation, exactly which engine entry point is requested, with which
//! arguments, against which heap.

use vstd::prelude::*;

use crate::heap::mi_heap_t;

verus! {

/// A possibly-null owning handle to engine memory: the address an allocation
/// call returned, as a plain value. Address 0 is the failure sentinel — the
/// engine's only way of signalling out-of-memory or a counted-size overflow.
/// Keeping the sentinel behind `is_null` stops call sites from conflating a
/// failed allocation with a usable block.
#[derive(Clone, Copy, PartialEq, Eq, Structural, Debug)]
pub struct Block {
    addr: usize,
}

impl Block {
    /// The address this handle carries; 0 for the failure sentinel.
    pub closed spec fn spec_addr(&self) -> usize {
        self.addr
    }

    /// The null handle: the failure sentinel, and the legal "no block" input
    /// of the reallocation family.
    pub fn null() -> (b: Block)
        ensures
            b.spec_addr() == 0,
    {
        Block { addr: 0 }
    }

    /// Wrap an address handed back by the engine.
    pub fn from_addr(addr: usize) -> (b: Block)
        ensures
            b.spec_addr() == addr,
    {
        Block { addr }
    }

    /// The carried address as a plain value.
    pub fn addr(&self) -> (r: usize)
        ensures
            r == self.spec_addr(),
    {
        self.addr
    }

    /// Whether this handle is the failure sentinel.
    pub fn is_null(&self) -> (r: bool)
        ensures
            r == (self.spec_addr() == 0),
    {
        self.addr == 0
    }
}

/// One engine entry point together with its arguments, named after the
/// engine's own per-heap surface. Sizes and counts are byte values; `p` is a
/// previously returned block (or null, where the engine accepts it); string
/// arguments are addresses of nul-terminated byte strings.
#[derive(Clone, Copy, PartialEq, Eq, Structural, Debug)]
pub enum HeapOp {
    /// Allocate `size` bytes, uninitialized.
    Malloc { size: usize },
    /// Allocate `size` bytes, zero-initialized.
    Zalloc { size: usize },
    /// Allocate `count` zero-initialized items of `size` bytes each.
    Calloc { count: usize, size: usize },
    /// Allocate `count` uninitialized items of `size` bytes each.
    Mallocn { count: usize, size: usize },
    /// Allocate `size` bytes through the small-object fast path.
    MallocSmall { size: usize },
    /// Re-allocate `p` to `new_size` bytes; on failure `p` stays valid.
    Realloc { p: Block, new_size: usize },
    /// Re-allocate `p` to `count * size` bytes.
    Reallocn { p: Block, count: usize, size: usize },
    /// Re-allocate `p` to `new_size` bytes; on failure `p` is freed.
    Reallocf { p: Block, new_size: usize },
    /// Re-allocate zero-initialized memory to `new_size` bytes.
    Rezalloc { p: Block, new_size: usize },
    /// Re-allocate zero-initialized memory to `new_count * size` bytes.
    Recalloc { p: Block, new_count: usize, size: usize },
    /// Duplicate the nul-terminated string at `s` into the heap.
    Strdup { s: usize },
    /// Duplicate at most `n` bytes of the nul-terminated string at `s`.
    Strndup { s: usize, n: usize },
    /// Resolve the file path at `fname` into an engine-allocated string;
    /// `resolved_name` is 0 or the address of a caller-supplied buffer.
    Realpath { fname: usize, resolved_name: usize },
    /// Allocate `size` bytes whose address is a multiple of `alignment`.
    MallocAligned { size: usize, alignment: usize },
    /// Allocate `size` bytes such that address + `offset` is a multiple of
    /// `alignment`.
    MallocAlignedAt { size: usize, alignment: usize, offset: usize },
    /// Zero-initialized variant of `MallocAligned`.
    ZallocAligned { size: usize, alignment: usize },
    /// Zero-initialized variant of `MallocAlignedAt`.
    ZallocAlignedAt { size: usize, alignment: usize, offset: usize },
    /// Counted, zero-initialized variant of `MallocAligned`.
    CallocAligned { count: usize, size: usize, alignment: usize },
    /// Counted, zero-initialized variant of `MallocAlignedAt`.
    CallocAlignedAt { count: usize, size: usize, alignment: usize, offset: usize },
    /// Aligned variant of `Realloc`.
    ReallocAligned { p: Block, new_size: usize, alignment: usize },
    /// Offset-aligned variant of `Realloc`.
    ReallocAlignedAt { p: Block, new_size: usize, alignment: usize, offset: usize },
    /// Aligned variant of `Rezalloc`.
    RezallocAligned { p: Block, new_size: usize, alignment: usize },
    /// Offset-aligned variant of `Rezalloc`.
    RezallocAlignedAt { p: Block, new_size: usize, alignment: usize, offset: usize },
    /// Aligned variant of `Recalloc`.
    RecallocAligned { p: Block, new_count: usize, size: usize, alignment: usize },
    /// Offset-aligned variant of `Recalloc`.
    RecallocAlignedAt { p: Block, new_count: usize, size: usize, alignment: usize, offset: usize },
    /// Return the block `p` to the engine; `p` may be null.
    Free { p: Block },
    /// Release outstanding resources of the heap; `force` releases harder.
    Collect { force: bool },
    /// Ask whether the previously allocated block `p` lies in the heap.
    ContainsBlock { p: Block },
    /// Ask, safely for an arbitrary address, whether `p` lies in the heap.
    CheckOwned { p: Block },
    /// Walk the heap's areas — and, if `visit_all_blocks` is set, every live
    /// block inside them — handing `arg` through to the caller's visitor.
    VisitBlocks { visit_all_blocks: bool, arg: usize },
}

/// One fully described engine call: an entry point with its arguments, bound
/// to the heap it must run against.
#[derive(Clone, Copy, PartialEq, Eq, Structural, Debug)]
pub struct HeapCall {
    /// The heap the call is scoped to.
    pub heap: mi_heap_t,
    /// The entry point and its arguments.
    pub op: HeapOp,
}

} // verus!
