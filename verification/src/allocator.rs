//! A general-purpose allocator handle: one identifier bound to one engine
//! heap, re-exposing the engine's per-heap allocation surface without adding
//! state of its own.
//!
//! Every method that stands for an engine operation returns the exact
//! [`HeapCall`] to perform, scoped to the bound heap; the unverified runtime
//! layer executes it. The counted variants make the one decision this layer
//! owns: a `count * size` product that overflows the address width is
//! answered with the failure sentinel directly, and no engine call is
//! described for it.

use vstd::arithmetic::power2::is_pow2;
use vstd::prelude::*;

use crate::engine::{Block, HeapCall, HeapOp};
use crate::heap::{mi_heap_t, MI_SMALL_SIZE_MAX};

verus! {

/// A handle binding identifier `id` to the engine heap `heap`.
///
/// The handle carries no other state, and never owns its heap exclusively:
/// any number of handles may share one heap, and dropping a handle never
/// tears the heap down. Identifier 0 is the sentinel for the engine's
/// implicit default heap; every other identifier is minted by
/// [`crate::AllocatorPool`].
#[derive(Clone, Copy, PartialEq, Eq, Structural, Debug)]
pub struct Allocator {
    id: u32,
    heap: mi_heap_t,
}

impl Default for Allocator {
    /// An allocator bound to the engine's implicit default heap, under the
    /// reserved identifier 0.
    fn default() -> (a: Allocator)
        ensures
            a.spec_id() == 0,
            a.spec_heap() == mi_heap_t::DefaultHeap,
    {
        Allocator { id: 0, heap: mi_heap_t::DefaultHeap }
    }
}

impl Allocator {
    /// The identifier this handle is registered under.
    pub closed spec fn spec_id(&self) -> u32 {
        self.id
    }

    /// The heap every call of this handle is scoped to.
    pub closed spec fn spec_heap(&self) -> mi_heap_t {
        self.heap
    }

    /// The engine call that runs `op` against this handle's heap.
    pub open spec fn scoped(&self, op: HeapOp) -> HeapCall {
        HeapCall { heap: self.spec_heap(), op }
    }

    /// Bind identifier `id` to `heap`.
    pub fn new(id: u32, heap: mi_heap_t) -> (a: Allocator)
        ensures
            a.spec_id() == id,
            a.spec_heap() == heap,
    {
        Allocator { id, heap }
    }

    /// The identifier this handle is registered under.
    pub fn id(self) -> (r: u32)
        ensures
            r == self.spec_id(),
    {
        self.id
    }

    /// The heap this handle is bound to.
    pub fn heap(&self) -> (h: mi_heap_t)
        ensures
            h == self.spec_heap(),
    {
        self.heap
    }

    /// Release outstanding resources in this heap.
    pub fn collect(&self, force: bool) -> (c: HeapCall)
        ensures
            c == self.scoped(HeapOp::Collect { force }),
    {
        HeapCall { heap: self.heap, op: HeapOp::Collect { force } }
    }

    /// Allocate `size` uninitialized bytes. The engine answers with a block
    /// of `size` bytes, or the failure sentinel when out of memory; a `size`
    /// of 0 still yields a unique block.
    pub fn malloc(&self, size: usize) -> (c: HeapCall)
        ensures
            c == self.scoped(HeapOp::Malloc { size }),
    {
        HeapCall { heap: self.heap, op: HeapOp::Malloc { size } }
    }

    /// Return `p` to the engine. `p` must be a block some heap handed out
    /// earlier, or null, which the engine ignores.
    pub fn free(&self, p: Block) -> (c: HeapCall)
        ensures
            c == self.scoped(HeapOp::Free { p }),
    {
        HeapCall { heap: self.heap, op: HeapOp::Free { p } }
    }

    /// Allocate `size` zero-initialized bytes: on success every byte of the
    /// returned block is 0.
    pub fn zalloc(&self, size: usize) -> (c: HeapCall)
        ensures
            c == self.scoped(HeapOp::Zalloc { size }),
    {
        HeapCall { heap: self.heap, op: HeapOp::Zalloc { size } }
    }

    /// Allocate `count` zero-initialized items of `size` bytes each. When
    /// `count * size` overflows the address width, the caller receives the
    /// failure sentinel and the engine is never consulted: that is the `None`
    /// arm, and the only condition producing it.
    pub fn calloc(&self, count: usize, size: usize) -> (r: Option<HeapCall>)
        ensures
            r is Some <==> count * size <= usize::MAX,
            r matches Some(c) ==> c == self.scoped(HeapOp::Calloc { count, size }),
    {
        if count.checked_mul(size).is_some() {
            Some(HeapCall { heap: self.heap, op: HeapOp::Calloc { count, size } })
        } else {
            None
        }
    }

    /// Allocate `count` uninitialized items of `size` bytes each; the
    /// overflow rule of [`Self::calloc`] applies.
    pub fn mallocn(&self, count: usize, size: usize) -> (r: Option<HeapCall>)
        ensures
            r is Some <==> count * size <= usize::MAX,
            r matches Some(c) ==> c == self.scoped(HeapOp::Mallocn { count, size }),
    {
        if count.checked_mul(size).is_some() {
            Some(HeapCall { heap: self.heap, op: HeapOp::Mallocn { count, size } })
        } else {
            None
        }
    }

    /// Allocate through the engine's small-object fast path. The engine does
    /// not check the size, so requests over [`MI_SMALL_SIZE_MAX`] are ruled
    /// out here.
    pub fn malloc_small(&self, size: usize) -> (c: HeapCall)
        requires
            size <= MI_SMALL_SIZE_MAX,
        ensures
            c == self.scoped(HeapOp::MallocSmall { size }),
    {
        HeapCall { heap: self.heap, op: HeapOp::MallocSmall { size } }
    }

    /// Re-allocate `p` to `new_size` bytes. On success the engine's answer —
    /// which may or may not equal `p` — owns the bytes and `p` is invalid; on
    /// failure (the sentinel) `p` stays valid and owned by the caller. A null
    /// `p` degrades to plain allocation.
    pub fn realloc(&self, p: Block, new_size: usize) -> (c: HeapCall)
        ensures
            c == self.scoped(HeapOp::Realloc { p, new_size }),
    {
        HeapCall { heap: self.heap, op: HeapOp::Realloc { p, new_size } }
    }

    /// Re-allocate `p` to `count` items of `size` bytes; the overflow rule of
    /// [`Self::calloc`] applies, and `p` stays valid in that case.
    pub fn reallocn(&self, p: Block, count: usize, size: usize) -> (r: Option<HeapCall>)
        ensures
            r is Some <==> count * size <= usize::MAX,
            r matches Some(c) ==> c == self.scoped(HeapOp::Reallocn { p, count, size }),
    {
        if count.checked_mul(size).is_some() {
            Some(HeapCall { heap: self.heap, op: HeapOp::Reallocn { p, count, size } })
        } else {
            None
        }
    }

    /// Re-allocate `p` to `new_size` bytes, freeing `p` even on failure: when
    /// the engine answers with the sentinel, the caller holds no valid block
    /// at all. This is the one reallocation variant that consumes its input
    /// unconditionally.
    pub fn reallocf(&self, p: Block, new_size: usize) -> (c: HeapCall)
        ensures
            c == self.scoped(HeapOp::Reallocf { p, new_size }),
    {
        HeapCall { heap: self.heap, op: HeapOp::Reallocf { p, new_size } }
    }

    /// Duplicate the nul-terminated string at address `s` into this heap.
    pub fn strdup(&self, s: usize) -> (c: HeapCall)
        ensures
            c == self.scoped(HeapOp::Strdup { s }),
    {
        HeapCall { heap: self.heap, op: HeapOp::Strdup { s } }
    }

    /// Duplicate at most `n` bytes of the nul-terminated string at `s` into
    /// this heap.
    pub fn strndup(&self, s: usize, n: usize) -> (c: HeapCall)
        ensures
            c == self.scoped(HeapOp::Strndup { s, n }),
    {
        HeapCall { heap: self.heap, op: HeapOp::Strndup { s, n } }
    }

    /// Resolve the file path at `fname` into a string allocated from this
    /// heap. `resolved_name` should be 0; it may instead give the address of
    /// a caller-supplied buffer that receives the result.
    pub fn realpath(&self, fname: usize, resolved_name: usize) -> (c: HeapCall)
        ensures
            c == self.scoped(HeapOp::Realpath { fname, resolved_name }),
    {
        HeapCall { heap: self.heap, op: HeapOp::Realpath { fname, resolved_name } }
    }

    /// Allocate `size` bytes whose address is a multiple of `alignment`,
    /// which must be a power of two.
    pub fn malloc_aligned(&self, size: usize, alignment: usize) -> (c: HeapCall)
        requires
            is_pow2(alignment as int),
        ensures
            c == self.scoped(HeapOp::MallocAligned { size, alignment }),
    {
        HeapCall { heap: self.heap, op: HeapOp::MallocAligned { size, alignment } }
    }

    /// Allocate `size` bytes such that the address plus `offset` — not the
    /// address itself — is a multiple of `alignment`; meant for blocks that
    /// carry an unaligned header in front of an aligned payload.
    pub fn malloc_aligned_at(&self, size: usize, alignment: usize, offset: usize) -> (c: HeapCall)
        requires
            is_pow2(alignment as int),
        ensures
            c == self.scoped(HeapOp::MallocAlignedAt { size, alignment, offset }),
    {
        HeapCall { heap: self.heap, op: HeapOp::MallocAlignedAt { size, alignment, offset } }
    }

    /// Zero-initialized variant of [`Self::malloc_aligned`].
    pub fn zalloc_aligned(&self, size: usize, alignment: usize) -> (c: HeapCall)
        requires
            is_pow2(alignment as int),
        ensures
            c == self.scoped(HeapOp::ZallocAligned { size, alignment }),
    {
        HeapCall { heap: self.heap, op: HeapOp::ZallocAligned { size, alignment } }
    }

    /// Zero-initialized variant of [`Self::malloc_aligned_at`].
    pub fn zalloc_aligned_at(&self, size: usize, alignment: usize, offset: usize) -> (c: HeapCall)
        requires
            is_pow2(alignment as int),
        ensures
            c == self.scoped(HeapOp::ZallocAlignedAt { size, alignment, offset }),
    {
        HeapCall { heap: self.heap, op: HeapOp::ZallocAlignedAt { size, alignment, offset } }
    }

    /// Counted, zero-initialized variant of [`Self::malloc_aligned`]; the
    /// overflow rule of [`Self::calloc`] applies.
    pub fn calloc_aligned(&self, count: usize, size: usize, alignment: usize) -> (r: Option<
        HeapCall,
    >)
        requires
            is_pow2(alignment as int),
        ensures
            r is Some <==> count * size <= usize::MAX,
            r matches Some(c) ==> c == self.scoped(HeapOp::CallocAligned { count, size, alignment }),
    {
        if count.checked_mul(size).is_some() {
            Some(HeapCall { heap: self.heap, op: HeapOp::CallocAligned { count, size, alignment } })
        } else {
            None
        }
    }

    /// Counted, zero-initialized variant of [`Self::malloc_aligned_at`]; the
    /// overflow rule of [`Self::calloc`] applies.
    pub fn calloc_aligned_at(
        &self,
        count: usize,
        size: usize,
        alignment: usize,
        offset: usize,
    ) -> (r: Option<HeapCall>)
        requires
            is_pow2(alignment as int),
        ensures
            r is Some <==> count * size <= usize::MAX,
            r matches Some(c) ==> c == self.scoped(
                HeapOp::CallocAlignedAt { count, size, alignment, offset },
            ),
    {
        if count.checked_mul(size).is_some() {
            Some(
                HeapCall {
                    heap: self.heap,
                    op: HeapOp::CallocAlignedAt { count, size, alignment, offset },
                },
            )
        } else {
            None
        }
    }

    /// Aligned variant of [`Self::realloc`]: same ownership rules, and the
    /// engine keeps the answer a multiple of `alignment`.
    pub fn realloc_aligned(&self, p: Block, new_size: usize, alignment: usize) -> (c: HeapCall)
        requires
            is_pow2(alignment as int),
        ensures
            c == self.scoped(HeapOp::ReallocAligned { p, new_size, alignment }),
    {
        HeapCall { heap: self.heap, op: HeapOp::ReallocAligned { p, new_size, alignment } }
    }

    /// Offset-aligned variant of [`Self::realloc`].
    pub fn realloc_aligned_at(
        &self,
        p: Block,
        new_size: usize,
        alignment: usize,
        offset: usize,
    ) -> (c: HeapCall)
        requires
            is_pow2(alignment as int),
        ensures
            c == self.scoped(HeapOp::ReallocAlignedAt { p, new_size, alignment, offset }),
    {
        HeapCall { heap: self.heap, op: HeapOp::ReallocAlignedAt { p, new_size, alignment, offset } }
    }

    /// Zero-preserving re-allocation: valid only for blocks that came from a
    /// zero-initializing allocation, and bytes past the old size come back
    /// zeroed.
    pub fn rezalloc(&self, p: Block, new_size: usize) -> (c: HeapCall)
        ensures
            c == self.scoped(HeapOp::Rezalloc { p, new_size }),
    {
        HeapCall { heap: self.heap, op: HeapOp::Rezalloc { p, new_size } }
    }

    /// Counted variant of [`Self::rezalloc`]; the overflow rule of
    /// [`Self::calloc`] applies.
    pub fn recalloc(&self, p: Block, new_count: usize, size: usize) -> (r: Option<HeapCall>)
        ensures
            r is Some <==> new_count * size <= usize::MAX,
            r matches Some(c) ==> c == self.scoped(HeapOp::Recalloc { p, new_count, size }),
    {
        if new_count.checked_mul(size).is_some() {
            Some(HeapCall { heap: self.heap, op: HeapOp::Recalloc { p, new_count, size } })
        } else {
            None
        }
    }

    /// Aligned variant of [`Self::rezalloc`].
    pub fn rezalloc_aligned(&self, p: Block, new_size: usize, alignment: usize) -> (c: HeapCall)
        requires
            is_pow2(alignment as int),
        ensures
            c == self.scoped(HeapOp::RezallocAligned { p, new_size, alignment }),
    {
        HeapCall { heap: self.heap, op: HeapOp::RezallocAligned { p, new_size, alignment } }
    }

    /// Offset-aligned variant of [`Self::rezalloc`].
    pub fn rezalloc_aligned_at(
        &self,
        p: Block,
        new_size: usize,
        alignment: usize,
        offset: usize,
    ) -> (c: HeapCall)
        requires
            is_pow2(alignment as int),
        ensures
            c == self.scoped(HeapOp::RezallocAlignedAt { p, new_size, alignment, offset }),
    {
        HeapCall {
            heap: self.heap,
            op: HeapOp::RezallocAlignedAt { p, new_size, alignment, offset },
        }
    }

    /// Aligned variant of [`Self::recalloc`]; the overflow rule of
    /// [`Self::calloc`] applies.
    pub fn recalloc_aligned(
        &self,
        p: Block,
        new_count: usize,
        size: usize,
        alignment: usize,
    ) -> (r: Option<HeapCall>)
        requires
            is_pow2(alignment as int),
        ensures
            r is Some <==> new_count * size <= usize::MAX,
            r matches Some(c) ==> c == self.scoped(
                HeapOp::RecallocAligned { p, new_count, size, alignment },
            ),
    {
        if new_count.checked_mul(size).is_some() {
            Some(
                HeapCall {
                    heap: self.heap,
                    op: HeapOp::RecallocAligned { p, new_count, size, alignment },
                },
            )
        } else {
            None
        }
    }

    /// Offset-aligned variant of [`Self::recalloc`]; the overflow rule of
    /// [`Self::calloc`] applies.
    pub fn recalloc_aligned_at(
        &self,
        p: Block,
        new_count: usize,
        size: usize,
        alignment: usize,
        offset: usize,
    ) -> (r: Option<HeapCall>)
        requires
            is_pow2(alignment as int),
        ensures
            r is Some <==> new_count * size <= usize::MAX,
            r matches Some(c) ==> c == self.scoped(
                HeapOp::RecallocAlignedAt { p, new_count, size, alignment, offset },
            ),
    {
        if new_count.checked_mul(size).is_some() {
            Some(
                HeapCall {
                    heap: self.heap,
                    op: HeapOp::RecallocAlignedAt { p, new_count, size, alignment, offset },
                },
            )
        } else {
            None
        }
    }

    /// Ask whether `p` lies in this heap. `p` must be a block some heap
    /// handed out earlier — the engine's answer to an arbitrary address is
    /// undefined; use [`Self::check_owned`] for that.
    pub fn contains_block(&self, p: Block) -> (c: HeapCall)
        ensures
            c == self.scoped(HeapOp::ContainsBlock { p }),
    {
        HeapCall { heap: self.heap, op: HeapOp::ContainsBlock { p } }
    }

    /// Ask whether `p` lies in this heap, safely for any address at all. The
    /// engine answers in time linear in the heap's pages, so this does not
    /// belong on a hot path.
    pub fn check_owned(&self, p: Block) -> (c: HeapCall)
        ensures
            c == self.scoped(HeapOp::CheckOwned { p }),
    {
        HeapCall { heap: self.heap, op: HeapOp::CheckOwned { p } }
    }

    /// Walk every area of this heap — and, with `visit_all_blocks` set, every
    /// live block inside each area — calling the visitor the runtime layer
    /// supplies once per area (with no block) and once per block. The visitor
    /// and its result stay outside the verified boundary: the engine reports
    /// whether the walk ran to completion, and the heap must stay quiescent
    /// while it runs. `arg` is handed through to the visitor unchanged.
    pub fn visit_blocks(&self, visit_all_blocks: bool, arg: usize) -> (c: HeapCall)
        ensures
            c == self.scoped(HeapOp::VisitBlocks { visit_all_blocks, arg }),
    {
        HeapCall { heap: self.heap, op: HeapOp::VisitBlocks { visit_all_blocks, arg } }
    }
}

} // verus!
