use allocator_pool::allocator::Allocator;
use allocator_pool::engine::{Block, HeapCall, HeapOp};
use allocator_pool::heap::{mi_heap_t, MI_SMALL_SIZE_MAX};

fn test_heap() -> mi_heap_t {
    mi_heap_t::Created { addr: 4096 }
}

#[test]
fn default_allocator_binds_the_default_heap() {
    let a = Allocator::default();
    assert_eq!(a.id(), 0);
    assert_eq!(a.heap(), mi_heap_t::DefaultHeap);
}

#[test]
fn new_binds_exactly_what_it_is_given() {
    let a = Allocator::new(7, test_heap());
    assert_eq!(a.id(), 7);
    assert_eq!(a.heap(), test_heap());
}

#[test]
fn every_call_is_scoped_to_the_bound_heap() {
    let a = Allocator::new(3, test_heap());
    assert_eq!(a.malloc(50).heap, test_heap());
    assert_eq!(a.zalloc(8).heap, test_heap());
    assert_eq!(a.collect(true).heap, test_heap());
}

#[test]
fn malloc_descriptor() {
    let a = Allocator::new(1, test_heap());
    assert_eq!(a.malloc(50), HeapCall { heap: test_heap(), op: HeapOp::Malloc { size: 50 } });
}

#[test]
fn zalloc_descriptor_names_the_zeroing_entry_point() {
    // Zero-initialization is the engine's guarantee; the front-end's part is
    // to request the zeroing entry point, never the plain one.
    let a = Allocator::new(1, test_heap());
    assert_eq!(a.zalloc(64), HeapCall { heap: test_heap(), op: HeapOp::Zalloc { size: 64 } });
    assert_eq!(a.zalloc(0), HeapCall { heap: test_heap(), op: HeapOp::Zalloc { size: 0 } });
}

#[test]
fn calloc_within_range() {
    let a = Allocator::new(1, test_heap());
    assert_eq!(
        a.calloc(3, 8),
        Some(HeapCall { heap: test_heap(), op: HeapOp::Calloc { count: 3, size: 8 } })
    );
}

#[test]
fn calloc_overflow_is_the_failure_sentinel() {
    // count * size above the address width never reaches the engine.
    let a = Allocator::new(1, test_heap());
    assert_eq!(a.calloc(usize::MAX, 2), None);
    assert_eq!(a.calloc(2, usize::MAX), None);
    assert_eq!(a.calloc(usize::MAX / 2 + 1, 2), None);
    // The boundary itself still goes through.
    assert!(a.calloc(usize::MAX, 1).is_some());
}

#[test]
fn mallocn_overflow_is_the_failure_sentinel() {
    let a = Allocator::new(1, test_heap());
    assert_eq!(a.mallocn(usize::MAX, 3), None);
    assert_eq!(
        a.mallocn(5, 6),
        Some(HeapCall { heap: test_heap(), op: HeapOp::Mallocn { count: 5, size: 6 } })
    );
}

#[test]
fn malloc_small_descriptor() {
    let a = Allocator::new(1, test_heap());
    assert_eq!(
        a.malloc_small(MI_SMALL_SIZE_MAX),
        HeapCall { heap: test_heap(), op: HeapOp::MallocSmall { size: MI_SMALL_SIZE_MAX } }
    );
}

#[test]
fn realloc_descriptor_carries_the_old_block() {
    let a = Allocator::new(1, test_heap());
    let p = Block::from_addr(0x2000);
    assert_eq!(
        a.realloc(p, 128),
        HeapCall { heap: test_heap(), op: HeapOp::Realloc { p, new_size: 128 } }
    );
    let null = Block::null();
    assert_eq!(
        a.realloc(null, 16),
        HeapCall { heap: test_heap(), op: HeapOp::Realloc { p: null, new_size: 16 } }
    );
}

#[test]
fn reallocn_overflow_is_the_failure_sentinel() {
    let a = Allocator::new(1, test_heap());
    let p = Block::from_addr(0x2000);
    assert_eq!(a.reallocn(p, usize::MAX, 2), None);
    assert_eq!(
        a.reallocn(p, 4, 32),
        Some(HeapCall { heap: test_heap(), op: HeapOp::Reallocn { p, count: 4, size: 32 } })
    );
}

#[test]
fn reallocf_descriptor() {
    let a = Allocator::new(1, test_heap());
    let p = Block::from_addr(0x3000);
    assert_eq!(
        a.reallocf(p, 256),
        HeapCall { heap: test_heap(), op: HeapOp::Reallocf { p, new_size: 256 } }
    );
}

#[test]
fn string_descriptors() {
    let a = Allocator::new(1, test_heap());
    assert_eq!(a.strdup(0x100), HeapCall { heap: test_heap(), op: HeapOp::Strdup { s: 0x100 } });
    assert_eq!(
        a.strndup(0x100, 7),
        HeapCall { heap: test_heap(), op: HeapOp::Strndup { s: 0x100, n: 7 } }
    );
    assert_eq!(
        a.realpath(0x200, 0),
        HeapCall { heap: test_heap(), op: HeapOp::Realpath { fname: 0x200, resolved_name: 0 } }
    );
}

#[test]
fn aligned_descriptors_carry_the_constraint() {
    // The aligned request asks for address % 16 == 0; the offset-aligned one
    // asks for (address + 8) % 16 == 0. Holding those constraints of the
    // returned addresses is the engine's side of the contract.
    let a = Allocator::new(1, test_heap());
    assert_eq!(
        a.malloc_aligned(64, 16),
        HeapCall { heap: test_heap(), op: HeapOp::MallocAligned { size: 64, alignment: 16 } }
    );
    assert_eq!(
        a.malloc_aligned_at(64, 16, 8),
        HeapCall {
            heap: test_heap(),
            op: HeapOp::MallocAlignedAt { size: 64, alignment: 16, offset: 8 },
        }
    );
    assert_eq!(
        a.zalloc_aligned(32, 8),
        HeapCall { heap: test_heap(), op: HeapOp::ZallocAligned { size: 32, alignment: 8 } }
    );
    assert_eq!(
        a.zalloc_aligned_at(32, 8, 4),
        HeapCall {
            heap: test_heap(),
            op: HeapOp::ZallocAlignedAt { size: 32, alignment: 8, offset: 4 },
        }
    );
}

#[test]
fn counted_aligned_descriptors_keep_the_overflow_rule() {
    let a = Allocator::new(1, test_heap());
    assert_eq!(a.calloc_aligned(usize::MAX, 2, 16), None);
    assert_eq!(
        a.calloc_aligned(4, 16, 16),
        Some(HeapCall {
            heap: test_heap(),
            op: HeapOp::CallocAligned { count: 4, size: 16, alignment: 16 },
        })
    );
    assert_eq!(a.calloc_aligned_at(usize::MAX, 2, 16, 8), None);
    assert_eq!(
        a.calloc_aligned_at(4, 16, 16, 8),
        Some(HeapCall {
            heap: test_heap(),
            op: HeapOp::CallocAlignedAt { count: 4, size: 16, alignment: 16, offset: 8 },
        })
    );
}

#[test]
fn realloc_aligned_descriptors() {
    let a = Allocator::new(1, test_heap());
    let p = Block::from_addr(0x4000);
    assert_eq!(
        a.realloc_aligned(p, 96, 32),
        HeapCall {
            heap: test_heap(),
            op: HeapOp::ReallocAligned { p, new_size: 96, alignment: 32 },
        }
    );
    assert_eq!(
        a.realloc_aligned_at(p, 96, 32, 16),
        HeapCall {
            heap: test_heap(),
            op: HeapOp::ReallocAlignedAt { p, new_size: 96, alignment: 32, offset: 16 },
        }
    );
}

#[test]
fn rezalloc_family_descriptors() {
    let a = Allocator::new(1, test_heap());
    let p = Block::from_addr(0x5000);
    assert_eq!(
        a.rezalloc(p, 40),
        HeapCall { heap: test_heap(), op: HeapOp::Rezalloc { p, new_size: 40 } }
    );
    assert_eq!(
        a.rezalloc_aligned(p, 40, 8),
        HeapCall {
            heap: test_heap(),
            op: HeapOp::RezallocAligned { p, new_size: 40, alignment: 8 },
        }
    );
    assert_eq!(
        a.rezalloc_aligned_at(p, 40, 8, 4),
        HeapCall {
            heap: test_heap(),
            op: HeapOp::RezallocAlignedAt { p, new_size: 40, alignment: 8, offset: 4 },
        }
    );
}

#[test]
fn recalloc_family_keeps_the_overflow_rule() {
    let a = Allocator::new(1, test_heap());
    let p = Block::from_addr(0x6000);
    assert_eq!(a.recalloc(p, usize::MAX, 2), None);
    assert_eq!(
        a.recalloc(p, 6, 24),
        Some(HeapCall { heap: test_heap(), op: HeapOp::Recalloc { p, new_count: 6, size: 24 } })
    );
    assert_eq!(a.recalloc_aligned(p, usize::MAX, 2, 16), None);
    assert_eq!(
        a.recalloc_aligned(p, 6, 24, 16),
        Some(HeapCall {
            heap: test_heap(),
            op: HeapOp::RecallocAligned { p, new_count: 6, size: 24, alignment: 16 },
        })
    );
    assert_eq!(a.recalloc_aligned_at(p, usize::MAX, 2, 16, 8), None);
    assert_eq!(
        a.recalloc_aligned_at(p, 6, 24, 16, 8),
        Some(HeapCall {
            heap: test_heap(),
            op: HeapOp::RecallocAlignedAt { p, new_count: 6, size: 24, alignment: 16, offset: 8 },
        })
    );
}

#[test]
fn free_descriptor() {
    let a = Allocator::new(1, test_heap());
    let p = Block::from_addr(0x7000);
    assert_eq!(a.free(p), HeapCall { heap: test_heap(), op: HeapOp::Free { p } });
}

#[test]
fn collect_descriptor() {
    let a = Allocator::new(1, test_heap());
    assert_eq!(
        a.collect(false),
        HeapCall { heap: test_heap(), op: HeapOp::Collect { force: false } }
    );
    assert_eq!(a.collect(true), HeapCall { heap: test_heap(), op: HeapOp::Collect { force: true } });
}

#[test]
fn ownership_query_descriptors() {
    let a = Allocator::new(1, test_heap());
    let p = Block::from_addr(0x8000);
    assert_eq!(
        a.contains_block(p),
        HeapCall { heap: test_heap(), op: HeapOp::ContainsBlock { p } }
    );
    assert_eq!(a.check_owned(p), HeapCall { heap: test_heap(), op: HeapOp::CheckOwned { p } });
}

#[test]
fn visit_blocks_descriptor() {
    // With visit_all_blocks false the request is the areas-only walk: the
    // engine calls the visitor once per area, with no block argument.
    let a = Allocator::new(1, test_heap());
    assert_eq!(
        a.visit_blocks(false, 0x9000),
        HeapCall {
            heap: test_heap(),
            op: HeapOp::VisitBlocks { visit_all_blocks: false, arg: 0x9000 },
        }
    );
    assert_eq!(
        a.visit_blocks(true, 0),
        HeapCall { heap: test_heap(), op: HeapOp::VisitBlocks { visit_all_blocks: true, arg: 0 } }
    );
}
