//! A verified front-end over a native allocation engine: independently
//! creatable allocation arenas ("heaps"), each reachable through a numeric
//! identifier, with a per-heap surface of sized, zeroed, counted, aligned,
//! offset-aligned and reallocating operations plus introspection.
//!
//! The engine itself — heap creation, the allocation primitives, block
//! visitation — is an external collaborator reached only through an
//! unverified runtime layer. What this crate verifies is everything the
//! front-end decides: identifier issuance and the registry invariants of
//! [`AllocatorPool`], the binding of every operation to its heap in
//! [`allocator::Allocator`], the exact engine call each operation stands for,
//! and the counted-size overflow rule.

use vstd::prelude::*;

use std::collections::BTreeMap;
use std::sync::Arc;

use crate::allocator::Allocator;
use crate::heap::mi_heap_t;

pub mod allocator;
pub mod engine;
pub mod heap;
pub mod options;

verus! {

broadcast use vstd::std_specs::btree::group_btree_axioms, vstd::laws_cmp::group_laws_cmp;

/// A pool of general allocators: the authoritative registry from heap
/// identifiers to shared [`Allocator`] handles.
///
/// Identifier 0 is reserved for the engine's implicit default heap and never
/// appears in the registry. The pool mints identifiers `1, 2, 3, …` strictly
/// increasingly and never reuses or removes one; at every point the
/// registered identifiers are exactly `1 ..= minted()`, which is the
/// well-formedness invariant [`AllocatorPool::wf`]. The registry stores
/// shared references, so any number of holders may keep the same `Allocator`
/// alive; the pool itself never tears a heap down.
///
/// The pool does not synchronize its own mutation: concurrent minting from
/// several threads against one pool needs external serialization, such as a
/// mutex around the pool. Lookups take the pool by shared reference and never
/// mutate it, so they stay off that lock once the pool is quiescent.
pub struct AllocatorPool {
    lowest_id: u32,
    heaps: BTreeMap<u32, Arc<Allocator>>,
}

/// The answer of [`AllocatorPool::get_allocator`].
#[derive(Debug)]
pub enum PoolLookup {
    /// The identifier is registered: a shared reference to the one
    /// `Allocator` every lookup of this identifier observes.
    Found(Arc<Allocator>),
    /// The identifier is not registered and creation was not requested.
    NotFound,
    /// The identifier is not registered and creation was requested. The pool
    /// does not honour the requested identifier: the caller must obtain a
    /// fresh heap from the engine and hand it to
    /// [`AllocatorPool::new_allocator`], which mints the next identifier in
    /// sequence instead.
    NewHeapNeeded,
}

impl AllocatorPool {
    /// The authoritative identifier-to-allocator mapping.
    pub closed spec fn registry(&self) -> Map<u32, Arc<Allocator>> {
        self.heaps@
    }

    /// How many identifiers have been minted so far; the next one is
    /// `minted() + 1`.
    pub closed spec fn minted(&self) -> u32 {
        self.lowest_id
    }

    /// The registry invariant: identifiers `1 ..= minted()` are registered,
    /// no others are, every entry is registered under its own identifier, and
    /// every registered heap is an engine-created one — the implicit default
    /// heap never enters the registry.
    pub open spec fn wf(&self) -> bool {
        &&& forall|id: u32| #[trigger]
            self.registry().contains_key(id) <==> 1 <= id <= self.minted()
        &&& forall|id: u32|
            self.registry().contains_key(id) ==> (#[trigger] self.registry()[id]).spec_id() == id
        &&& forall|id: u32|
            self.registry().contains_key(id) ==> (#[trigger] self.registry()[id]).spec_heap()
                is Created
    }

    /// What [`Self::get_allocator`] promises: `Found` exactly for registered
    /// identifiers, and then the registered entry itself; otherwise
    /// `NotFound` or `NewHeapNeeded` according to whether creation was
    /// requested.
    pub open spec fn lookup_post(&self, id: u32, create: Option<bool>, r: PoolLookup) -> bool {
        match r {
            PoolLookup::Found(a) => self.registry().contains_key(id) && a == self.registry()[id],
            PoolLookup::NotFound => !self.registry().contains_key(id) && create is None,
            PoolLookup::NewHeapNeeded => !self.registry().contains_key(id) && create is Some,
        }
    }

    /// An empty pool: nothing minted, nothing registered.
    pub fn new() -> (p: AllocatorPool)
        ensures
            p.wf(),
            p.minted() == 0,
            forall|id: u32| !p.registry().contains_key(id),
    {
        AllocatorPool { lowest_id: 0, heaps: BTreeMap::new() }
    }

    /// Register a freshly created engine heap under the next identifier.
    ///
    /// `heap` must be a heap the engine just created for this purpose; the
    /// caller obtains it from the engine's new-heap entry point. The pool
    /// assigns it `minted() + 1`, advances the counter, registers a shared
    /// `Allocator` for it and returns that reference. Identifiers are unique
    /// for the lifetime of the pool: no two calls ever return the same one.
    pub fn new_allocator(&mut self, heap: mi_heap_t) -> (a: Arc<Allocator>)
        requires
            old(self).wf(),
            old(self).minted() < u32::MAX,
            heap is Created,
        ensures
            final(self).wf(),
            final(self).minted() == old(self).minted() + 1,
            a.spec_id() == final(self).minted(),
            a.spec_heap() == heap,
            final(self).registry().contains_key(a.spec_id()),
            final(self).registry()[a.spec_id()] == a,
            forall|j: u32|
                j != a.spec_id() ==> final(self).registry().contains_key(j) == old(
                    self).registry().contains_key(j),
            forall|j: u32|
                j != a.spec_id() && old(self).registry().contains_key(j) ==> final(
                    self).registry()[j] == old(self).registry()[j],
    {
        let id = self.lowest_id + 1;
        self.lowest_id = id;

        let alloc = Arc::new(Allocator::new(id, heap));
        self.heaps.insert(id, alloc.clone());

        proof {
            assert forall|j: u32| #[trigger]
                self.registry().contains_key(j) <==> 1 <= j <= self.minted() by {
                if j != id {
                    assert(self.registry().contains_key(j) == old(self).registry().contains_key(j));
                }
            }
            assert forall|j: u32| self.registry().contains_key(j) implies (#[trigger]
            self.registry()[j]).spec_id() == j && self.registry()[j].spec_heap() is Created by {
                if j == id {
                    assert(self.registry()[j] == alloc);
                } else {
                    assert(old(self).registry().contains_key(j));
                    assert(self.registry()[j] == old(self).registry()[j]);
                }
            }
        }

        alloc
    }

    /// How many identifiers have been minted so far, as a plain value, so
    /// that a caller can rule the counter's exhaustion out before asking for
    /// a new allocator.
    pub fn minted_count(&self) -> (n: u32)
        ensures
            n == self.minted(),
    {
        self.lowest_id
    }

    /// Look identifier `id` up, or report what it would take to create it.
    ///
    /// A registered `id` yields `Found` with a shared reference to the
    /// existing `Allocator` — repeated lookups observe the same heap, so many
    /// call sites can allocate into one arena. An unregistered `id` yields
    /// `NotFound`, or `NewHeapNeeded` when `create` carries any value; the
    /// pool never registers anything during a lookup.
    pub fn get_allocator(&self, id: u32, create: Option<bool>) -> (r: PoolLookup)
        ensures
            self.lookup_post(id, create, r),
    {
        match self.heaps.get(&id) {
            Some(a) => PoolLookup::Found(a.clone()),
            None => match create {
                None => PoolLookup::NotFound,
                Some(_) => PoolLookup::NewHeapNeeded,
            },
        }
    }
}

/// Identifier uniqueness: in a well-formed pool, distinct registry slots
/// always carry distinct identifiers, so the identifiers handed out by `k`
/// mints are exactly `1 ..= k` with no repeats.
pub proof fn lemma_identifiers_unique(p: AllocatorPool, i: u32, j: u32)
    requires
        p.wf(),
        p.registry().contains_key(i),
        p.registry().contains_key(j),
        i != j,
    ensures
        p.registry()[i].spec_id() != p.registry()[j].spec_id(),
{
}

/// The registered identifiers are exactly `1 ..= minted()`: every mint so far
/// stays reachable, identifier 0 never appears, and nothing above the counter
/// exists yet.
pub proof fn lemma_registered_identifiers(p: AllocatorPool, id: u32)
    requires
        p.wf(),
    ensures
        p.registry().contains_key(id) <==> 1 <= id <= p.minted(),
{
}

/// Idempotence of lookup: a lookup takes the pool by shared reference, so two
/// consecutive lookups of the same identifier answer from the same registry —
/// and any two answers the contract of [`AllocatorPool::get_allocator`]
/// admits for them are the same reference to the same underlying heap.
pub proof fn lemma_lookup_idempotent(p: AllocatorPool, id: u32, first: PoolLookup, second: PoolLookup)
    requires
        p.lookup_post(id, None, first),
        p.lookup_post(id, None, second),
    ensures
        first matches PoolLookup::Found(a) ==> second matches PoolLookup::Found(b) && a == b
            && a.spec_heap() == b.spec_heap(),
        first is NotFound <==> second is NotFound,
{
}

} // verus!
