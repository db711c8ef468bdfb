//! Session-local identity for glyph components.
//!
//! The persisted exchange format does not identify components stably, so each
//! in-memory component is labelled with an [`EntityId`] allocated at import
//! time. Identifiers are never written back out; they only distinguish
//! otherwise-equal data within one editing session.

use vstd::prelude::*;

verus! {

/// The `parent` field of an [`EntityId`] allocated in the top-level scope.
///
/// Allocated identifiers always carry a `value` of at least 1, so this marker
/// can never collide with a real parent.
pub const TOP_LEVEL_SCOPE: u64 = 0;

/// A session-local identifier, scoped to an optional parent identifier.
///
/// `parent` holds the `value` of the parent identifier, or
/// [`TOP_LEVEL_SCOPE`] when the identifier was allocated without a parent.
#[derive(Clone, Copy, PartialEq, Eq, Structural, Debug)]
pub struct EntityId {
    pub value: u64,
    pub parent: u64,
}

/// Hands out fresh identifiers: `next` is the `value` the next allocation
/// will carry, and every earlier allocation carried a smaller one.
#[derive(Clone, Copy, PartialEq, Eq, Structural, Debug)]
pub struct IdAllocator {
    pub next: u64,
}

/// The scope marker an identifier allocated under `parent` carries.
pub open spec fn scope_of(parent: Option<EntityId>) -> u64 {
    match parent {
        Option::Some(p) => p.value,
        Option::None => TOP_LEVEL_SCOPE,
    }
}

/// One allocation step: the allocator state after the call, and the
/// identifier the call returns.
pub open spec fn spec_allocate(a: IdAllocator, parent: Option<EntityId>) -> (IdAllocator, EntityId) {
    (
        IdAllocator { next: (a.next + 1) as u64 },
        EntityId { value: a.next, parent: scope_of(parent) },
    )
}

impl IdAllocator {
    /// Allocated values start at 1, so `TOP_LEVEL_SCOPE` never names a real
    /// parent.
    pub open spec fn wf(self) -> bool {
        1 <= self.next
    }

    /// A fresh allocator that has issued nothing yet.
    pub fn new() -> (r: Self)
        ensures
            r.wf(),
            r.next == 1,
    {
        IdAllocator { next: 1 }
    }

    /// Returns a fresh identifier scoped to `parent` (or to the top-level
    /// scope when `parent` is absent).
    pub fn allocate(&mut self, parent: Option<EntityId>) -> (r: EntityId)
        requires
            old(self).wf(),
            old(self).next < u64::MAX,
        ensures
            final(self).wf(),
            (*final(self), r) == spec_allocate(*old(self), parent),
    {
        let value = self.next;
        self.next = self.next + 1;
        let parent_scope = match parent {
            Option::Some(p) => p.value,
            Option::None => TOP_LEVEL_SCOPE,
        };
        EntityId { value, parent: parent_scope }
    }
}

/// The identifiers returned by `n` successive `allocate` calls starting from
/// allocator state `a`, all sharing the scope `parent`.
pub open spec fn allocation_run(a: IdAllocator, parent: Option<EntityId>, n: nat) -> Seq<EntityId>
    decreases n,
{
    if n == 0 {
        Seq::empty()
    } else {
        seq![spec_allocate(a, parent).1] + allocation_run(
            spec_allocate(a, parent).0,
            parent,
            (n - 1) as nat,
        )
    }
}

proof fn lemma_allocation_run_values(a: IdAllocator, parent: Option<EntityId>, n: nat)
    requires
        a.next + n <= u64::MAX,
    ensures
        allocation_run(a, parent, n).len() == n,
        forall|i: int|
            0 <= i < n ==> #[trigger] allocation_run(a, parent, n)[i].value == a.next + i,
    decreases n,
{
    if n > 0 {
        lemma_allocation_run_values(spec_allocate(a, parent).0, parent, (n - 1) as nat);
    }
}

/// Id scope uniqueness: every sequence of `allocate` calls sharing the same
/// parent returns pairwise distinct identifiers.
pub proof fn lemma_scope_uniqueness(a: IdAllocator, parent: Option<EntityId>, n: nat)
    requires
        a.next + n <= u64::MAX,
    ensures
        forall|i: int, j: int|
            0 <= i < j < n ==> #[trigger] allocation_run(a, parent, n)[i]
                != #[trigger] allocation_run(a, parent, n)[j],
{
    lemma_allocation_run_values(a, parent, n);
    assert forall|i: int, j: int| 0 <= i < j < n implies #[trigger] allocation_run(a, parent, n)[i]
        != #[trigger] allocation_run(a, parent, n)[j] by {
        assert(allocation_run(a, parent, n)[i].value == a.next + i);
        assert(allocation_run(a, parent, n)[j].value == a.next + j);
    }
}

} // verus!
