//! Abstract heap objects and the per-object lattices.

use vstd::prelude::*;
use crate::collections::{Key, Lattice};

verus! {

/// An abstract heap object: one per allocation site, per stale pointer, or
/// per summarised parameter.
#[derive(Clone, Copy, PartialEq, Eq, Structural, Debug)]
pub struct ObjectId(pub u32);

impl Key for ObjectId {
    fn same(&self, other: &Self) -> (r: bool) {
        self.0 == other.0
    }
}

/// Initialization state for a `MaybeUninit` local.
///
/// `Initialized` means the local is provably initialized (e.g., via `MaybeUninit::new`,
/// `MaybeUninit::zeroed`, or `MaybeUninit::write`). `Unknown` means we cannot prove it.
/// The join of `Initialized` and any other value is `Unknown` (conservative).
#[derive(Clone, Copy, PartialEq, Eq, Structural, Debug)]
pub enum InitState {
    /// The local is known to be fully initialized.
    Initialized,
    /// The local may or may not be initialized (top / unknown).
    Unknown,
}

/// Join of two initialization states: equal states stay, otherwise `Unknown`.
pub open spec fn init_join(a: InitState, b: InitState) -> InitState {
    if a == b { a } else { InitState::Unknown }
}

impl InitState {
    pub fn join(&self, other: &Self) -> (r: Self)
        ensures
            r == init_join(*self, *other),
    {
        if *self == *other { *self } else { InitState::Unknown }
    }
}

/// Ownership state of an abstract heap object.
#[derive(Clone, Copy, PartialEq, Eq, Structural, Debug)]
pub enum HeapState {
    RawOwned,
    Reconstituted,
    MaybeFreed,
    Escaped,
}

/// Join of two heap states: `Escaped` dominates, then `MaybeFreed`; two
/// different states below them meet at `MaybeFreed`.
pub open spec fn heap_join(a: HeapState, b: HeapState) -> HeapState {
    if a == b {
        a
    } else if a == HeapState::Escaped || b == HeapState::Escaped {
        HeapState::Escaped
    } else {
        HeapState::MaybeFreed
    }
}

impl HeapState {
    pub fn join(&self, other: &Self) -> (r: Self)
        ensures
            r == heap_join(*self, *other),
    {
        if *self == *other {
            return *self;
        }
        match (self, other) {
            (HeapState::Escaped, _) | (_, HeapState::Escaped) => HeapState::Escaped,
            _ => HeapState::MaybeFreed,
        }
    }

    pub fn is_hazard(&self) -> (r: bool)
        ensures
            r == (*self == HeapState::MaybeFreed),
    {
        matches!(self, HeapState::MaybeFreed)
    }
}

impl Lattice for HeapState {
    open spec fn spec_join(a: Self, b: Self) -> Self {
        heap_join(a, b)
    }

    fn join_value(&self, other: &Self) -> (r: Self) {
        self.join(other)
    }

    fn same_value(&self, other: &Self) -> (r: bool) {
        *self == *other
    }
}

impl Lattice for InitState {
    open spec fn spec_join(a: Self, b: Self) -> Self {
        init_join(a, b)
    }

    fn join_value(&self, other: &Self) -> (r: Self) {
        self.join(other)
    }

    fn same_value(&self, other: &Self) -> (r: bool) {
        *self == *other
    }
}

/// The heap-state join is commutative, associative and idempotent.
pub proof fn lemma_heap_join_semilattice(a: HeapState, b: HeapState, c: HeapState)
    ensures
        heap_join(a, b) == heap_join(b, a),
        heap_join(heap_join(a, b), c) == heap_join(a, heap_join(b, c)),
        heap_join(a, a) == a,
{
}

/// The initialization join is commutative, associative and idempotent.
pub proof fn lemma_init_join_semilattice(a: InitState, b: InitState, c: InitState)
    ensures
        init_join(a, b) == init_join(b, a),
        init_join(init_join(a, b), c) == init_join(a, init_join(b, c)),
        init_join(a, a) == a,
{
}

/// Escaped objects stay escaped under any join, and a join never turns a
/// freed-or-escaped object back into a live `RawOwned` one unless both sides
/// were `RawOwned`.
pub proof fn lemma_heap_join_monotone(a: HeapState, b: HeapState)
    ensures
        a == HeapState::Escaped ==> heap_join(a, b) == HeapState::Escaped,
        heap_join(a, b) == HeapState::RawOwned <==> (a == HeapState::RawOwned && b == HeapState::RawOwned),
{
}

} // verus!
