//! Protocol instances (lock guards, epoch guards) and their typestate lattice.

use vstd::prelude::*;
use crate::collections::{Key, Lattice};

verus! {

/// One protocol instance, identified by the block that created it.
#[derive(Clone, Copy, PartialEq, Eq, Structural, Debug)]
pub struct ProtocolId(pub u32);

impl Key for ProtocolId {
    fn same(&self, other: &Self) -> (r: bool) {
        self.0 == other.0
    }
}

#[derive(Clone, Copy, PartialEq, Eq, Structural, Debug)]
pub enum ProtocolState {
    Active,
    Consumed,
    Forgotten,
    MaybeActive,
}

/// Join of two protocol states: equal states stay, otherwise `MaybeActive`.
pub open spec fn proto_join(a: ProtocolState, b: ProtocolState) -> ProtocolState {
    if a == b { a } else { ProtocolState::MaybeActive }
}

/// A protocol state in which using the guarded resource is unsafe.
pub open spec fn proto_hazard(a: ProtocolState) -> bool {
    a == ProtocolState::Consumed || a == ProtocolState::MaybeActive
}

impl ProtocolState {
    pub fn join(&self, other: &Self) -> (r: Self)
        ensures
            r == proto_join(*self, *other),
    {
        if *self == *other {
            return *self;
        }
        ProtocolState::MaybeActive
    }

    pub fn is_hazard(&self) -> (r: bool)
        ensures
            r == proto_hazard(*self),
    {
        matches!(self, ProtocolState::Consumed | ProtocolState::MaybeActive)
    }
}

impl Lattice for ProtocolState {
    open spec fn spec_join(a: Self, b: Self) -> Self {
        proto_join(a, b)
    }

    fn join_value(&self, other: &Self) -> (r: Self) {
        self.join(other)
    }

    fn same_value(&self, other: &Self) -> (r: bool) {
        *self == *other
    }
}

/// The protocol join is commutative, associative and idempotent.
pub proof fn lemma_proto_join_semilattice(a: ProtocolState, b: ProtocolState, c: ProtocolState)
    ensures
        proto_join(a, b) == proto_join(b, a),
        proto_join(proto_join(a, b), c) == proto_join(a, proto_join(b, c)),
        proto_join(a, a) == a,
{
}

/// A hazard on either side of a join remains a hazard after it.
pub proof fn lemma_proto_hazard_preserved(a: ProtocolState, b: ProtocolState)
    ensures
        proto_hazard(a) ==> proto_hazard(proto_join(a, b)),
        proto_hazard(b) ==> proto_hazard(proto_join(a, b)),
{
}

} // verus!
