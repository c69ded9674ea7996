//! Access descriptors: what kind of transfer the core is asking the bus for.

use vstd::prelude::*;
use vstd::std_specs::ops::AddSpec;

verus! {

/// Whether a transfer continues the burst of the access just before it.
#[derive(Clone, Copy, Debug, PartialEq, Eq, Structural)]
pub enum MemoryAccessType {
    /// The transfer starts a fresh address decode.
    NonSequential,
    /// The transfer continues an in-progress burst.
    Sequential,
}

/// The granularity of one transfer.
#[derive(Clone, Copy, Debug, PartialEq, Eq, Structural)]
pub enum MemoryAccessWidth {
    /// One byte.
    MemoryAccess8,
    /// Two bytes.
    MemoryAccess16,
    /// Four bytes.
    MemoryAccess32,
}

/// A transfer's type paired with its width, as handed to the timing query.
#[derive(Clone, Copy, Debug, PartialEq, Eq, Structural)]
pub struct MemoryAccess(pub MemoryAccessType, pub MemoryAccessWidth);

impl core::ops::Add<MemoryAccessWidth> for MemoryAccessType {
    type Output = MemoryAccess;

    /// `access_type + width` is the descriptor holding exactly those two.
    fn add(self, other: MemoryAccessWidth) -> (access: MemoryAccess)
        ensures
            access == MemoryAccess(self, other),
    {
        MemoryAccess(self, other)
    }
}

impl vstd::std_specs::ops::AddSpecImpl<MemoryAccessWidth> for MemoryAccessType {
    open spec fn obeys_add_spec() -> bool {
        true
    }

    open spec fn add_req(self, other: MemoryAccessWidth) -> bool {
        true
    }

    open spec fn add_spec(self, other: MemoryAccessWidth) -> MemoryAccess {
        MemoryAccess(self, other)
    }
}

/// Two descriptors are the same only when they were built from the same
/// type and the same width.
pub proof fn lemma_descriptor_injective(
    t1: MemoryAccessType,
    w1: MemoryAccessWidth,
    t2: MemoryAccessType,
    w2: MemoryAccessWidth,
)
    ensures
        t1.add_spec(w1) == t2.add_spec(w2) <==> (t1 == t2 && w1 == w2),
{
}

} // verus!
