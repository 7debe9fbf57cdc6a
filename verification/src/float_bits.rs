//! Floating-point settings, carried by their bit pattern.
//!
//! No rule of this crate computes with such a setting: it is merged, copied and
//! handed on. The bit pattern keeps it exactly.

use crate::replica::Replica;
use vstd::prelude::*;

verus! {

/// A 64-bit floating-point setting.
#[derive(Debug, Clone, Copy, PartialEq, Eq, Structural)]
pub struct FloatBits {
    /// The IEEE 754 bit pattern.
    pub bits: u64,
}

impl Replica for FloatBits {
    open spec fn same(self, other: Self) -> bool {
        self == other
    }

    fn replicate(&self) -> (r: Self) {
        *self
    }

    fn agrees(&self, other: &Self) -> (b: bool) {
        *self == *other
    }

    proof fn same_as_itself(self) {
    }

    proof fn same_through(self, middle: Self, other: Self) {
    }
}

} // verus!
