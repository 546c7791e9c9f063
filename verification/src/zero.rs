//! Element types with a defined zero value.

use vstd::prelude::*;

verus! {

/// An element type whose zero is a defined value, so that an array of zeros
/// can be stored without being given one.
pub trait ZeroBits: Copy {
    /// The zero of this type. An implementation states here which value
    /// that is; where it does not, nothing is known of it.
    open spec fn zero_value() -> Self {
        arbitrary()
    }

    /// Produces the zero of this type.
    fn zero_bits() -> (z: Self)
        ensures
            z == Self::zero_value(),
    ;
}

impl ZeroBits for u8 {
    open spec fn zero_value() -> u8 {
        0
    }

    fn zero_bits() -> (z: u8) {
        0
    }
}

impl ZeroBits for u16 {
    open spec fn zero_value() -> u16 {
        0
    }

    fn zero_bits() -> (z: u16) {
        0
    }
}

impl ZeroBits for u32 {
    open spec fn zero_value() -> u32 {
        0
    }

    fn zero_bits() -> (z: u32) {
        0
    }
}

impl ZeroBits for u64 {
    open spec fn zero_value() -> u64 {
        0
    }

    fn zero_bits() -> (z: u64) {
        0
    }
}

impl ZeroBits for usize {
    open spec fn zero_value() -> usize {
        0
    }

    fn zero_bits() -> (z: usize) {
        0
    }
}

impl ZeroBits for i8 {
    open spec fn zero_value() -> i8 {
        0
    }

    fn zero_bits() -> (z: i8) {
        0
    }
}

impl ZeroBits for i16 {
    open spec fn zero_value() -> i16 {
        0
    }

    fn zero_bits() -> (z: i16) {
        0
    }
}

impl ZeroBits for i32 {
    open spec fn zero_value() -> i32 {
        0
    }

    fn zero_bits() -> (z: i32) {
        0
    }
}

impl ZeroBits for i64 {
    open spec fn zero_value() -> i64 {
        0
    }

    fn zero_bits() -> (z: i64) {
        0
    }
}

impl ZeroBits for isize {
    open spec fn zero_value() -> isize {
        0
    }

    fn zero_bits() -> (z: isize) {
        0
    }
}

} // verus!
