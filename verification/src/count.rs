//! The unsigned widths in which occurrences are counted.

use vstd::prelude::*;

verus! {

/// An unsigned integer that counts occurrences. A channel is written once
/// against this trait and used with counts of any width up to 64 bits.
pub trait Count: Copy {
    /// The count as a 64-bit number.
    spec fn widened(self) -> u64;

    /// The count of a single occurrence.
    spec fn unit() -> Self;

    /// A single occurrence counts as one.
    proof fn unit_widens_to_one()
        ensures
            Self::unit().widened() == 1,
    ;

    /// Widens the count to 64 bits without loss.
    fn widen(self) -> (r: u64)
        ensures
            r == self.widened(),
    ;

    /// The count of a single occurrence.
    fn one() -> (r: Self)
        ensures
            r == Self::unit(),
    ;
}

impl Count for u8 {
    open spec fn widened(self) -> u64 {
        self as u64
    }

    open spec fn unit() -> u8 {
        1
    }

    proof fn unit_widens_to_one() {
    }

    fn widen(self) -> (r: u64) {
        self as u64
    }

    fn one() -> (r: u8) {
        1
    }
}

impl Count for u16 {
    open spec fn widened(self) -> u64 {
        self as u64
    }

    open spec fn unit() -> u16 {
        1
    }

    proof fn unit_widens_to_one() {
    }

    fn widen(self) -> (r: u64) {
        self as u64
    }

    fn one() -> (r: u16) {
        1
    }
}

impl Count for u32 {
    open spec fn widened(self) -> u64 {
        self as u64
    }

    open spec fn unit() -> u32 {
        1
    }

    proof fn unit_widens_to_one() {
    }

    fn widen(self) -> (r: u64) {
        self as u64
    }

    fn one() -> (r: u32) {
        1
    }
}

impl Count for u64 {
    open spec fn widened(self) -> u64 {
        self
    }

    open spec fn unit() -> u64 {
        1
    }

    proof fn unit_widens_to_one() {
    }

    fn widen(self) -> (r: u64) {
        self
    }

    fn one() -> (r: u64) {
        1
    }
}

} // verus!
