//! Numbers and points that are carried through without being computed on.
//!
//! Positions, sizes and forces reach this crate already converted to the unit
//! in which the GUI library wants them. The crate only moves them from one
//! record to another, so each number is held by its IEEE-754 binary32 bit
//! pattern.

use vstd::prelude::*;

verus! {

/// A binary32 number, held by its bit pattern.
#[derive(Clone, Copy, Debug, PartialEq, Eq, Structural)]
pub struct Scalar {
    pub bits: u32,
}

impl Scalar {
    /// Positive zero.
    pub open spec fn spec_zero() -> Scalar {
        Scalar { bits: 0 }
    }

    /// Whether the pattern denotes a number greater than zero (infinity
    /// included): the sign bit is clear, the pattern is not zero and it is
    /// not a NaN.
    pub open spec fn spec_is_positive(self) -> bool {
        1 <= self.bits <= 0x7f80_0000
    }

    pub fn from_bits(bits: u32) -> (s: Scalar)
        ensures
            s.bits == bits,
    {
        Scalar { bits }
    }

    #[verifier::when_used_as_spec(spec_zero)]
    pub fn zero() -> (s: Scalar)
        ensures
            s == Scalar::spec_zero(),
    {
        Scalar { bits: 0 }
    }

    #[verifier::when_used_as_spec(spec_is_positive)]
    pub fn is_positive(self) -> (b: bool)
        ensures
            b == self.spec_is_positive(),
    {
        1 <= self.bits && self.bits <= 0x7f80_0000
    }
}

/// A position in the windowing library's logical coordinates.
#[derive(Clone, Copy, Debug, PartialEq, Eq, Structural)]
pub struct LogicalPosition {
    pub x: Scalar,
    pub y: Scalar,
}

/// A size in the windowing library's logical coordinates.
#[derive(Clone, Copy, Debug, PartialEq, Eq, Structural)]
pub struct LogicalSize {
    pub width: Scalar,
    pub height: Scalar,
}

/// A position in the GUI library's points.
#[derive(Clone, Copy, Debug, PartialEq, Eq, Structural)]
pub struct Pos2 {
    pub x: Scalar,
    pub y: Scalar,
}

/// A vector or size in the GUI library's points.
#[derive(Clone, Copy, Debug, PartialEq, Eq, Structural)]
pub struct Vec2 {
    pub x: Scalar,
    pub y: Scalar,
}

/// An axis-aligned rectangle in the GUI library's points.
#[derive(Clone, Copy, Debug, PartialEq, Eq, Structural)]
pub struct Rect {
    pub min: Pos2,
    pub max: Pos2,
}

impl Pos2 {
    /// The origin.
    pub open spec fn spec_zero() -> Pos2 {
        Pos2 { x: Scalar::spec_zero(), y: Scalar::spec_zero() }
    }

    #[verifier::when_used_as_spec(spec_zero)]
    pub fn zero() -> (p: Pos2)
        ensures
            p == Pos2::spec_zero(),
    {
        Pos2 { x: Scalar::zero(), y: Scalar::zero() }
    }
}

impl Vec2 {
    /// The zero vector.
    pub open spec fn spec_zero() -> Vec2 {
        Vec2 { x: Scalar::spec_zero(), y: Scalar::spec_zero() }
    }

    #[verifier::when_used_as_spec(spec_zero)]
    pub fn zero() -> (v: Vec2)
        ensures
            v == Vec2::spec_zero(),
    {
        Vec2 { x: Scalar::zero(), y: Scalar::zero() }
    }
}

} // verus!
