use vstd::prelude::*;

verus! {

/// Bit pattern of the single-precision value 0.0.
pub const SCALAR_ZERO: u32 = 0x0000_0000;

/// Bit pattern of the single-precision value 1.0.
pub const SCALAR_ONE: u32 = 0x3F80_0000;

/// Bit pattern of the single-precision value -1.0.
pub const SCALAR_NEG_ONE: u32 = 0xBF80_0000;

/// A two-dimensional position.
///
/// Each component carries the IEEE-754 single-precision bit pattern of its
/// value. The engine never computes on components — it only stores, copies
/// and overwrites them with the fixed unit deltas — so holding the raw bit
/// patterns keeps every component exactly as the caller supplied it. The
/// host boundary converts to and from native floating-point values.
#[derive(Copy, Clone, PartialEq, Eq, Structural, Debug)]
pub struct Vec2 {
    pub x: u32,
    pub y: u32,
}

impl Vec2 {
    /// The zero vector: both components encode 0.0.
    pub open spec fn spec_zero() -> Vec2 {
        Vec2 { x: SCALAR_ZERO, y: SCALAR_ZERO }
    }

    /// Builds the zero vector, the fallback value of every position query.
    pub fn zero() -> (r: Vec2)
        ensures
            r == Vec2::spec_zero(),
    {
        Vec2 { x: SCALAR_ZERO, y: SCALAR_ZERO }
    }
}

} // verus!
