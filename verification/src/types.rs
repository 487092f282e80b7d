use vstd::prelude::*;

verus! {

/// A 32-bit signed value interpreted as a 16.16 fixed-point number.
///
/// Equality operates on the raw 32-bit representation: version
/// sentinels are matched exactly, never approximately.
#[derive(Clone, Copy, Debug, Default, PartialEq, Eq, Structural)]
pub struct Fixed(pub i32);

/// A bounding box around all possible characters, widened to 32-bit
/// signed coordinates so that later consumers can do arithmetic on it
/// without overflow.
#[derive(Clone, Copy, Debug, PartialEq, Eq, Structural)]
pub struct BBox {
    pub x0: i32,
    pub y0: i32,
    pub x1: i32,
    pub y1: i32,
}

/// The offset format used by the index-to-location (`loca`) table.
///
/// It is derived from a stored 16-bit field constrained to 0 or 1; any
/// other stored value is rejected during decoding and never reaches a
/// consumer of this enum.
#[derive(Clone, Copy, Debug, PartialEq, Eq, Structural)]
pub enum LocationFormat {
    /// Offsets are stored as 16-bit half-values.
    Short,
    /// Offsets are stored as 32-bit values.
    Long,
}

} // verus!
