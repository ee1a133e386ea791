//! Planes and colours as the shader sees them: four 32-bit lanes each.
//!
//! Every scalar is held as the bit pattern of an IEEE-754 binary32 number.
//! The library moves these patterns and compares them; it never computes
//! with them, so nothing is rounded and what a caller puts in is bit for bit
//! what reaches the uniform block.

use vstd::prelude::*;

verus! {

/// Bit pattern of `0.0`.
pub const ZERO_BITS: u32 = 0x0000_0000;

/// Bit pattern of `1.0`.
pub const ONE_BITS: u32 = 0x3F80_0000;

/// Bit pattern of `-1.0`.
pub const NEG_ONE_BITS: u32 = 0xBF80_0000;

/// Bit pattern of `-0.5`.
pub const NEG_HALF_BITS: u32 = 0xBF00_0000;

/// A plane `n . p = w`, packed as `(nx, ny, nz, w)`.
///
/// The half space `n . p < w` is the part that is cut away. The normal is not
/// required to have unit length; a badly scaled normal only moves the visible
/// boundary.
#[derive(Clone, Copy, Debug, PartialEq, Eq, Structural)]
pub struct Plane {
    /// First component of the normal.
    pub nx: u32,
    /// Second component of the normal.
    pub ny: u32,
    /// Third component of the normal.
    pub nz: u32,
    /// Offset of the plane along its normal.
    pub w: u32,
}

impl Plane {
    /// The four lanes in shader order.
    pub open spec fn lanes(self) -> Seq<u32> {
        seq![self.nx, self.ny, self.nz, self.w]
    }

    /// The plane whose lanes are all zero: a zero normal with offset `0.0`.
    /// No point lies strictly below it, so it never cuts anything.
    pub open spec fn spec_zero() -> Plane {
        Plane { nx: 0, ny: 0, nz: 0, w: 0 }
    }

    /// Builds a plane from its four lanes.
    pub fn new(nx: u32, ny: u32, nz: u32, w: u32) -> (p: Plane)
        ensures
            p == (Plane { nx, ny, nz, w }),
    {
        Plane { nx, ny, nz, w }
    }

    /// The inert plane used to fill unused slots.
    #[verifier::when_used_as_spec(spec_zero)]
    pub fn zero() -> (p: Plane)
        ensures
            p == Plane::spec_zero(),
    {
        Plane { nx: ZERO_BITS, ny: ZERO_BITS, nz: ZERO_BITS, w: ZERO_BITS }
    }

    /// Lane `k` of the plane, counted from the first normal component.
    pub(crate) fn lane(&self, k: usize) -> (bits: u32)
        requires
            k < 4,
        ensures
            bits == self.lanes()[k as int],
    {
        if k == 0 {
            self.nx
        } else if k == 1 {
            self.ny
        } else if k == 2 {
            self.nz
        } else {
            self.w
        }
    }
}

/// A colour in linear RGBA, one binary32 bit pattern per channel.
#[derive(Clone, Copy, Debug, PartialEq, Eq, Structural)]
pub struct LinearColor {
    /// Red channel.
    pub red: u32,
    /// Green channel.
    pub green: u32,
    /// Blue channel.
    pub blue: u32,
    /// Alpha channel.
    pub alpha: u32,
}

impl LinearColor {
    /// The four channels in shader order.
    pub open spec fn lanes(self) -> Seq<u32> {
        seq![self.red, self.green, self.blue, self.alpha]
    }

    /// The colour whose lanes are all zero: transparent black.
    pub open spec fn spec_zero() -> LinearColor {
        LinearColor { red: 0, green: 0, blue: 0, alpha: 0 }
    }

    /// Opaque black, `(0, 0, 0, 1)`.
    pub open spec fn spec_black() -> LinearColor {
        LinearColor { red: 0, green: 0, blue: 0, alpha: ONE_BITS }
    }

    /// Builds a colour from its four channels.
    pub fn new(red: u32, green: u32, blue: u32, alpha: u32) -> (c: LinearColor)
        ensures
            c == (LinearColor { red, green, blue, alpha }),
    {
        LinearColor { red, green, blue, alpha }
    }

    /// The colour that fills unused slots.
    #[verifier::when_used_as_spec(spec_zero)]
    pub fn zero() -> (c: LinearColor)
        ensures
            c == LinearColor::spec_zero(),
    {
        LinearColor { red: ZERO_BITS, green: ZERO_BITS, blue: ZERO_BITS, alpha: ZERO_BITS }
    }

    /// Opaque black.
    #[verifier::when_used_as_spec(spec_black)]
    pub fn black() -> (c: LinearColor)
        ensures
            c == LinearColor::spec_black(),
    {
        LinearColor { red: ZERO_BITS, green: ZERO_BITS, blue: ZERO_BITS, alpha: ONE_BITS }
    }

    /// Channel `k` of the colour, counted from red.
    pub(crate) fn lane(&self, k: usize) -> (bits: u32)
        requires
            k < 4,
        ensures
            bits == self.lanes()[k as int],
    {
        if k == 0 {
            self.red
        } else if k == 1 {
            self.green
        } else if k == 2 {
            self.blue
        } else {
            self.alpha
        }
    }
}

} // verus!
