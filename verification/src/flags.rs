//! The flags word of the uniform block.
//!
//! Bit 0 says that the cut is tested in screen space, bit 2 that the cut
//! surface is lit. Bit 1 is reserved and always written as zero. Readers look
//! only at the bits they know, so further bits can be added later.

use vstd::prelude::*;
use crate::space::Space;

verus! {

/// Set when the planes are tested in screen space.
pub const SCREEN_SPACE_BIT: u32 = 1;

/// Reserved; never set.
pub const RESERVED_BIT: u32 = 2;

/// Set when the cut surface receives lighting.
pub const SHADED_BIT: u32 = 4;

/// The flags word for a space and a shading mode.
pub open spec fn flag_bits(space: Space, shaded: bool) -> u32 {
    if space == Space::Screen {
        if shaded { 5 } else { 1 }
    } else {
        if shaded { 4 } else { 0 }
    }
}

/// The space a flags word stands for.
pub open spec fn flags_space(bits: u32) -> Space {
    if bits & SCREEN_SPACE_BIT != 0 {
        Space::Screen
    } else {
        Space::World
    }
}

/// Whether a flags word asks for a lit cut surface.
pub open spec fn flags_shaded(bits: u32) -> bool {
    bits & SHADED_BIT != 0
}

/// Computes the flags word.
pub fn pack_flags(space: Space, shaded: bool) -> (bits: u32)
    ensures
        bits == flag_bits(space, shaded),
{
    let mut bits: u32 = 0;
    match space {
        Space::Screen => {
            bits = bits | SCREEN_SPACE_BIT;
        },
        Space::World => {},
    }
    assert(0u32 | 1u32 == 1u32) by (bit_vector);
    if shaded {
        bits = bits | SHADED_BIT;
    }
    assert(0u32 | 4u32 == 4u32 && 1u32 | 4u32 == 5u32) by (bit_vector);
    bits
}

/// Reads a flags word back into a space and a shading mode. Bits other than
/// bit 0 and bit 2 are ignored.
pub fn unpack_flags(bits: u32) -> (modes: (Space, bool))
    ensures
        modes.0 == flags_space(bits),
        modes.1 == flags_shaded(bits),
{
    let space = if bits & SCREEN_SPACE_BIT != 0 {
        Space::Screen
    } else {
        Space::World
    };
    let shaded = bits & SHADED_BIT != 0;
    (space, shaded)
}

/// Packing a space and a shading mode and reading the word back gives the
/// same space and the same shading mode, and the reserved bit of the packed
/// word is clear.
pub proof fn lemma_flags_round_trip(space: Space, shaded: bool)
    ensures
        flags_space(flag_bits(space, shaded)) == space,
        flags_shaded(flag_bits(space, shaded)) == shaded,
        flag_bits(space, shaded) & RESERVED_BIT == 0,
        flag_bits(space, shaded) & !(SCREEN_SPACE_BIT | SHADED_BIT) == 0,
{
    assert(0u32 & 1u32 == 0 && 1u32 & 1u32 == 1 && 4u32 & 1u32 == 0 && 5u32 & 1u32 == 1)
        by (bit_vector);
    assert(0u32 & 4u32 == 0 && 1u32 & 4u32 == 0 && 4u32 & 4u32 == 4 && 5u32 & 4u32 == 4)
        by (bit_vector);
    assert(0u32 & 2u32 == 0 && 1u32 & 2u32 == 0 && 4u32 & 2u32 == 0 && 5u32 & 2u32 == 0)
        by (bit_vector);
    assert(0u32 & !(1u32 | 4u32) == 0 && 1u32 & !(1u32 | 4u32) == 0 && 4u32 & !(1u32 | 4u32)
        == 0 && 5u32 & !(1u32 | 4u32) == 0) by (bit_vector);
}

} // verus!
