//! The cut set with exactly six planes and one colour for all of them.
//!
//! Its uniform block, at binding slot 100, is 128 bytes:
//!
//! | bytes      | field                                   |
//! |------------|-----------------------------------------|
//! | 0 .. 96    | `planes`, six vectors of four lanes     |
//! | 96 .. 112  | `color`, one vector of four lanes       |
//! | 112 .. 116 | `flags`                                 |
//! | 116 .. 128 | padding, zero                           |
//!
//! The shader declares the same fields in the same order. A change on one
//! side without the other shows as a wrong picture or as a validation error
//! of the graphics API, never as an error here.

use vstd::prelude::*;
use crate::flags::{flag_bits, pack_flags};
use crate::layout::{le_byte, lemma_bytes_determine_words, store_word, words_to_bytes};
use crate::nplane::{LookupError, PLANE_MAX};
use crate::plane::{LinearColor, Plane, NEG_HALF_BITS, NEG_ONE_BITS, ONE_BITS, ZERO_BITS};
use crate::space::Space;

verus! {

/// Binding slot of the uniform block of a [`PlaneCutExt`]. Slots below 100
/// belong to the base material.
pub const PLANE_CUT_BINDING: u32 = 100;

/// Number of 32-bit words in the uniform block, padding included.
pub const PLANE_CUT_BLOCK_WORDS: usize = 32;

/// Size of the uniform block in bytes.
pub const PLANE_CUT_BLOCK_SIZE: usize = 128;

/// The plane cut extension.
///
/// All six planes are always active. A caller that wants fewer cuts fills the
/// other slots with [`Plane::zero`], which cuts nothing. With the deferred
/// renderer an unlit cut is still lit: lighting is applied after this stage.
#[derive(Clone, Copy, Debug)]
pub struct PlaneCutExt {
    /// The planes. For a unit cube centred at the origin:
    /// right `(-1, 0, 0, -0.5)` cuts `x > 0.5`, left `(1, 0, 0, -0.5)` cuts
    /// `x < -0.5`, and likewise top, bottom, front and back along y and z.
    pub planes: [Plane; PLANE_MAX],
    /// The colour of the cut surfaces.
    pub color: LinearColor,
    /// The space the planes are tested in.
    pub space: Space,
    /// Whether the cut surfaces are lit.
    pub shaded: bool,
}

/// The uniform block of a [`PlaneCutExt`], field for field as the shader
/// declares it.
#[derive(Clone, Copy, Debug)]
pub struct PlaneCutExtUniform {
    /// The six planes.
    pub planes: [Plane; PLANE_MAX],
    /// The colour of the cut surfaces.
    pub color: LinearColor,
    /// The flags word.
    pub flags: u32,
}

/// The six faces of the unit cube centred at the origin, each plane cutting
/// what lies outside its face: right, left, top, bottom, front, back.
pub open spec fn unit_cube_planes() -> Seq<Plane> {
    seq![
        Plane { nx: NEG_ONE_BITS, ny: 0, nz: 0, w: NEG_HALF_BITS },
        Plane { nx: ONE_BITS, ny: 0, nz: 0, w: NEG_HALF_BITS },
        Plane { nx: 0, ny: NEG_ONE_BITS, nz: 0, w: NEG_HALF_BITS },
        Plane { nx: 0, ny: ONE_BITS, nz: 0, w: NEG_HALF_BITS },
        Plane { nx: 0, ny: 0, nz: NEG_ONE_BITS, w: NEG_HALF_BITS },
        Plane { nx: 0, ny: 0, nz: ONE_BITS, w: NEG_HALF_BITS },
    ]
}

impl PlaneCutExt {
    /// Whether `block` is the uniform block of this cut set.
    pub open spec fn packs_to(self, block: PlaneCutExtUniform) -> bool {
        &&& block.planes@ == self.planes@
        &&& block.color == self.color
        &&& block.flags == flag_bits(self.space, self.shaded)
    }

    /// Builds a cut set from its six planes, colour and modes.
    pub fn new(planes: [Plane; PLANE_MAX], color: LinearColor, space: Space, shaded: bool) -> (cut:
        PlaneCutExt)
        ensures
            cut.planes@ == planes@,
            cut.color == color,
            cut.space == space,
            cut.shaded == shaded,
    {
        PlaneCutExt { planes, color, space, shaded }
    }

    /// The plane at `index`, or `None` when `index` is not below
    /// [`PLANE_MAX`].
    pub fn get_plane(&self, index: usize) -> (r: Option<Plane>)
        ensures
            r == (if index < PLANE_MAX {
                Some(self.planes@[index as int])
            } else {
                None
            }),
    {
        if index < PLANE_MAX {
            Some(self.planes[index])
        } else {
            None
        }
    }

    /// Replaces the plane at `index`. Fails, and changes nothing, when
    /// `index` is not below [`PLANE_MAX`]. Does not allocate.
    pub fn set_plane(&mut self, index: usize, plane: Plane) -> (r: Result<(), LookupError>)
        ensures
            final(self).color == old(self).color,
            final(self).space == old(self).space,
            final(self).shaded == old(self).shaded,
            index < PLANE_MAX ==> r is Ok && final(self).planes@ == old(self).planes@.update(
                index as int,
                plane,
            ),
            index >= PLANE_MAX ==> r == Err::<(), _>(LookupError { index, count: PLANE_MAX })
                && final(self).planes@ == old(self).planes@,
    {
        if index < PLANE_MAX {
            self.planes[index] = plane;
            Ok(())
        } else {
            Err(LookupError { index, count: PLANE_MAX })
        }
    }

    /// The uniform block of this cut set: the six planes as they are, the
    /// colour and the flags word.
    pub fn as_bind_group_shader_type(&self) -> (block: PlaneCutExtUniform)
        ensures
            self.packs_to(block),
    {
        let flags = pack_flags(self.space, self.shaded);
        PlaneCutExtUniform { planes: self.planes, color: self.color, flags }
    }
}

impl Default for PlaneCutExt {
    /// The unit cube: everything outside it is cut away, in opaque black,
    /// tested in world space and lit.
    fn default() -> (cut: Self)
        ensures
            cut.planes@ == unit_cube_planes(),
            cut.color == LinearColor::black(),
            cut.space == Space::World,
            cut.shaded,
    {
        let planes = [
            Plane::new(NEG_ONE_BITS, ZERO_BITS, ZERO_BITS, NEG_HALF_BITS),
            Plane::new(ONE_BITS, ZERO_BITS, ZERO_BITS, NEG_HALF_BITS),
            Plane::new(ZERO_BITS, NEG_ONE_BITS, ZERO_BITS, NEG_HALF_BITS),
            Plane::new(ZERO_BITS, ONE_BITS, ZERO_BITS, NEG_HALF_BITS),
            Plane::new(ZERO_BITS, ZERO_BITS, NEG_ONE_BITS, NEG_HALF_BITS),
            Plane::new(ZERO_BITS, ZERO_BITS, ONE_BITS, NEG_HALF_BITS),
        ];
        assert(planes@ =~= unit_cube_planes());
        PlaneCutExt { planes, color: LinearColor::black(), space: Space::World, shaded: true }
    }
}

impl PlaneCutExtUniform {
    /// The block as 32-bit words: the planes, four lanes each; the colour;
    /// the flags; and three words of padding that round the block up to a
    /// multiple of sixteen bytes.
    pub open spec fn words(self) -> Seq<u32> {
        Seq::new(
            PLANE_CUT_BLOCK_WORDS as nat,
            |k: int|
                if k < 24 {
                    self.planes@[k / 4].lanes()[k % 4]
                } else if k < 28 {
                    self.color.lanes()[k - 24]
                } else if k == 28 {
                    self.flags
                } else {
                    0
                },
        )
    }

    /// The block as the bytes that are uploaded.
    pub open spec fn bytes(self) -> Seq<u8> {
        words_to_bytes(self.words())
    }

    /// Word `k` of the block.
    pub(crate) fn word_at(&self, k: usize) -> (word: u32)
        requires
            k < PLANE_CUT_BLOCK_WORDS,
        ensures
            word == self.words()[k as int],
    {
        if k < 24 {
            self.planes[k / 4].lane(k % 4)
        } else if k < 28 {
            self.color.lane(k - 24)
        } else if k == 28 {
            self.flags
        } else {
            0
        }
    }

    /// Lays the block out in bytes. The output has [`PLANE_CUT_BLOCK_SIZE`]
    /// bytes and depends on nothing but the block.
    pub fn to_bytes(&self) -> (out: [u8; PLANE_CUT_BLOCK_SIZE])
        ensures
            out@ == self.bytes(),
    {
        let mut out = [0u8;PLANE_CUT_BLOCK_SIZE];
        let mut k: usize = 0;
        while k < PLANE_CUT_BLOCK_WORDS
            invariant
                k <= PLANE_CUT_BLOCK_WORDS,
                forall|j: int|
                    0 <= j < 4 * k ==> #[trigger] out@[j] == le_byte(self.words()[j / 4], j % 4),
            decreases PLANE_CUT_BLOCK_WORDS - k,
        {
            let word = self.word_at(k);
            store_word(&mut out, k, word);
            k += 1;
        }
        assert(out@ =~= self.bytes());
        out
    }
}

/// Packing is a function of the cut set alone: two blocks packed from the
/// same cut set are equal, and so are their bytes.
pub proof fn lemma_packing_deterministic(
    cut: PlaneCutExt,
    first: PlaneCutExtUniform,
    second: PlaneCutExtUniform,
)
    requires
        cut.packs_to(first),
        cut.packs_to(second),
    ensures
        first == second,
        first.bytes() == second.bytes(),
{
    assert(first.planes =~= second.planes);
}

/// Nothing is lost in the layout: blocks with the same bytes are the same
/// block.
pub proof fn lemma_bytes_determine_block(first: PlaneCutExtUniform, second: PlaneCutExtUniform)
    requires
        first.bytes() == second.bytes(),
    ensures
        first == second,
{
    lemma_bytes_determine_words(first.words(), second.words());
    let x = first.words();
    let y = second.words();
    assert forall|i: int| 0 <= i < PLANE_MAX implies first.planes@[i] == second.planes@[i] by {
        assert(x[4 * i] == y[4 * i] && x[4 * i + 1] == y[4 * i + 1] && x[4 * i + 2] == y[4 * i
            + 2] && x[4 * i + 3] == y[4 * i + 3]);
    }
    assert(x[24] == y[24] && x[25] == y[25] && x[26] == y[26] && x[27] == y[27]);
    assert(x[28] == y[28]);
    assert(first.planes =~= second.planes);
}

} // verus!
