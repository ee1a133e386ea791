//! The cut set with up to [`PLANE_MAX`] planes, each with its own colour.
//!
//! Its uniform block, at binding slot 101, is 208 bytes:
//!
//! | bytes      | field                                   |
//! |------------|-----------------------------------------|
//! | 0 .. 96    | `planes`, six vectors of four lanes     |
//! | 96 .. 192  | `colors`, six vectors of four lanes     |
//! | 192 .. 196 | `flags`                                 |
//! | 196 .. 200 | `count`                                 |
//! | 200 .. 208 | padding, zero                           |
//!
//! The shader declares the same fields in the same order. A change on one
//! side without the other shows as a wrong picture or as a validation error
//! of the graphics API, never as an error here.

use vstd::prelude::*;
use crate::flags::{flag_bits, pack_flags};
use crate::layout::{le_byte, lemma_bytes_determine_words, store_word, words_to_bytes};
use crate::plane::{LinearColor, Plane, ONE_BITS, ZERO_BITS};
use crate::space::Space;

verus! {

/// The maximum number of plane cuts.
pub const PLANE_MAX: usize = 6;

/// Binding slot of the uniform block of an [`NPlaneCutExt`]. Slots below 100
/// belong to the base material.
pub const NPLANE_CUT_BINDING: u32 = 101;

/// Number of 32-bit words in the uniform block, padding included.
pub const NPLANE_BLOCK_WORDS: usize = 52;

/// Size of the uniform block in bytes.
pub const NPLANE_BLOCK_SIZE: usize = 208;

/// Why a cut set could not be built.
#[derive(Clone, Copy, Debug, PartialEq, Eq, Structural)]
pub enum ConfigurationError {
    /// No plane was given; a cut set holds at least one.
    NoPlanes,
    /// More than [`PLANE_MAX`] planes were given.
    TooManyPlanes,
}

/// A plane index at or past the number of planes in the set.
#[derive(Clone, Copy, Debug, PartialEq, Eq, Structural)]
pub struct LookupError {
    /// The index that was asked for.
    pub index: usize,
    /// The number of planes in the set.
    pub count: usize,
}

/// What a cut set is: its planes with their colours, in order, and the two
/// modes shared by all of them.
pub struct CutSetView {
    /// The planes and the colour of each one's cut surface.
    pub entries: Seq<(Plane, LinearColor)>,
    /// The space the planes are tested in.
    pub space: Space,
    /// Whether the cut surfaces are lit.
    pub shaded: bool,
}

impl CutSetView {
    /// The plane array of the uniform block: the planes in order, then inert
    /// planes up to [`PLANE_MAX`].
    pub open spec fn packed_planes(self) -> Seq<Plane> {
        Seq::new(
            PLANE_MAX as nat,
            |i: int|
                if i < self.entries.len() {
                    self.entries[i].0
                } else {
                    Plane::zero()
                },
        )
    }

    /// The colour array of the uniform block: the colours in order, then
    /// zero colours up to [`PLANE_MAX`].
    pub open spec fn packed_colors(self) -> Seq<LinearColor> {
        Seq::new(
            PLANE_MAX as nat,
            |i: int|
                if i < self.entries.len() {
                    self.entries[i].1
                } else {
                    LinearColor::zero()
                },
        )
    }

    /// Whether `block` is the uniform block of this cut set.
    pub open spec fn packs_to(self, block: NPlaneCutExtUniform) -> bool {
        &&& block.planes@ == self.packed_planes()
        &&& block.colors@ == self.packed_colors()
        &&& block.flags == flag_bits(self.space, self.shaded)
        &&& block.count == self.entries.len()
    }
}

/// The plane cut extension with a variable number of planes.
///
/// Holds between one and [`PLANE_MAX`] planes. Their order is the caller's and
/// is never changed; no plane has priority over another. With the deferred
/// renderer an unlit cut is still lit: lighting is applied after this stage.
#[derive(Debug)]
pub struct NPlaneCutExt {
    planes_and_colors: Vec<(Plane, LinearColor)>,
    space: Space,
    shaded: bool,
}

/// The uniform block of an [`NPlaneCutExt`], field for field as the shader
/// declares it.
#[derive(Clone, Copy, Debug)]
pub struct NPlaneCutExtUniform {
    /// The planes; slots at and past `count` hold the inert plane.
    pub planes: [Plane; PLANE_MAX],
    /// The colours; slots at and past `count` are zero.
    pub colors: [LinearColor; PLANE_MAX],
    /// The flags word.
    pub flags: u32,
    /// The number of planes in use.
    pub count: u32,
}

impl View for NPlaneCutExt {
    type V = CutSetView;

    closed spec fn view(&self) -> CutSetView {
        CutSetView { entries: self.planes_and_colors@, space: self.space, shaded: self.shaded }
    }
}

impl NPlaneCutExt {
    /// A cut set holds at least one plane and at most [`PLANE_MAX`].
    #[verifier::type_invariant]
    pub open spec fn wf(self) -> bool {
        1 <= self@.entries.len() <= PLANE_MAX
    }

    /// Builds a cut set. Fails when no plane is given or more than
    /// [`PLANE_MAX`]; nothing is ever dropped silently.
    pub fn new(planes_and_colors: Vec<(Plane, LinearColor)>, space: Space, shaded: bool) -> (r:
        Result<NPlaneCutExt, ConfigurationError>)
        ensures
            planes_and_colors@.len() == 0 <==> r == Err::<NPlaneCutExt, _>(
                ConfigurationError::NoPlanes,
            ),
            planes_and_colors@.len() > PLANE_MAX <==> r == Err::<NPlaneCutExt, _>(
                ConfigurationError::TooManyPlanes,
            ),
            1 <= planes_and_colors@.len() <= PLANE_MAX <==> r is Ok,
            r is Ok ==> r->Ok_0@ == (CutSetView { entries: planes_and_colors@, space, shaded })
                && r->Ok_0.wf(),
    {
        let n = planes_and_colors.len();
        if n == 0 {
            Err(ConfigurationError::NoPlanes)
        } else if n > PLANE_MAX {
            Err(ConfigurationError::TooManyPlanes)
        } else {
            Ok(NPlaneCutExt { planes_and_colors, space, shaded })
        }
    }

    /// Builds a cut set whose planes all have the same colour. Fails as
    /// [`NPlaneCutExt::new`] does.
    pub fn with_color(planes: Vec<Plane>, color: LinearColor, space: Space, shaded: bool) -> (r:
        Result<NPlaneCutExt, ConfigurationError>)
        ensures
            planes@.len() == 0 <==> r == Err::<NPlaneCutExt, _>(ConfigurationError::NoPlanes),
            planes@.len() > PLANE_MAX <==> r == Err::<NPlaneCutExt, _>(
                ConfigurationError::TooManyPlanes,
            ),
            1 <= planes@.len() <= PLANE_MAX <==> r is Ok,
            r is Ok ==> r->Ok_0@ == (CutSetView {
                entries: Seq::new(planes@.len(), |i: int| (planes@[i], color)),
                space,
                shaded,
            }) && r->Ok_0.wf(),
    {
        let n = planes.len();
        if n == 0 {
            return Err(ConfigurationError::NoPlanes);
        }
        if n > PLANE_MAX {
            return Err(ConfigurationError::TooManyPlanes);
        }
        let mut planes_and_colors: Vec<(Plane, LinearColor)> = Vec::with_capacity(n);
        let mut i: usize = 0;
        while i < n
            invariant
                n == planes@.len(),
                i <= n,
                planes_and_colors@ =~= Seq::new(i as nat, |j: int| (planes@[j], color)),
            decreases n - i,
        {
            planes_and_colors.push((planes[i], color));
            i += 1;
        }
        Ok(NPlaneCutExt { planes_and_colors, space, shaded })
    }

    /// The number of planes.
    pub fn count(&self) -> (n: usize)
        ensures
            n == self@.entries.len(),
            1 <= n <= PLANE_MAX,
    {
        proof {
            use_type_invariant(self);
        }
        self.planes_and_colors.len()
    }

    /// The space the planes are tested in.
    pub fn space(&self) -> (s: Space)
        ensures
            s == self@.space,
    {
        self.space
    }

    /// Whether the cut surfaces are lit.
    pub fn shaded(&self) -> (b: bool)
        ensures
            b == self@.shaded,
    {
        self.shaded
    }

    /// The planes and their colours, in order.
    pub fn planes_and_colors(&self) -> (entries: &Vec<(Plane, LinearColor)>)
        ensures
            entries@ == self@.entries,
    {
        &self.planes_and_colors
    }

    /// The plane at `index`, or `None` when `index` is not below the count.
    pub fn get_plane(&self, index: usize) -> (r: Option<Plane>)
        ensures
            r == (if index < self@.entries.len() {
                Some(self@.entries[index as int].0)
            } else {
                None
            }),
    {
        if index < self.planes_and_colors.len() {
            Some(self.planes_and_colors[index].0)
        } else {
            None
        }
    }

    /// The colour at `index`, or `None` when `index` is not below the count.
    pub fn get_color(&self, index: usize) -> (r: Option<LinearColor>)
        ensures
            r == (if index < self@.entries.len() {
                Some(self@.entries[index as int].1)
            } else {
                None
            }),
    {
        if index < self.planes_and_colors.len() {
            Some(self.planes_and_colors[index].1)
        } else {
            None
        }
    }

    /// Replaces the plane at `index` and keeps its colour. Fails, and changes
    /// nothing, when `index` is not below the count. Does not allocate.
    pub fn set_plane(&mut self, index: usize, plane: Plane) -> (r: Result<(), LookupError>)
        ensures
            final(self).wf(),
            index < old(self)@.entries.len() ==> r is Ok && final(self)@ == (CutSetView {
                entries: old(self)@.entries.update(
                    index as int,
                    (plane, old(self)@.entries[index as int].1),
                ),
                ..old(self)@
            }),
            index >= old(self)@.entries.len() ==> r == Err::<(), _>(
                LookupError { index, count: old(self)@.entries.len() as usize },
            ) && final(self)@ == old(self)@,
    {
        proof {
            use_type_invariant(&*self);
        }
        let n = self.planes_and_colors.len();
        if index < n {
            let color = self.planes_and_colors[index].1;
            self.planes_and_colors[index] = (plane, color);
            Ok(())
        } else {
            Err(LookupError { index, count: n })
        }
    }

    /// Replaces the colour at `index` and keeps its plane. Fails, and changes
    /// nothing, when `index` is not below the count. Does not allocate.
    pub fn set_color(&mut self, index: usize, color: LinearColor) -> (r: Result<(), LookupError>)
        ensures
            final(self).wf(),
            index < old(self)@.entries.len() ==> r is Ok && final(self)@ == (CutSetView {
                entries: old(self)@.entries.update(
                    index as int,
                    (old(self)@.entries[index as int].0, color),
                ),
                ..old(self)@
            }),
            index >= old(self)@.entries.len() ==> r == Err::<(), _>(
                LookupError { index, count: old(self)@.entries.len() as usize },
            ) && final(self)@ == old(self)@,
    {
        proof {
            use_type_invariant(&*self);
        }
        let n = self.planes_and_colors.len();
        if index < n {
            let plane = self.planes_and_colors[index].0;
            self.planes_and_colors[index] = (plane, color);
            Ok(())
        } else {
            Err(LookupError { index, count: n })
        }
    }

    /// Chooses the space the planes are tested in.
    pub fn set_space(&mut self, space: Space)
        ensures
            final(self).wf(),
            final(self)@ == (CutSetView { space, ..old(self)@ }),
    {
        proof {
            use_type_invariant(&*self);
        }
        self.space = space;
    }

    /// Chooses whether the cut surfaces are lit.
    pub fn set_shaded(&mut self, shaded: bool)
        ensures
            final(self).wf(),
            final(self)@ == (CutSetView { shaded, ..old(self)@ }),
    {
        proof {
            use_type_invariant(&*self);
        }
        self.shaded = shaded;
    }

    /// The uniform block of this cut set: the planes and colours in order,
    /// zero-filled up to [`PLANE_MAX`], the flags word and the count.
    pub fn as_bind_group_shader_type(&self) -> (block: NPlaneCutExtUniform)
        ensures
            self@.packs_to(block),
    {
        proof {
            use_type_invariant(self);
        }
        fill_block(&self.planes_and_colors, self.space, self.shaded)
    }
}

/// Fills a block from at most [`PLANE_MAX`] planes and colours.
fn fill_block(entries: &Vec<(Plane, LinearColor)>, space: Space, shaded: bool) -> (block:
    NPlaneCutExtUniform)
    requires
        entries@.len() <= PLANE_MAX,
    ensures
        (CutSetView { entries: entries@, space, shaded }).packs_to(block),
{
    let flags = pack_flags(space, shaded);
    let no_plane = Plane::zero();
    let no_color = LinearColor::zero();
    let mut planes = [no_plane;PLANE_MAX];
    let mut colors = [no_color;PLANE_MAX];
    let n = entries.len();
    let mut i: usize = 0;
    while i < n
        invariant
            n == entries@.len(),
            n <= PLANE_MAX,
            i <= n,
            forall|j: int|
                0 <= j < PLANE_MAX ==> #[trigger] planes@[j] == (if j < i {
                    entries@[j].0
                } else {
                    Plane::zero()
                }),
            forall|j: int|
                0 <= j < PLANE_MAX ==> #[trigger] colors@[j] == (if j < i {
                    entries@[j].1
                } else {
                    LinearColor::zero()
                }),
        decreases n - i,
    {
        let entry = entries[i];
        planes[i] = entry.0;
        colors[i] = entry.1;
        i += 1;
    }
    let ghost cut = CutSetView { entries: entries@, space, shaded };
    assert(planes@ =~= cut.packed_planes());
    assert(colors@ =~= cut.packed_colors());
    NPlaneCutExtUniform { planes, colors, flags, count: n as u32 }
}

/// The uniform block of planes and colours that need not form a cut set.
/// Up to [`PLANE_MAX`] entries are packed, and so is an empty list: its block
/// has count zero and cuts nothing. More are refused.
pub fn pack_entries(entries: &Vec<(Plane, LinearColor)>, space: Space, shaded: bool) -> (r: Result<
    NPlaneCutExtUniform,
    ConfigurationError,
>)
    ensures
        entries@.len() <= PLANE_MAX ==> r is Ok && (CutSetView {
            entries: entries@,
            space,
            shaded,
        }).packs_to(r->Ok_0),
        entries@.len() > PLANE_MAX ==> r == Err::<NPlaneCutExtUniform, _>(
            ConfigurationError::TooManyPlanes,
        ),
{
    if entries.len() > PLANE_MAX {
        Err(ConfigurationError::TooManyPlanes)
    } else {
        Ok(fill_block(entries, space, shaded))
    }
}

impl Default for NPlaneCutExt {
    /// One plane with normal `(1, 0, 0)` through the origin, cut in opaque
    /// black, tested in world space and lit.
    fn default() -> (cut: Self)
        ensures
            cut.wf(),
            cut@ == (CutSetView {
                entries: seq![
                    (Plane { nx: ONE_BITS, ny: 0, nz: 0, w: 0 }, LinearColor::black()),
                ],
                space: Space::World,
                shaded: true,
            }),
    {
        let mut planes_and_colors: Vec<(Plane, LinearColor)> = Vec::new();
        planes_and_colors.push(
            (Plane::new(ONE_BITS, ZERO_BITS, ZERO_BITS, ZERO_BITS), LinearColor::black()),
        );
        let cut = NPlaneCutExt { planes_and_colors, space: Space::World, shaded: true };
        assert(cut@.entries =~= seq![
            (Plane { nx: ONE_BITS, ny: 0, nz: 0, w: 0 }, LinearColor::black()),
        ]);
        cut
    }
}

impl Clone for NPlaneCutExt {
    /// A cut set with the same planes, colours and modes.
    fn clone(&self) -> (cut: Self)
        ensures
            cut.wf(),
            cut@ == self@,
    {
        proof {
            use_type_invariant(self);
        }
        let n = self.planes_and_colors.len();
        let mut planes_and_colors: Vec<(Plane, LinearColor)> = Vec::with_capacity(n);
        let mut i: usize = 0;
        while i < n
            invariant
                n == self.planes_and_colors@.len(),
                i <= n,
                planes_and_colors@ == self.planes_and_colors@.take(i as int),
            decreases n - i,
        {
            planes_and_colors.push(self.planes_and_colors[i]);
            assert(self.planes_and_colors@.take(i + 1) =~= self.planes_and_colors@.take(
                i as int,
            ).push(self.planes_and_colors@[i as int]));
            i += 1;
        }
        assert(self.planes_and_colors@.take(n as int) =~= self.planes_and_colors@);
        NPlaneCutExt { planes_and_colors, space: self.space, shaded: self.shaded }
    }
}

impl NPlaneCutExtUniform {
    /// The block as 32-bit words: the planes, four lanes each; the colours,
    /// four lanes each; the flags; the count; and two words of padding that
    /// round the block up to a multiple of sixteen bytes.
    pub open spec fn words(self) -> Seq<u32> {
        Seq::new(
            NPLANE_BLOCK_WORDS as nat,
            |k: int|
                if k < 24 {
                    self.planes@[k / 4].lanes()[k % 4]
                } else if k < 48 {
                    self.colors@[(k - 24) / 4].lanes()[k % 4]
                } else if k == 48 {
                    self.flags
                } else if k == 49 {
                    self.count
                } else {
                    0
                },
        )
    }

    /// The block as the bytes that are uploaded.
    pub open spec fn bytes(self) -> Seq<u8> {
        words_to_bytes(self.words())
    }

    /// Word `k` of the block.
    pub(crate) fn word_at(&self, k: usize) -> (word: u32)
        requires
            k < NPLANE_BLOCK_WORDS,
        ensures
            word == self.words()[k as int],
    {
        if k < 24 {
            self.planes[k / 4].lane(k % 4)
        } else if k < 48 {
            self.colors[(k - 24) / 4].lane(k % 4)
        } else if k == 48 {
            self.flags
        } else if k == 49 {
            self.count
        } else {
            0
        }
    }

    /// Lays the block out in bytes. The output has [`NPLANE_BLOCK_SIZE`]
    /// bytes and depends on nothing but the block.
    pub fn to_bytes(&self) -> (out: [u8; NPLANE_BLOCK_SIZE])
        ensures
            out@ == self.bytes(),
    {
        let mut out = [0u8;NPLANE_BLOCK_SIZE];
        let mut k: usize = 0;
        while k < NPLANE_BLOCK_WORDS
            invariant
                k <= NPLANE_BLOCK_WORDS,
                forall|j: int|
                    0 <= j < 4 * k ==> #[trigger] out@[j] == le_byte(self.words()[j / 4], j % 4),
            decreases NPLANE_BLOCK_WORDS - k,
        {
            let word = self.word_at(k);
            store_word(&mut out, k, word);
            k += 1;
        }
        assert(out@ =~= self.bytes());
        out
    }
}

/// Packing is a function of the cut set alone: two blocks packed from the
/// same cut set are equal, and so are their bytes.
pub proof fn lemma_packing_deterministic(
    cut: NPlaneCutExt,
    first: NPlaneCutExtUniform,
    second: NPlaneCutExtUniform,
)
    requires
        cut@.packs_to(first),
        cut@.packs_to(second),
    ensures
        first == second,
        first.bytes() == second.bytes(),
{
    assert(first.planes =~= second.planes);
    assert(first.colors =~= second.colors);
}

/// In the block of a cut set with fewer than [`PLANE_MAX`] planes, every
/// slot at or past the count holds the zero plane and the zero colour, and
/// the bytes of both are zero.
pub proof fn lemma_unused_slots_zero(cut: NPlaneCutExt, block: NPlaneCutExtUniform, slot: int)
    requires
        cut@.packs_to(block),
        cut@.entries.len() <= slot < PLANE_MAX,
    ensures
        block.planes@[slot] == Plane::zero(),
        block.colors@[slot] == LinearColor::zero(),
        forall|j: int| 16 * slot <= j < 16 * slot + 16 ==> #[trigger] block.bytes()[j] == 0,
        forall|j: int|
            96 + 16 * slot <= j < 96 + 16 * slot + 16 ==> #[trigger] block.bytes()[j] == 0,
{
    assert(0u32 & 0xff == 0 && (0u32 >> 8) & 0xff == 0 && (0u32 >> 16) & 0xff == 0 && (0u32 >> 24)
        & 0xff == 0) by (bit_vector);
    assert forall|j: int| 16 * slot <= j < 16 * slot + 16 implies #[trigger] block.bytes()[j]
        == 0 by {
        assert((j / 4) / 4 == slot);
        assert(block.words()[j / 4] == 0);
    }
    assert forall|j: int| 96 + 16 * slot <= j < 96 + 16 * slot + 16 implies #[trigger] block.bytes()[j]
        == 0 by {
        assert((j / 4 - 24) / 4 == slot);
        assert(block.words()[j / 4] == 0);
    }
}

/// Nothing is lost in the layout: blocks with the same bytes are the same
/// block.
pub proof fn lemma_bytes_determine_block(first: NPlaneCutExtUniform, second: NPlaneCutExtUniform)
    requires
        first.bytes() == second.bytes(),
    ensures
        first == second,
{
    lemma_bytes_determine_words(first.words(), second.words());
    let x = first.words();
    let y = second.words();
    assert forall|i: int| 0 <= i < PLANE_MAX implies first.planes@[i] == second.planes@[i] by {
        assert(x[4 * i] == y[4 * i] && x[4 * i + 1] == y[4 * i + 1] && x[4 * i + 2] == y[4 * i
            + 2] && x[4 * i + 3] == y[4 * i + 3]);
    }
    assert forall|i: int| 0 <= i < PLANE_MAX implies first.colors@[i] == second.colors@[i] by {
        assert(x[24 + 4 * i] == y[24 + 4 * i] && x[24 + 4 * i + 1] == y[24 + 4 * i + 1] && x[24
            + 4 * i + 2] == y[24 + 4 * i + 2] && x[24 + 4 * i + 3] == y[24 + 4 * i + 3]);
    }
    assert(x[48] == y[48] && x[49] == y[49]);
    assert(first.planes =~= second.planes);
    assert(first.colors =~= second.colors);
}

} // verus!
