use crate::glyph_table::{glyph_at, glyph_cells};
use vstd::prelude::*;

verus! {

/// One occupied cell of a glyph, at column `x` and row `y` of the character's grid.
/// Row 0 is the baseline; descenders reach below it.
#[derive(Clone, Copy, Debug, PartialEq, Eq, Structural)]
pub struct CubePos {
    pub x: i32,
    pub y: i32,
}

/// A glyph: the cells that draw one character, in drawing order.
pub type Glyph = Vec<CubePos>;

/// Number of characters the font covers: the printable ASCII codes from space to tilde.
pub const GLYPH_COUNT: usize = 95;

/// Code of the first character the font covers (space).
pub const FIRST_CODE: u32 = 32;

/// Whether `c` lies in the font's range, space to tilde.
pub open spec fn is_printable(c: char) -> bool {
    32 <= (c as u32) && (c as u32) <= 126
}

/// What looking `c` up in the font gives: the cells of its glyph for a printable
/// character, and nothing for any other.
pub open spec fn glyph_of(c: char) -> Option<Seq<CubePos>> {
    if is_printable(c) {
        Some(glyph_cells(c as u32 - 32))
    } else {
        None
    }
}

/// Every printable character has a glyph, and only the space's glyph draws nothing.
pub proof fn lemma_printable_glyphs(c: char)
    requires
        is_printable(c),
    ensures
        glyph_of(c) matches Some(g) && (g.len() == 0 <==> c == ' '),
{
    let i = c as u32 - 32;
    assert(glyph_cells(i as int).len() == 0 <==> i == 0);
}

/// A character outside the printable ASCII range has no glyph.
pub proof fn lemma_unprintable_without_glyph(c: char)
    requires
        !is_printable(c),
    ensures
        glyph_of(c) is None,
{
}

/// Table slot `i` holds the glyph of the character with code `i + 32`.
pub open spec fn slot_holds(slot: Option<Glyph>, i: int) -> bool {
    slot matches Some(g) && g@ == glyph_cells(i)
}

/// A cube font for the printable ASCII characters: one glyph per code from 32 to 126.
pub struct TinyFont {
    glyphs: Vec<Option<Glyph>>,
}

impl TinyFont {
    /// Each slot of the table holds the glyph of its character.
    #[verifier::type_invariant]
    pub closed spec fn holds_table(&self) -> bool {
        &&& self.glyphs@.len() == GLYPH_COUNT
        &&& forall|i: int|
            0 <= i < GLYPH_COUNT ==> slot_holds(#[trigger] self.glyphs@[i], i)
    }

    /// Builds the table of all glyphs.
    pub fn new() -> (r: TinyFont) {
        let mut glyphs: Vec<Option<Glyph>> = Vec::new();
        let mut i: usize = 0;
        while i < GLYPH_COUNT
            invariant
                i <= GLYPH_COUNT,
                glyphs@.len() == i,
                forall|j: int|
                    0 <= j < i ==> slot_holds(#[trigger] glyphs@[j], j),
            decreases GLYPH_COUNT - i,
        {
            glyphs.push(Some(glyph_at(i)));
            i = i + 1;
        }
        TinyFont { glyphs }
    }

    /// The glyph of `c`, or `None` where `c` is not a printable ASCII character.
    /// The space has a glyph without cells.
    pub fn get_glyph(&self, c: char) -> (r: Option<&Glyph>)
        ensures
            r is Some <==> is_printable(c),
            r matches Some(g) ==> glyph_of(c) == Some(g@),
    {
        proof {
            use_type_invariant(self);
        }
        let code = c as u32;
        if FIRST_CODE <= code && code <= 126 {
            self.glyphs[(code - FIRST_CODE) as usize].as_ref()
        } else {
            None
        }
    }
}

} // verus!
