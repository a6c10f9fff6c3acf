use vstd::arithmetic::div_mod::{lemma_fundamental_div_mod, lemma_multiply_divide_lt};
use vstd::arithmetic::mul::lemma_mul_inequality;
use vstd::prelude::*;

verus! {

/// Sprite sheet data: 2-bit palette-indexed pixels packed four to a byte,
/// one animation frame stacked under another, `height` rows per frame.
#[derive(Clone, Copy)]
pub struct EmbeddedSprite<'a> {
    pub width: u32,
    pub height: u32,
    /// Blit origin relative to the entity position, in screen units.
    pub offset: (i32, i32),
    pub data: &'a [u8],
    /// Colours for the four palette indices; index 0 is transparent.
    pub palette: &'a [[u8; 4]],
    pub frames: u16,
    pub default_delay: u16,
    /// Per-frame animation delays in milliseconds; frames past its end use
    /// `default_delay`.
    pub anim: &'a [u16],
}

impl<'a> EmbeddedSprite<'a> {
    /// How many bytes one pixel row occupies.
    pub open spec fn width_bytes(self) -> int {
        self.width as int / 4
    }

    /// How many pixel rows the whole sheet holds, over all frames.
    pub open spec fn sheet_rows(self) -> int {
        self.height as int * self.frames as int
    }

    /// The sheet is well formed: the width packs evenly into bytes and the
    /// data holds exactly the packed rows of every frame.
    pub open spec fn wf(self) -> bool {
        &&& self.width % 4 == 0
        &&& self.data@.len() == self.width_bytes() * self.sheet_rows()
    }

    /// The 2-bit palette index stored for pixel `x` of sheet row `row`.
    pub open spec fn spec_texel(self, row: int, x: int) -> u8 {
        (self.data@[row * self.width_bytes() + x / 4] >> (((3 - (x % 4)) * 2) as u32)) & 3
    }

    /// The 2-bit palette index stored for pixel `x` of sheet row `row`.
    pub fn texel(&self, row: usize, x: usize) -> (t: u8)
        requires
            self.wf(),
            row < self.sheet_rows(),
            x < self.width,
        ensures
            t == self.spec_texel(row as int, x as int),
            t < 4,
    {
        proof {
            lemma_index_in_sheet(*self, row as int, x as int);
        }
        let _n: usize = self.data.len();
        let i: usize = row * ((self.width as usize) / 4) + x / 4;
        let r: usize = x % 4;
        let b: u8 = self.data[i];
        let t: u8 = (b >> (((3 - r) * 2) as u32)) & 3;
        proof {
            lemma_shr_and3(b, ((3 - r as int) * 2) as u32);
        }
        t
    }

    /// An iterator-like cursor over one pixel row of the sheet.
    pub fn row(&self, r: usize) -> (it: EmbeddedSpriteIter<'_>)
        ensures
            it.sprite == self,
            it.left == 0,
            it.right == self.width as usize,
            it.row == r,
    {
        EmbeddedSpriteIter { sprite: self, left: 0, right: self.width as usize, row: r }
    }

    /// Gets the animation delay for the given frame.
    pub fn delay(&self, frame: u16) -> (r: u16)
        ensures
            r == self.spec_delay(frame as int),
    {
        if (frame as usize) < self.anim.len() {
            self.anim[frame as usize]
        } else {
            self.default_delay
        }
    }

    /// The animation delay for a frame: its entry in `anim` when there is
    /// one, the sheet's default otherwise.
    pub open spec fn spec_delay(self, frame: int) -> u16 {
        if 0 <= frame < self.anim@.len() {
            self.anim@[frame]
        } else {
            self.default_delay
        }
    }
}

/// A cursor over the pixels of row `row`, between columns `left` (inclusive)
/// and `right` (exclusive), able to advance from either end.
pub struct EmbeddedSpriteIter<'a> {
    pub sprite: &'a EmbeddedSprite<'a>,
    pub left: usize,
    pub right: usize,
    pub row: usize,
}

impl<'a> EmbeddedSpriteIter<'a> {
    /// The cursor stays inside the sheet.
    pub open spec fn wf(self) -> bool {
        &&& self.sprite.wf()
        &&& self.right <= self.sprite.width
        &&& self.row < self.sprite.sheet_rows()
    }

    /// The byte position of pixel `pos` of this row, and which of the four
    /// packed pixels in that byte it is.
    pub fn index(&self, pos: usize) -> (r: (usize, usize))
        requires
            self.wf(),
            pos < self.sprite.width,
        ensures
            r.0 == self.row * self.sprite.width_bytes() + pos as int / 4,
            r.1 == pos % 4,
            r.0 < self.sprite.data@.len(),
    {
        proof {
            lemma_index_in_sheet(*self.sprite, self.row as int, pos as int);
        }
        let _n: usize = self.sprite.data.len();
        ((pos / 4) + self.row * ((self.sprite.width as usize) / 4), pos % 4)
    }

    /// The next pixel from the left end, or nothing when the cursor is spent.
    pub fn next(&mut self) -> (r: Option<u8>)
        requires
            old(self).wf(),
        ensures
            final(self).wf(),
            final(self).sprite == old(self).sprite,
            final(self).row == old(self).row,
            final(self).right == old(self).right,
            old(self).left >= old(self).right ==> r is None && *final(self) == *old(self),
            old(self).left < old(self).right ==> r == Some(
                old(self).sprite.spec_texel(old(self).row as int, old(self).left as int),
            ) && final(self).left == old(self).left + 1,
    {
        if self.left >= self.right {
            return None;
        }

        let (i, r) = self.index(self.left);
        self.left = self.left + 1;

        Some((self.sprite.data[i] >> (((3 - r) * 2) as u32)) & 3)
    }

    /// The next pixel from the right end, or nothing when the cursor is
    /// spent.
    pub fn next_back(&mut self) -> (r: Option<u8>)
        requires
            old(self).wf(),
        ensures
            final(self).wf(),
            final(self).sprite == old(self).sprite,
            final(self).row == old(self).row,
            final(self).left == old(self).left,
            old(self).right <= old(self).left ==> r is None && *final(self) == *old(self),
            old(self).right > old(self).left ==> r == Some(
                old(self).sprite.spec_texel(old(self).row as int, old(self).right - 1),
            ) && final(self).right == old(self).right - 1,
    {
        if self.right <= self.left {
            return None;
        }

        let (i, r) = self.index(self.right - 1);
        self.right = self.right - 1;

        Some((self.sprite.data[i] >> (((3 - r) * 2) as u32)) & 3)
    }
}

/// Masking with the two low bits keeps a byte below four.
proof fn lemma_shr_and3(b: u8, s: u32)
    ensures
        (b >> s) & 3 < 4,
{
    assert((b >> s) & 3 < 4) by (bit_vector);
}

/// The packed byte position of any pixel of any sheet row lies inside the
/// sheet data.
proof fn lemma_index_in_sheet(sprite: EmbeddedSprite<'_>, row: int, pos: int)
    requires
        sprite.wf(),
        0 <= row < sprite.sheet_rows(),
        0 <= pos < sprite.width,
    ensures
        0 <= row * sprite.width_bytes() + pos / 4 < sprite.data@.len(),
        pos / 4 < sprite.width_bytes(),
{
    let wb = sprite.width_bytes();
    lemma_fundamental_div_mod(sprite.width as int, 4);
    assert(sprite.width == 4 * wb);
    lemma_multiply_divide_lt(pos, wb, 4);
    lemma_mul_inequality(row, sprite.sheet_rows() - 1, wb);
    assert((sprite.sheet_rows() - 1) * wb == sprite.sheet_rows() * wb - wb) by (nonlinear_arith);
    assert(sprite.sheet_rows() * wb == wb * sprite.sheet_rows()) by (nonlinear_arith);
    assert(row * wb >= 0) by (nonlinear_arith)
        requires
            row >= 0,
            wb >= 0,
    ;
}

} // verus!
