use vstd::arithmetic::mul::{lemma_mul_inequality, lemma_mul_is_distributive_add_other_way,
    lemma_mul_upper_bound};
use vstd::prelude::*;

use crate::component::sprite::{Sprite, SpriteAssets};
use crate::embed::EmbeddedSprite;
use crate::render::surface::{spec_clip, spec_write_pixel, Surface};

verus! {

/// The four colour bytes a texel paints: its palette entry, or opaque white
/// for a palette index past the palette's end.
pub open spec fn spec_texel_color(sheet: EmbeddedSprite<'_>, t: u8) -> Seq<u8> {
    if t < sheet.palette@.len() {
        sheet.palette@[t as int]@
    } else {
        seq![255u8, 255u8, 255u8, 255u8]
    }
}

/// The buffer after blitting the first `c` visible pixels of sprite sheet
/// row `line` of frame `frame` onto surface row `miny + line`, the row
/// clipped `left` pixels on its left edge: each nonzero texel paints its
/// palette colour, zero texels leave the surface untouched, and a flipped
/// sprite reads its row right to left.
pub open spec fn spec_blit_cols(
    buf: Seq<u8>,
    fw: int,
    sheet: EmbeddedSprite<'_>,
    frame: int,
    minx: int,
    miny: int,
    left: int,
    line: int,
    flip: bool,
    c: int,
) -> Seq<u8>
    decreases c,
{
    if c <= 0 {
        buf
    } else {
        let b1 = spec_blit_cols(buf, fw, sheet, frame, minx, miny, left, line, flip, c - 1);
        let col = c - 1;
        let sx = if flip {
            sheet.width - 1 - (left + col)
        } else {
            left + col
        };
        let t = sheet.spec_texel(frame * sheet.height + line, sx);
        if t > 0 {
            spec_write_pixel(b1, fw, minx + left + col, miny + line, spec_texel_color(sheet, t))
        } else {
            b1
        }
    }
}

/// The buffer after blitting every sheet row from `top` (inclusive) up to
/// `line` (exclusive), each `visible` pixels wide.
pub open spec fn spec_blit_rows(
    buf: Seq<u8>,
    fw: int,
    sheet: EmbeddedSprite<'_>,
    frame: int,
    minx: int,
    miny: int,
    left: int,
    top: int,
    visible: int,
    flip: bool,
    line: int,
) -> Seq<u8>
    decreases line - top,
{
    if line <= top {
        buf
    } else {
        let b1 = spec_blit_rows(
            buf,
            fw,
            sheet,
            frame,
            minx,
            miny,
            left,
            top,
            visible,
            flip,
            line - 1,
        );
        spec_blit_cols(b1, fw, sheet, frame, minx, miny, left, line - 1, flip, visible)
    }
}

/// What `Sprite::blit` paints: the sprite's current frame, placed with its
/// origin offset at `pos` (mirrored when flipped), clipped against the
/// surface.
pub open spec fn spec_blit(
    buf: Seq<u8>,
    fw: int,
    fh: int,
    sheet: EmbeddedSprite<'_>,
    frame: int,
    pos: (int, int),
    flip: bool,
) -> Seq<u8> {
    let offx = if flip {
        sheet.width - sheet.offset.0
    } else {
        sheet.offset.0 as int
    };
    let minx = pos.0 - offx;
    let miny = pos.1 - sheet.offset.1;
    match spec_clip((minx, miny), (minx + sheet.width, miny + sheet.height), fw, fh) {
        None => buf,
        Some(cl) => {
            let visible = sheet.width - cl.0 - cl.1;
            let row_end = sheet.height - cl.3;
            spec_blit_rows(buf, fw, sheet, frame, minx, miny, cl.0, cl.2, visible, flip, row_end)
        },
    }
}

/// A sheet the blitter can draw: well formed, with dimensions and offsets
/// that keep the pixel arithmetic in range, and at least one frame.
pub open spec fn spec_drawable(sheet: EmbeddedSprite<'_>) -> bool {
    &&& sheet.wf()
    &&& 4 <= sheet.width <= 16384
    &&& 1 <= sheet.height <= 16384
    &&& 1 <= sheet.frames <= 16384
    &&& -0x100000 <= sheet.offset.0 <= 0x100000
    &&& -0x100000 <= sheet.offset.1 <= 0x100000
}

impl Sprite {
    /// Draws this sprite's current frame onto the surface, its origin
    /// offset at `pos`, mirrored horizontally when `flip` is set.
    pub fn blit(&self, surface: &mut Surface, assets: &SpriteAssets<'_>, pos: (i32, i32), flip: bool)
        requires
            old(surface).wf(),
            spec_drawable(self.spec_sheet(*assets)),
            self.spec_frame() < self.spec_sheet(*assets).frames,
            -0x100000 <= pos.0 <= 0x100000,
            -0x100000 <= pos.1 <= 0x100000,
        ensures
            final(surface).wf(),
            final(surface).width == old(surface).width,
            final(surface).height == old(surface).height,
            final(surface).buffer@ == spec_blit(
                old(surface).buffer@,
                old(surface).width as int,
                old(surface).height as int,
                self.spec_sheet(*assets),
                self.spec_frame(),
                (pos.0 as int, pos.1 as int),
                flip,
            ),
    {
        let (sheet, frame) = self.data(assets);

        let offset: (i32, i32) = if flip {
            (sheet.width as i32 - sheet.offset.0, sheet.offset.1)
        } else {
            sheet.offset
        };

        let min = (pos.0 - offset.0, pos.1 - offset.1);
        let max = (min.0 + sheet.width as i32, min.1 + sheet.height as i32);

        let clip = {
            if let Some(c) = surface.clip(min, max) {
                c
            } else {
                // sprite is off screen, no use trying to blit
                return ;
            }
        };

        let ghost buf0 = surface.buffer@;
        let ghost fw_g = surface.width as int;

        let width_us = sheet.width as usize;
        let height_us = sheet.height as usize;

        if clip.left + clip.right >= width_us {
            // the whole visible width is clipped away
            proof {
                lemma_blit_rows_empty_width(
                    buf0,
                    fw_g,
                    *sheet,
                    frame as int,
                    min.0 as int,
                    min.1 as int,
                    clip.left as int,
                    clip.top as int,
                    (sheet.width - clip.left as u32 - clip.right as u32) as int,
                    flip,
                    height_us as int - clip.bottom as int,
                );
            }
            return ;
        }

        let visible: usize = width_us - clip.left - clip.right;
        let row_end: usize = height_us - clip.bottom;

        let x: usize = (min.0 + clip.left as i32) as usize;
        let y: usize = (min.1 + clip.top as i32) as usize;
        proof {
            lemma_mul_upper_bound(frame as int, 16383, height_us as int, 16384);
        }
        let fo: usize = (frame as usize) * height_us;

        let mut line: usize = clip.top;
        proof {
            assert(spec_blit_rows(
                buf0,
                fw_g,
                *sheet,
                frame as int,
                min.0 as int,
                min.1 as int,
                clip.left as int,
                clip.top as int,
                visible as int,
                flip,
                line as int,
            ) == buf0);
        }
        while line < row_end
            invariant
                surface.wf(),
                surface.width == old(surface).width,
                surface.height == old(surface).height,
                fw_g == surface.width as int,
                sheet.wf(),
                spec_drawable(*sheet),
                frame < sheet.frames,
                width_us == sheet.width,
                height_us == sheet.height,
                fo == frame as int * sheet.height as int,
                clip.left + clip.right < width_us,
                visible == width_us - clip.left - clip.right,
                row_end == height_us - clip.bottom,
                clip.top <= line <= row_end || line == clip.top,
                min.0 == pos.0 - (if flip {
                    sheet.width as int - sheet.offset.0 as int
                } else {
                    sheet.offset.0 as int
                }),
                min.1 == pos.1 - sheet.offset.1,
                -0x20000000 <= min.0 && -0x20000000 <= min.1,
                spec_clip(
                    (min.0 as int, min.1 as int),
                    (min.0 + sheet.width, min.1 + sheet.height),
                    fw_g,
                    surface.height as int,
                ) == Some(
                    (clip.left as int, clip.right as int, clip.top as int, clip.bottom as int),
                ),
                x == min.0 + clip.left,
                y == min.1 + clip.top,
                surface.buffer@ == spec_blit_rows(
                    buf0,
                    fw_g,
                    *sheet,
                    frame as int,
                    min.0 as int,
                    min.1 as int,
                    clip.left as int,
                    clip.top as int,
                    visible as int,
                    flip,
                    line as int,
                ),
            decreases row_end - line,
        {
            let ghost bufr = surface.buffer@;
            let mut c: usize = 0;
            while c < visible
                invariant
                    surface.wf(),
                    surface.width == old(surface).width,
                    surface.height == old(surface).height,
                    fw_g == surface.width as int,
                    sheet.wf(),
                    spec_drawable(*sheet),
                    frame < sheet.frames,
                    width_us == sheet.width,
                    height_us == sheet.height,
                    fo == frame as int * sheet.height as int,
                    clip.left + clip.right < width_us,
                    visible == width_us - clip.left - clip.right,
                    row_end == height_us - clip.bottom,
                    clip.top <= line < row_end,
                    c <= visible,
                    min.0 == pos.0 - (if flip {
                        sheet.width as int - sheet.offset.0 as int
                    } else {
                        sheet.offset.0 as int
                    }),
                    min.1 == pos.1 - sheet.offset.1,
                    -0x20000000 <= min.0 && -0x20000000 <= min.1,
                    spec_clip(
                        (min.0 as int, min.1 as int),
                        (min.0 + sheet.width, min.1 + sheet.height),
                        fw_g,
                        surface.height as int,
                    ) == Some(
                        (clip.left as int, clip.right as int, clip.top as int, clip.bottom as int),
                    ),
                    x == min.0 + clip.left,
                    y == min.1 + clip.top,
                    surface.buffer@ == spec_blit_cols(
                        bufr,
                        fw_g,
                        *sheet,
                        frame as int,
                        min.0 as int,
                        min.1 as int,
                        clip.left as int,
                        line as int,
                        flip,
                        c as int,
                    ),
                    bufr == spec_blit_rows(
                        buf0,
                        fw_g,
                        *sheet,
                        frame as int,
                        min.0 as int,
                        min.1 as int,
                        clip.left as int,
                        clip.top as int,
                        visible as int,
                        flip,
                        line as int,
                    ),
                decreases visible - c,
            {
                let sx: usize = if flip {
                    width_us - 1 - (clip.left + c)
                } else {
                    clip.left + c
                };
                proof {
                    lemma_mul_upper_bound(frame as int, 16383, height_us as int, 16384);
                    lemma_row_in_sheet(*sheet, frame as int, line as int);
                }
                let t = sheet.texel(fo + line, sx);
                if t > 0 {
                    let color: [u8; 4] = if (t as usize) < sheet.palette.len() {
                        sheet.palette[t as usize]
                    } else {
                        [255, 255, 255, 255]
                    };
                    proof {
                        assert(color@ =~= spec_texel_color(*sheet, t));
                    }
                    surface.put_pixel(x + c, y + (line - clip.top), color);
                }
                c = c + 1;
            }
            line = line + 1;
        }
    }
}

/// A frame's row index stays inside the sheet.
proof fn lemma_row_in_sheet(sheet: EmbeddedSprite<'_>, frame: int, line: int)
    requires
        0 <= frame < sheet.frames,
        0 <= line < sheet.height,
    ensures
        0 <= frame * sheet.height + line < sheet.sheet_rows(),
{
    lemma_mul_inequality(frame + 1, sheet.frames as int, sheet.height as int);
    lemma_mul_is_distributive_add_other_way(sheet.height as int, frame, 1);
    assert(frame * sheet.height >= 0) by (nonlinear_arith)
        requires
            frame >= 0,
            sheet.height >= 0,
    ;
}

/// With no visible width, blitting any number of rows changes nothing.
proof fn lemma_blit_rows_empty_width(
    buf: Seq<u8>,
    fw: int,
    sheet: EmbeddedSprite<'_>,
    frame: int,
    minx: int,
    miny: int,
    left: int,
    top: int,
    visible: int,
    flip: bool,
    line: int,
)
    requires
        visible <= 0,
    ensures
        spec_blit_rows(buf, fw, sheet, frame, minx, miny, left, top, visible, flip, line) == buf,
    decreases line - top,
{
    if line > top {
        lemma_blit_rows_empty_width(
            buf,
            fw,
            sheet,
            frame,
            minx,
            miny,
            left,
            top,
            visible,
            flip,
            line - 1,
        );
    }
}

} // verus!
