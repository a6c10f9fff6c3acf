use vstd::prelude::*;

use crate::render::surface::{spec_clip, spec_write_pixel, Surface};

verus! {

/// Whether `(x, y)` is a pixel of a `width` by `height` surface.
pub open spec fn spec_on_surface(width: int, height: int, x: int, y: int) -> bool {
    0 <= x < width && 0 <= y < height
}

/// What `corners` paints: the four corner pixels of the rectangle from
/// `min` to `max`, each painted only when its edges are unclipped and the
/// pixel lies on the surface, and nothing at all for a fully clipped or
/// degenerately small rectangle.
pub open spec fn spec_corners(
    buf: Seq<u8>,
    width: int,
    height: int,
    min: (int, int),
    max: (int, int),
    color: [u8; 4],
) -> Seq<u8> {
    match spec_clip(min, max, width, height) {
        None => buf,
        Some(c) => {
            let w = max.0 - min.0;
            let h = max.1 - min.1;
            if w < 2 || h < 2 {
                buf
            } else {
                let b1 = if c.0 == 0 && c.2 == 0 && spec_on_surface(width, height, min.0, min.1) {
                    spec_write_pixel(buf, width, min.0, min.1, color@)
                } else {
                    buf
                };
                let b2 = if c.1 == 0 && c.2 == 0 && spec_on_surface(
                    width,
                    height,
                    min.0 + w - 1,
                    min.1,
                ) {
                    spec_write_pixel(b1, width, min.0 + w - 1, min.1, color@)
                } else {
                    b1
                };
                let b3 = if c.0 == 0 && c.3 == 0 && spec_on_surface(
                    width,
                    height,
                    min.0,
                    min.1 + h - 1,
                ) {
                    spec_write_pixel(b2, width, min.0, min.1 + h - 1, color@)
                } else {
                    b2
                };
                if c.1 == 0 && c.3 == 0 && spec_on_surface(width, height, min.0 + w - 1, min.1 + h
                    - 1) {
                    spec_write_pixel(b3, width, min.0 + w - 1, min.1 + h - 1, color@)
                } else {
                    b3
                }
            }
        },
    }
}

/// Marks the four corners of the rectangle from `min` to `max` with
/// `color`, clipped against the surface; rectangles smaller than 2 by 2
/// pixels are not drawn.
pub fn corners(surface: &mut Surface, min: (i32, i32), max: (i32, i32), color: [u8; 4])
    requires
        old(surface).wf(),
        min.0 <= max.0,
        min.1 <= max.1,
        -0x20000000 <= min.0 && max.0 <= 0x20000000,
        -0x20000000 <= min.1 && max.1 <= 0x20000000,
    ensures
        final(surface).wf(),
        final(surface).width == old(surface).width,
        final(surface).height == old(surface).height,
        final(surface).buffer@ == spec_corners(
            old(surface).buffer@,
            old(surface).width as int,
            old(surface).height as int,
            (min.0 as int, min.1 as int),
            (max.0 as int, max.1 as int),
            color,
        ),
{
    let clip = {
        if let Some(c) = surface.clip(min, max) {
            c
        } else {
            return ;
        }
    };

    let w: i32 = max.0 - min.0;
    let h: i32 = max.1 - min.1;

    // 2x2 is the minimum size we'll draw
    if w < 2 || h < 2 {
        return ;
    }

    let fw = surface.width as i32;
    let fh = surface.height as i32;

    if clip.left == 0 && clip.top == 0 && 0 <= min.0 && min.0 < fw && 0 <= min.1 && min.1 < fh {
        surface.put_pixel(min.0 as usize, min.1 as usize, color);
    }
    if clip.right == 0 && clip.top == 0 && 0 <= min.0 + w - 1 && min.0 + w - 1 < fw && 0 <= min.1
        && min.1 < fh {
        surface.put_pixel((min.0 + w - 1) as usize, min.1 as usize, color);
    }
    if clip.left == 0 && clip.bottom == 0 && 0 <= min.0 && min.0 < fw && 0 <= min.1 + h - 1 && min.1
        + h - 1 < fh {
        surface.put_pixel(min.0 as usize, (min.1 + h - 1) as usize, color);
    }
    if clip.right == 0 && clip.bottom == 0 && 0 <= min.0 + w - 1 && min.0 + w - 1 < fw && 0 <= min.1
        + h - 1 && min.1 + h - 1 < fh {
        surface.put_pixel((min.0 + w - 1) as usize, (min.1 + h - 1) as usize, color);
    }
}

} // verus!
