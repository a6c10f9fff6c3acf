use vstd::arithmetic::mul::{lemma_mul_inequality, lemma_mul_upper_bound};
use vstd::prelude::*;

verus! {

/// The byte position of pixel `(x, y)` in a surface `width` pixels wide.
pub open spec fn spec_pixel_index(width: int, x: int, y: int) -> int {
    (y * width + x) * 4
}

/// The buffer with pixel `(x, y)` overwritten by the four colour bytes.
pub open spec fn spec_write_pixel(
    buf: Seq<u8>,
    width: int,
    x: int,
    y: int,
    color: Seq<u8>,
) -> Seq<u8> {
    let i = spec_pixel_index(width, x, y);
    buf.update(i, color[0]).update(i + 1, color[1]).update(i + 2, color[2]).update(
        i + 3,
        color[3],
    )
}

/// How far each edge of a rectangular area hangs past the surface: how many
/// columns to skip on the left and right, and rows on the top and bottom.
pub struct EdgeClip {
    pub left: usize,
    pub right: usize,
    pub top: usize,
    pub bottom: usize,
}

/// A CPU-side frame buffer of RGBA pixels, four bytes per pixel, rows stored
/// top to bottom.
pub struct Surface {
    pub buffer: Vec<u8>,
    pub width: u32,
    pub height: u32,
}

/// What `Surface::clip` computes for a rectangle from `min` (inclusive) to
/// `max` (exclusive) against a `width` by `height` surface: the overhang of
/// each edge, or nothing when the area lies fully past some edge.
pub open spec fn spec_clip(min: (int, int), max: (int, int), width: int, height: int) -> Option<
    (int, int, int, int),
> {
    let w = max.0 - min.0;
    let h = max.1 - min.1;
    let left = if min.0 < 0 {
        -min.0
    } else {
        0
    };
    let right = if min.0 + w > width {
        min.0 + w - width
    } else {
        0
    };
    let top = if min.1 < 0 {
        -min.1
    } else {
        0
    };
    let bottom = if min.1 + h > height {
        min.1 + h - height
    } else {
        0
    };
    if left > w || right > w || top > h || bottom > h {
        None
    } else {
        Some((left, right, top, bottom))
    }
}

impl Surface {
    /// The buffer holds exactly the surface's pixels, and the dimensions
    /// keep all pixel index arithmetic within machine range.
    pub open spec fn wf(&self) -> bool {
        &&& self.buffer@.len() == self.width as int * self.height as int * 4
        &&& self.width <= 16384
        &&& self.height <= 16384
    }

    /// A black, fully transparent surface of the given dimensions.
    pub fn new(width: u32, height: u32) -> (r: Surface)
        requires
            width <= 16384,
            height <= 16384,
        ensures
            r.wf(),
            r.width == width,
            r.height == height,
            forall|k: int| 0 <= k < r.buffer@.len() ==> r.buffer@[k] == 0,
    {
        proof {
            lemma_mul_upper_bound(width as int, 16384, height as int, 16384);
        }
        let n: usize = (width as usize) * (height as usize) * 4;
        let mut buffer: Vec<u8> = Vec::new();
        let mut k: usize = 0;
        while k < n
            invariant
                k <= n,
                buffer@.len() == k,
                forall|j: int| 0 <= j < k ==> buffer@[j] == 0,
            decreases n - k,
        {
            buffer.push(0);
            k = k + 1;
        }
        Surface { buffer, width, height }
    }

    /// Edge clipping.
    ///
    /// Given the min and max defining a rectangular area, determine how much
    /// of each edge lies past the surface. Returns nothing if the area is
    /// fully beyond a surface edge.
    pub fn clip(&self, min: (i32, i32), max: (i32, i32)) -> (r: Option<EdgeClip>)
        requires
            self.wf(),
            min.0 <= max.0,
            min.1 <= max.1,
            -0x20000000 <= min.0 && max.0 <= 0x20000000,
            -0x20000000 <= min.1 && max.1 <= 0x20000000,
        ensures
            match r {
                None => spec_clip(
                    (min.0 as int, min.1 as int),
                    (max.0 as int, max.1 as int),
                    self.width as int,
                    self.height as int,
                ) is None,
                Some(c) => spec_clip(
                    (min.0 as int, min.1 as int),
                    (max.0 as int, max.1 as int),
                    self.width as int,
                    self.height as int,
                ) == Some((c.left as int, c.right as int, c.top as int, c.bottom as int)),
            },
    {
        let w: i32 = max.0 - min.0;
        let h: i32 = max.1 - min.1;

        let left: i32 = if min.0 < 0 {
            -min.0
        } else {
            0
        };
        let right: i32 = if min.0 + w > self.width as i32 {
            min.0 + w - self.width as i32
        } else {
            0
        };
        let top: i32 = if min.1 < 0 {
            -min.1
        } else {
            0
        };
        let bottom: i32 = if min.1 + h > self.height as i32 {
            min.1 + h - self.height as i32
        } else {
            0
        };

        if left > w || right > w || top > h || bottom > h {
            return None;
        }

        Some(
            EdgeClip {
                left: left as usize,
                right: right as usize,
                top: top as usize,
                bottom: bottom as usize,
            },
        )
    }

    /// Overwrites one pixel of the surface.
    pub(crate) fn put_pixel(&mut self, x: usize, y: usize, color: [u8; 4])
        requires
            old(self).wf(),
            x < old(self).width,
            y < old(self).height,
        ensures
            final(self).wf(),
            final(self).width == old(self).width,
            final(self).height == old(self).height,
            final(self).buffer@ == spec_write_pixel(
                old(self).buffer@,
                old(self).width as int,
                x as int,
                y as int,
                color@,
            ),
    {
        proof {
            let w = self.width as int;
            let h = self.height as int;
            lemma_mul_inequality(y as int, h - 1, w);
            lemma_mul_upper_bound(y as int, 16383, w, 16384);
            assert((h - 1) * w == h * w - w) by (nonlinear_arith);
            assert(h * w == w * h) by (nonlinear_arith);
        }
        let i: usize = (y * (self.width as usize) + x) * 4;
        self.buffer[i] = color[0];
        self.buffer[i + 1] = color[1];
        self.buffer[i + 2] = color[2];
        self.buffer[i + 3] = color[3];
    }

    /// Fills the whole surface with one colour.
    pub fn clear(&mut self, color: [u8; 4])
        requires
            old(self).wf(),
        ensures
            final(self).wf(),
            final(self).width == old(self).width,
            final(self).height == old(self).height,
            final(self).buffer@.len() == old(self).buffer@.len(),
            forall|k: int|
                0 <= k < final(self).buffer@.len() ==> final(self).buffer@[k] == color@[k % 4],
    {
        let n = self.buffer.len();
        let mut k: usize = 0;
        while k < n
            invariant
                k <= n,
                n == self.buffer@.len(),
                self.width == old(self).width,
                self.height == old(self).height,
                self.wf(),
                forall|j: int| 0 <= j < k ==> self.buffer@[j] == color@[j % 4],
            decreases n - k,
        {
            self.buffer[k] = color[k % 4];
            k = k + 1;
        }
    }
}

} // verus!
