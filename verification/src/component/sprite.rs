use vstd::prelude::*;

use crate::embed::EmbeddedSprite;

verus! {

/// Index of an animation frame within a sprite sheet.
pub type Frame = u16;

/// The sprite sheets the game draws from, owned outside the core and handed
/// in wherever sprite data is needed.
pub struct SpriteAssets<'a> {
    pub test: EmbeddedSprite<'a>,
    pub rat: EmbeddedSprite<'a>,
}

/// Which frame follows `frame` in a sheet of `frames` frames: the next one,
/// wrapping back to the first at the end.
pub open spec fn spec_next_frame(frame: int, frames: int) -> int {
    if frame + 1 < frames {
        frame + 1
    } else {
        0
    }
}

/// A drawable sprite: which sheet, and the frame currently shown.
#[derive(Clone, Copy, Debug, PartialEq, Eq, Structural)]
pub enum Sprite {
    Test(Frame),
    Rat(Frame),
}

impl Sprite {
    /// The sheet this sprite draws from.
    pub open spec fn spec_sheet<'a>(self, assets: SpriteAssets<'a>) -> EmbeddedSprite<'a> {
        match self {
            Sprite::Test(_) => assets.test,
            Sprite::Rat(_) => assets.rat,
        }
    }

    /// The frame currently shown.
    pub open spec fn spec_frame(self) -> int {
        match self {
            Sprite::Test(f) => f as int,
            Sprite::Rat(f) => f as int,
        }
    }

    /// Convenience method to retrieve sprite sheet data.
    pub fn data<'a>(self, assets: &'a SpriteAssets<'a>) -> (r: (&'a EmbeddedSprite<'a>, Frame))
        ensures
            match self {
                Sprite::Test(f) => *r.0 == assets.test && r.1 == f,
                Sprite::Rat(f) => *r.0 == assets.rat && r.1 == f,
            },
    {
        match self {
            Sprite::Test(frame) => (&assets.test, frame),
            Sprite::Rat(frame) => (&assets.rat, frame),
        }
    }

    /// What `next` returns: the following frame of the same sheet, and the
    /// delay in milliseconds until the frame after it is due.
    pub open spec fn spec_next(self, assets: SpriteAssets<'_>) -> (Sprite, u64) {
        match self {
            Sprite::Test(f) => (
                Sprite::Test(spec_next_frame(f as int, assets.test.frames as int) as u16),
                assets.test.spec_delay(spec_next_frame(f as int, assets.test.frames as int)) as u64,
            ),
            Sprite::Rat(f) => (
                Sprite::Rat(spec_next_frame(f as int, assets.rat.frames as int) as u16),
                assets.rat.spec_delay(spec_next_frame(f as int, assets.rat.frames as int)) as u64,
            ),
        }
    }

    /// Gets the next frame for an animated sprite, and the delay in
    /// milliseconds until the frame after it is due.
    pub fn next(self, assets: &SpriteAssets<'_>) -> (r: (Sprite, u64))
        ensures
            r == self.spec_next(*assets),
    {
        let (data, frame) = self.data(assets);

        let frame: u16 = if (frame as u32) + 1 < (data.frames as u32) {
            frame + 1
        } else {
            0
        };

        let sprite = match self {
            Sprite::Test(_) => Sprite::Test(frame),
            Sprite::Rat(_) => Sprite::Rat(frame),
        };

        (sprite, data.delay(frame) as u64)
    }
}

} // verus!
