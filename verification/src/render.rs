use vstd::arithmetic::div_mod::{lemma_div_is_ordered, lemma_div_pos_is_pos};
use vstd::prelude::*;

pub use surface::Surface;

pub mod shapes;
pub mod sprite;
pub mod surface;

use crate::component::sprite::SpriteAssets;
use crate::game::physics::spec_world_ranges;
use crate::game::state::State;
use crate::game::world::World;
use crate::math::scaled::spec_unit;
use crate::render::shapes::{corners, spec_corners};
use crate::render::sprite::{spec_blit, spec_drawable};

verus! {

/// The background colour the world is drawn over.
pub open spec fn spec_background() -> Seq<u8> {
    seq![0x20u8, 0x20u8, 0x30u8, 0xffu8]
}

/// A buffer of `len` bytes holding nothing but background pixels.
pub open spec fn spec_cleared(len: int) -> Seq<u8> {
    Seq::new(len as nat, |k: int| spec_background()[k % 4])
}

/// Where entity `i`'s world position lands on the screen, after the camera
/// offset and the vertical flip.
pub open spec fn spec_camera_pos(w: World, i: int, fw: int, fh: int) -> (int, int) {
    let p = w.spatial@[i]->Some_0.0@;
    (spec_unit(p.0) + fw / 2, fh - (spec_unit(p.1) + fh / 2))
}

/// Whether entity `i` is drawn facing left.
pub open spec fn spec_faces_left(w: World, i: int) -> bool {
    w.controller@[i] is Some && w.controller@[i]->Some_0.direction is Left
}

/// The buffer after the sprites of the first `n` entities have been drawn,
/// in entity order: every entity with a position and a sprite is blitted at
/// its camera position, mirrored when it faces left.
pub open spec fn spec_render_sprites(
    w: World,
    assets: SpriteAssets<'_>,
    buf: Seq<u8>,
    fw: int,
    fh: int,
    n: int,
) -> Seq<u8>
    decreases n,
{
    if n <= 0 {
        buf
    } else {
        let i = n - 1;
        let b = spec_render_sprites(w, assets, buf, fw, fh, i);
        if w.spatial@[i] is Some && w.sprite@[i] is Some {
            let s = w.sprite@[i]->Some_0;
            spec_blit(
                b,
                fw,
                fh,
                s.spec_sheet(assets),
                s.spec_frame(),
                spec_camera_pos(w, i, fw, fh),
                spec_faces_left(w, i),
            )
        } else {
            b
        }
    }
}

/// The buffer after the collision boxes of the first `n` entities have been
/// marked, in entity order: every entity with a position and a collision box
/// gets the corners of its world box marked in cyan.
pub open spec fn spec_render_boxes(w: World, buf: Seq<u8>, fw: int, fh: int, n: int) -> Seq<u8>
    decreases n,
{
    if n <= 0 {
        buf
    } else {
        let i = n - 1;
        let b = spec_render_boxes(w, buf, fw, fh, i);
        if w.spatial@[i] is Some && w.collision@[i] is Some {
            let p = w.spatial@[i]->Some_0.0@;
            let bx = w.collision@[i]->Some_0.bounds@;
            let cx = spec_unit(p.0 + bx.0.0) + fw / 2;
            let cy = fh - (spec_unit(p.1 + bx.0.1) + fh / 2);
            let dx = spec_unit(bx.1.0);
            let dy = spec_unit(bx.1.1);
            spec_corners(
                b,
                fw,
                fh,
                (cx - dx, cy - dy),
                (cx + dx, cy + dy),
                [0x00u8, 0xffu8, 0xffu8, 0xffu8],
            )
        } else {
            b
        }
    }
}

/// Every sprite the world holds can be drawn from these assets: its sheet
/// is drawable and its current frame exists.
pub open spec fn spec_sprites_drawable(w: World, assets: SpriteAssets<'_>) -> bool {
    forall|i: int|
        0 <= i < w.sprite@.len() && #[trigger] w.sprite@[i] is Some ==> {
            let s = w.sprite@[i]->Some_0;
            spec_drawable(s.spec_sheet(assets)) && s.spec_frame() < s.spec_sheet(assets).frames
        }
}

/// Every collision box the world holds has nonnegative half-extents.
pub open spec fn spec_boxes_drawable(w: World) -> bool {
    forall|i: int|
        0 <= i < w.collision@.len() && #[trigger] w.collision@[i] is Some ==> {
            let b = w.collision@[i]->Some_0.bounds@;
            b.1.0 >= 0 && b.1.1 >= 0
        }
}

/// Translates a world-space screen position by the camera offset, and flips
/// the vertical axis so that world 'up' points up the screen.
pub fn apply_camera(pos: (i32, i32), offset: (i32, i32), y_flip: Option<i32>) -> (r: (i32, i32))
    requires
        i32::MIN <= pos.0 + offset.0 <= i32::MAX,
        i32::MIN <= pos.1 + offset.1 <= i32::MAX,
        y_flip matches Some(f) ==> i32::MIN <= f - (pos.1 + offset.1) <= i32::MAX,
    ensures
        r.0 == pos.0 + offset.0,
        r.1 == (match y_flip {
            Some(f) => f - (pos.1 + offset.1),
            None => pos.1 + offset.1,
        }),
{
    let x = pos.0 + offset.0;
    let mut y = pos.1 + offset.1;
    if let Some(y_flip) = y_flip {
        y = y_flip - y;
    }
    (x, y)
}

/// Renders the current game state into the surface: the background, then
/// every entity's sprite, then the corner marks of every collision box.
pub fn render_world(state: &State, assets: &SpriteAssets<'_>, surface: &mut Surface)
    requires
        old(surface).wf(),
        state.world.wf(),
        spec_world_ranges(state.world),
        spec_sprites_drawable(state.world, *assets),
        spec_boxes_drawable(state.world),
    ensures
        final(surface).wf(),
        final(surface).width == old(surface).width,
        final(surface).height == old(surface).height,
        final(surface).buffer@ == spec_render_boxes(
            state.world,
            spec_render_sprites(
                state.world,
                *assets,
                spec_cleared(old(surface).buffer@.len() as int),
                old(surface).width as int,
                old(surface).height as int,
                state.world.len() as int,
            ),
            old(surface).width as int,
            old(surface).height as int,
            state.world.len() as int,
        ),
{
    surface.clear([0x20, 0x20, 0x30, 0xff]);
    proof {
        assert(surface.buffer@ =~= spec_cleared(old(surface).buffer@.len() as int));
    }

    let fw = surface.width as i32;
    let fh = surface.height as i32;
    let offset = (fw / 2, fh / 2);

    let ghost cleared = surface.buffer@;
    let n = state.world.count();

    let mut i: usize = 0;
    while i < n
        invariant
            surface.wf(),
            surface.width == old(surface).width,
            surface.height == old(surface).height,
            state.world.wf(),
            spec_world_ranges(state.world),
            spec_sprites_drawable(state.world, *assets),
            n == state.world.len(),
            i <= n,
            fw == surface.width as i32,
            fh == surface.height as i32,
            offset.0 == fw / 2 && offset.1 == fh / 2,
            surface.buffer@ == spec_render_sprites(
                state.world,
                *assets,
                cleared,
                fw as int,
                fh as int,
                i as int,
            ),
        decreases n - i,
    {
        if let (Some(spatial), Some(sprite)) = (state.world.spatial[i], state.world.sprite[i]) {
            proof {
                lemma_div_is_ordered(spatial.0@.0, 0x0C000000, 65536);
                lemma_div_is_ordered(-0x0C000000, spatial.0@.0, 65536);
                lemma_div_is_ordered(spatial.0@.1, 0x0C000000, 65536);
                lemma_div_is_ordered(-0x0C000000, spatial.0@.1, 65536);
            }
            let pos = apply_camera(spatial.0.screen(), offset, Some(fh));
            let flip = match state.world.controller[i] {
                Some(c) => c.direction.is_left(),
                None => false,
            };

            sprite.blit(surface, assets, pos, flip);
        }
        i = i + 1;
    }

    let ghost sprited = surface.buffer@;

    let mut i: usize = 0;
    while i < n
        invariant
            surface.wf(),
            surface.width == old(surface).width,
            surface.height == old(surface).height,
            state.world.wf(),
            spec_world_ranges(state.world),
            spec_boxes_drawable(state.world),
            n == state.world.len(),
            i <= n,
            fw == surface.width as i32,
            fh == surface.height as i32,
            offset.0 == fw / 2 && offset.1 == fh / 2,
            surface.buffer@ == spec_render_boxes(
                state.world,
                sprited,
                fw as int,
                fh as int,
                i as int,
            ),
        decreases n - i,
    {
        if let (Some(spatial), Some(coll)) = (state.world.spatial[i], state.world.collision[i]) {
            proof {
                let p = spatial.0@;
                let b = coll.bounds@;
                lemma_div_is_ordered(p.0 + b.0.0, 0x0C400000, 65536);
                lemma_div_is_ordered(-0x0C400000, p.0 + b.0.0, 65536);
                lemma_div_is_ordered(p.1 + b.0.1, 0x0C400000, 65536);
                lemma_div_is_ordered(-0x0C400000, p.1 + b.0.1, 65536);
                lemma_div_pos_is_pos(b.1.0, 65536);
                lemma_div_is_ordered(b.1.0, 0x400000, 65536);
                lemma_div_pos_is_pos(b.1.1, 65536);
                lemma_div_is_ordered(b.1.1, 0x400000, 65536);
            }
            let world_pos = spatial.0.add(coll.bounds.pos);
            let pos = apply_camera(world_pos.screen(), offset, Some(fh));
            let dim = coll.bounds.dim.screen();

            let min = (pos.0 - dim.0, pos.1 - dim.1);
            let max = (pos.0 + dim.0, pos.1 + dim.1);
            corners(surface, min, max, [0x00, 0xff, 0xff, 0xff]);
        }
        i = i + 1;
    }
}

} // verus!
