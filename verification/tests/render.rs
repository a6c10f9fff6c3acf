use spellthief::component::sprite::{Sprite, SpriteAssets};
use spellthief::embed::EmbeddedSprite;
use spellthief::render::shapes::corners;
use spellthief::render::surface::Surface;
use spellthief::util::TickRate;

fn tiny_sheet() -> EmbeddedSprite<'static> {
    // one 4x1 frame: texels 0, 1, 2, 3 packed into one byte
    EmbeddedSprite {
        width: 4,
        height: 1,
        offset: (0, 0),
        data: &[0x1B],
        palette: &[[0, 0, 0, 0], [10, 10, 10, 10], [20, 20, 20, 20], [30, 30, 30, 30]],
        frames: 1,
        default_delay: 200,
        anim: &[5, 7],
    }
}

fn tiny_assets() -> SpriteAssets<'static> {
    SpriteAssets { test: tiny_sheet(), rat: tiny_sheet() }
}

#[test]
fn sheet_row_cursor() {
    let sheet = tiny_sheet();
    let mut it = sheet.row(0);
    assert_eq!(it.next(), Some(0));
    assert_eq!(it.next(), Some(1));
    assert_eq!(it.next(), Some(2));
    assert_eq!(it.next(), Some(3));
    assert_eq!(it.next(), None);

    let mut it = sheet.row(0);
    assert_eq!(it.next_back(), Some(3));
    assert_eq!(it.next_back(), Some(2));
    assert_eq!(it.next(), Some(0));
    assert_eq!(it.next_back(), Some(1));
    assert_eq!(it.next_back(), None);

    assert_eq!(it.index(2), (0, 2));
}

#[test]
fn sheet_delay_lookup() {
    let sheet = tiny_sheet();
    assert_eq!(sheet.delay(0), 5);
    assert_eq!(sheet.delay(1), 7);
    // frames past the table fall back to the sheet default
    assert_eq!(sheet.delay(9), 200);
}

#[test]
fn sprite_next_wraps() {
    let assets = tiny_assets();
    let (next, delay) = Sprite::Test(0).next(&assets);
    // a single-frame sheet wraps straight back to frame 0
    assert_eq!(next, Sprite::Test(0));
    assert_eq!(delay, 5);

    let (sheet, frame) = Sprite::Rat(0).data(&assets);
    assert_eq!(frame, 0);
    assert_eq!(sheet.frames, 1);
}

#[test]
fn surface_clip_edges() {
    let surface = Surface::new(10, 10);

    let c = surface.clip((-2, -3), (3, 2)).expect("clip overlaps surface");
    assert_eq!((c.left, c.right, c.top, c.bottom), (2, 0, 3, 0));

    let c = surface.clip((8, 8), (12, 12)).expect("clip overlaps surface");
    assert_eq!((c.left, c.right, c.top, c.bottom), (0, 2, 0, 2));

    assert!(surface.clip((20, 0), (25, 5)).is_none());
    assert!(surface.clip((-9, 0), (-5, 5)).is_none());
}

#[test]
fn surface_clear_fills_pixels() {
    let mut surface = Surface::new(2, 2);
    surface.clear([1, 2, 3, 4]);
    assert_eq!(surface.buffer, vec![1, 2, 3, 4, 1, 2, 3, 4, 1, 2, 3, 4, 1, 2, 3, 4]);
}

#[test]
fn corners_marks_unclipped_corners() {
    let mut surface = Surface::new(4, 4);
    corners(&mut surface, (0, 0), (4, 4), [9, 9, 9, 9]);

    let pixel = |s: &Surface, x: usize, y: usize| {
        let i = (y * 4 + x) * 4;
        [s.buffer[i], s.buffer[i + 1], s.buffer[i + 2], s.buffer[i + 3]]
    };
    assert_eq!(pixel(&surface, 0, 0), [9, 9, 9, 9]);
    assert_eq!(pixel(&surface, 3, 0), [9, 9, 9, 9]);
    assert_eq!(pixel(&surface, 0, 3), [9, 9, 9, 9]);
    assert_eq!(pixel(&surface, 3, 3), [9, 9, 9, 9]);
    assert_eq!(pixel(&surface, 1, 1), [0, 0, 0, 0]);

    // a rectangle smaller than 2x2 is not drawn
    let mut small = Surface::new(4, 4);
    corners(&mut small, (1, 1), (2, 2), [9, 9, 9, 9]);
    assert!(small.buffer.iter().all(|&b| b == 0));
}

#[test]
fn blit_paints_palette_texels() {
    let assets = tiny_assets();
    let mut surface = Surface::new(4, 1);

    Sprite::Test(0).blit(&mut surface, &assets, (0, 0), false);

    // texel 0 is transparent; texels 1..3 paint their palette colours
    assert_eq!(&surface.buffer[0..4], &[0, 0, 0, 0]);
    assert_eq!(&surface.buffer[4..8], &[10, 10, 10, 10]);
    assert_eq!(&surface.buffer[8..12], &[20, 20, 20, 20]);
    assert_eq!(&surface.buffer[12..16], &[30, 30, 30, 30]);
}

#[test]
fn blit_flipped_mirrors_row() {
    let assets = tiny_assets();
    let mut surface = Surface::new(4, 1);

    // flipping moves the origin to the sheet's right edge
    Sprite::Test(0).blit(&mut surface, &assets, (4, 0), true);

    assert_eq!(&surface.buffer[0..4], &[30, 30, 30, 30]);
    assert_eq!(&surface.buffer[4..8], &[20, 20, 20, 20]);
    assert_eq!(&surface.buffer[8..12], &[10, 10, 10, 10]);
    assert_eq!(&surface.buffer[12..16], &[0, 0, 0, 0]);
}

#[test]
fn blit_clips_at_surface_edge() {
    let assets = tiny_assets();
    let mut surface = Surface::new(2, 1);

    // only the left half of the sprite is on the surface
    Sprite::Test(0).blit(&mut surface, &assets, (0, 0), false);
    assert_eq!(&surface.buffer[0..4], &[0, 0, 0, 0]);
    assert_eq!(&surface.buffer[4..8], &[10, 10, 10, 10]);

    // fully off screen changes nothing
    let mut surface = Surface::new(2, 1);
    Sprite::Test(0).blit(&mut surface, &assets, (100, 100), false);
    assert!(surface.buffer.iter().all(|&b| b == 0));
}

#[test]
fn render_world_smoke() {
    let sheet = EmbeddedSprite {
        width: 4,
        height: 1,
        offset: (2, 0),
        data: &[0x1B, 0x1B, 0x1B],
        palette: &[[0, 0, 0, 0], [10, 10, 10, 10], [20, 20, 20, 20], [30, 30, 30, 30]],
        frames: 3,
        default_delay: 200,
        anim: &[],
    };
    let assets = SpriteAssets { test: sheet, rat: sheet };
    let state = spellthief::game::state::State::new();
    let mut surface = Surface::new(320, 240);

    spellthief::render::render_world(&state, &assets, &mut surface);

    assert_eq!(surface.buffer.len(), 320 * 240 * 4);
    // an untouched pixel keeps the background colour
    assert_eq!(&surface.buffer[0..4], &[0x20, 0x20, 0x30, 0xff]);
}

#[test]
fn tick_rate_accumulates_lag() {
    let mut tick = TickRate::new(20, 1000);
    assert_eq!(tick.tick_rate(), 20);
    assert_eq!(tick.lag(), 0);

    tick.step(1035);
    assert_eq!(tick.lag(), 35);

    assert!(tick.should_update());
    assert_eq!(tick.lag(), 15);
    assert!(!tick.should_update());
    assert_eq!(tick.lag(), 15);

    tick.step(1040);
    assert_eq!(tick.lag(), 20);
    assert!(tick.should_update());
    assert!(!tick.should_update());
}
