use spellthief::component::collision::Collision;
use spellthief::component::controller::{Controller, MoveDirection};
use spellthief::component::coyote::CoyoteTime;
use spellthief::component::physics::Physics;
use spellthief::component::spatial::Spatial;
use spellthief::game::event::Events;
use spellthief::game::state::State;
use spellthief::game::world::World;
use spellthief::math::scaled::Scaled;
use spellthief::math::vector::Vector;

#[test]
fn state_new_spawns_scene() {
    let state = State::new();
    assert_eq!(state.world.count(), 3);
    assert_eq!(state.player.0, 0);
    assert!(state.world.player[0]);
    assert!(!state.world.player[1]);
    assert!(state.world.coyote[0].is_some());
    assert!(state.world.coyote[1].is_none());
    assert!(state.world.physics[2].is_none());
}

#[test]
fn coyote_counter() {
    let mut yote = CoyoteTime::new();
    assert!(!yote.pre_jump());
    yote.set_pre_jump();
    assert_eq!(yote.pre, 5);
    assert!(yote.pre_jump());
    yote.tick();
    assert_eq!(yote.pre, 4);
    yote.reset();
    assert!(!yote.pre_jump());
    yote.tick();
    assert_eq!(yote.pre, 0);
}

#[test]
fn controller_flags() {
    let mut conn = Controller::new();
    assert!(conn.direction.is_right());
    conn.face_left();
    assert!(conn.direction.is_left());
    assert_eq!(conn.direction.flip(), MoveDirection::Right);
    conn.jumping = true;
    conn.moving = true;
    conn.reset();
    assert!(!conn.jumping && !conn.moving);
    assert!(conn.direction.is_left());
}

/// An airborne entity with a buffered pre-jump has `jumping` forced true by
/// the very next pass A, here observable because the entity takes no part
/// in pass B (it has no spatial or physics component to integrate).
#[test]
fn coyote_landing_forces_jump() {
    let mut state = State::new();
    let mut events = Events::new();

    let conn = Controller::new();
    let yote = CoyoteTime { pre: 3 };
    let id = state
        .world
        .spawn(None, None, Some(conn), Some(yote), None, None, None, false);

    state.process_physics(&mut events);

    let conn = state.world.controller[id.0 as usize].unwrap();
    assert!(conn.jumping);
    // airborne, so one frame of the buffer was consumed
    assert_eq!(state.world.coyote[id.0 as usize].unwrap().pre, 2);
}

/// Standing on the floor clears the whole pre-jump buffer at once.
#[test]
fn coyote_buffer_cleared_on_floor() {
    let mut state = State::new();
    let mut events = Events::new();

    let conn = Controller { on_floor: true, ..Controller::new() };
    let yote = CoyoteTime { pre: 3 };
    let id = state
        .world
        .spawn(None, None, Some(conn), Some(yote), None, None, None, false);

    state.process_physics(&mut events);

    assert_eq!(state.world.coyote[id.0 as usize].unwrap().pre, 0);
}

/// Friction larger than a small horizontal velocity lands it exactly on
/// zero in one tick, never flipping its sign.
#[test]
fn friction_no_overshoot() {
    let mut state = State::new();
    let mut events = Events::new();

    // airborne friction is 6422 raw fractions per tick; start below that
    let phys = Physics { vel: Vector { x: Scaled(5000), y: Scaled(0) }, speed: 100 };
    let id = state.world.spawn(
        Some(Spatial::new(0, 0)),
        Some(phys),
        Some(Controller::new()),
        None,
        Some(Collision::new(Vector::from_int(0, 0), Vector::from_int(1, 1))),
        None,
        None,
        false,
    );

    state.process_physics(&mut events);

    let phys = state.world.physics[id.0 as usize].unwrap();
    assert_eq!(phys.vel.x, Scaled::zero());
    // gravity still applies vertically: one tick of -9.8 / 50
    assert_eq!(phys.vel.y, Scaled(-12845));
}

/// An entity dropped into the bottom wall is pushed back out, lands, zeroes
/// its vertical velocity, and announces the contact with an upward normal —
/// visible to readers only after the next buffer swap.
#[test]
fn landing_emits_event_next_tick() {
    let mut state = State::new();
    let mut events = Events::new();

    let id = state.world.spawn(
        Some(Spatial::new(0, -110)),
        Some(Physics::new(0, 0)),
        Some(Controller::new()),
        None,
        Some(Collision::new(Vector::from_int(0, 0), Vector::from_int(10, 14))),
        None,
        None,
        false,
    );

    state.process_physics(&mut events);

    let conn = state.world.controller[id.0 as usize].unwrap();
    assert!(conn.on_floor);
    let phys = state.world.physics[id.0 as usize].unwrap();
    assert_eq!(phys.vel.y, Scaled::zero());
    // the entity rests on the wall's top edge
    let pos = state.world.spatial[id.0 as usize].unwrap();
    assert_eq!(pos.0.y.unit(), -106);

    // not visible yet
    assert!(events.physics.read().is_empty());
    events.update();
    let seen = events.physics.read();
    assert_eq!(seen.len(), 1);
    assert_eq!(seen[0].entity, id);
    assert_eq!(seen[0].normal, Vector::from_int(0, -1));
}

/// A second landing tick does not announce the contact again: the event
/// fires on the landing transition only.
#[test]
fn landing_event_fires_once() {
    let mut state = State::new();
    let mut events = Events::new();

    state.world.spawn(
        Some(Spatial::new(0, -110)),
        Some(Physics::new(0, 0)),
        Some(Controller::new()),
        None,
        Some(Collision::new(Vector::from_int(0, 0), Vector::from_int(10, 14))),
        None,
        None,
        false,
    );

    state.process_physics(&mut events);
    events.update();
    assert_eq!(events.physics.read().len(), 1);

    state.process_physics(&mut events);
    events.update();
    assert_eq!(events.physics.read().len(), 0);
}

/// A horizontal wall contact flips a non-player entity's facing direction
/// once the event reaches it on the following tick.
#[test]
fn npc_turns_around_on_wall_contact() {
    let mut state = State::new();
    let mut events = Events::new();

    // deep inside the right wall, moving right
    let conn = Controller { on_floor: false, ..Controller::new() };
    let id = state.world.spawn(
        Some(Spatial::new(155, 0)),
        Some(Physics::new(0, 0)),
        Some(conn),
        None,
        Some(Collision::new(Vector::from_int(0, 0), Vector::from_int(10, 14))),
        None,
        None,
        false,
    );

    state.process_physics(&mut events);
    events.update();
    let seen = events.physics.read();
    assert_eq!(seen.len(), 1);
    assert_eq!(seen[0].normal, Vector::from_int(1, 0));

    let before = state.world.controller[id.0 as usize].unwrap().direction;
    let visible = events.physics.read().clone();
    state.event_npc_static_collision(&visible);
    let after = state.world.controller[id.0 as usize].unwrap().direction;
    assert_eq!(after, before.flip());
}

/// Jump input on the floor triggers a jump on the next physics tick.
#[test]
fn input_jump_on_floor() {
    let mut state = State::new();

    // put the player on the floor first
    let mut conn = state.world.controller[0].unwrap();
    conn.on_floor = true;
    state.world.controller[0] = Some(conn);

    state.input(true, false, false, false);
    assert!(state.world.controller[0].unwrap().jumping);
}

/// Jump input in the air is buffered in the coyote counter instead.
#[test]
fn input_jump_airborne_buffers() {
    let mut state = State::new();

    state.input(true, false, false, false);
    assert!(!state.world.controller[0].unwrap().jumping);
    assert_eq!(state.world.coyote[0].unwrap().pre, 5);
}

/// Holding exactly one of left and right walks that way.
#[test]
fn input_walk_direction() {
    let mut state = State::new();
    state.input(false, false, true, false);
    let conn = state.world.controller[0].unwrap();
    assert!(conn.moving);
    assert!(conn.direction.is_left());

    let mut state = State::new();
    state.input(false, false, true, true);
    assert!(!state.world.controller[0].unwrap().moving);
}

/// A locked controller ignores all input.
#[test]
fn input_locked_ignores_everything() {
    let mut state = State::new();
    let mut conn = state.world.controller[0].unwrap();
    conn.locked = true;
    conn.on_floor = true;
    state.world.controller[0] = Some(conn);

    state.input(true, true, true, false);
    let conn = state.world.controller[0].unwrap();
    assert!(!conn.jumping && !conn.moving);
}

/// NPCs walk exactly when they stand on the floor.
#[test]
fn npcs_walk_on_floor() {
    let mut state = State::new();
    let mut events = Events::new();

    let conn = Controller { on_floor: true, ..Controller::new() };
    let id = state.world.spawn(None, None, Some(conn), None, None, None, None, false);

    state.process_npcs();
    assert!(state.world.controller[id.0 as usize].unwrap().moving);

    // the player's controller is left alone
    let mut pconn = state.world.controller[0].unwrap();
    pconn.on_floor = true;
    state.world.controller[0] = Some(pconn);
    state.process_npcs();
    assert!(!state.world.controller[0].unwrap().moving);

    // and a full update keeps simulating without incident
    let assets = common_assets();
    state.update(50, &mut events, &assets);
}

fn common_assets() -> spellthief::component::sprite::SpriteAssets<'static> {
    spellthief::component::sprite::SpriteAssets {
        test: spellthief::embed::EmbeddedSprite {
            width: 4,
            height: 1,
            offset: (0, 0),
            data: &[0x1B],
            palette: &[[0, 0, 0, 0], [255, 255, 255, 255], [255, 255, 255, 255], [255, 255, 255, 255]],
            frames: 1,
            default_delay: 200,
            anim: &[],
        },
        rat: spellthief::embed::EmbeddedSprite {
            width: 4,
            height: 1,
            offset: (0, 0),
            data: &[0x1B],
            palette: &[[0, 0, 0, 0], [1, 1, 1, 1], [2, 2, 2, 2], [3, 3, 3, 3]],
            frames: 1,
            default_delay: 250,
            anim: &[],
        },
    }
}

/// A wall collision mid-logic still leaves the world well formed after a
/// whole composed update.
#[test]
fn update_composes_passes() {
    let mut state = State::new();
    let mut events = Events::new();
    let assets = common_assets();

    // drop the player into the bottom wall so the update emits a landing
    state.world.spatial[0] = Some(Spatial::new(0, -110));

    state.update(50, &mut events, &assets);
    assert_eq!(events.physics.read().len(), 0);
    events.update();
    assert_eq!(events.physics.read().len(), 1);
    assert!(state.world.controller[0].unwrap().on_floor);
}

#[test]
fn world_spawn_assigns_sequential_handles() {
    let mut world = World::new();
    let a = world.spawn(None, None, None, None, None, None, None, false);
    let b = world.spawn(None, None, None, None, None, None, None, false);
    assert_eq!(a.0, 0);
    assert_eq!(b.0, 1);
    assert_eq!(world.count(), 2);
}
