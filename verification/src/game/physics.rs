use vstd::math::abs;
use vstd::prelude::*;

use crate::component::collision::Collision;
use crate::component::controller::{Controller, MoveDirection};
use crate::component::coyote::CoyoteTime;
use crate::component::physics::Physics;
use crate::component::spatial::Spatial;
use crate::game::event::{EventQueue, Events, StaticCollision};
use crate::game::state::State;
use crate::game::world::Entity;
use crate::math::collision::{lemma_overlap_hit_bounds, overlap_spec, BoundingBox};
use crate::math::scaled::{div_trunc, pow10, spec_from_int, spec_new, Scaled};
use crate::math::vector::{vraw, Vector};

verus! {

/// Duration of one simulation tick in milliseconds (20 ticks per second).
pub const DELTA: i32 = 50;

/// Positions are clamped to this many raw fractions from the origin after
/// integration, the explicit clamp-to-range policy that keeps the fixed
/// point arithmetic of the tick free of overflow.
pub const POS_LIMIT_RAW: i32 = 0x08000000;

/// Gravity, in raw fractions per tick of acceleration: `Scaled::new(98, 1)`,
/// that is 9.8 units.
pub open spec fn spec_gravity() -> int {
    spec_new(98, 1)
}

/// The downward acceleration applied every tick.
pub open spec fn spec_grav_acc() -> int {
    div_trunc(-spec_gravity(), DELTA as int)
}

/// The friction acceleration magnitude: gravity per tick on the floor, half
/// of that in the air.
pub open spec fn spec_friction(on_floor: bool) -> int {
    if on_floor {
        div_trunc(spec_gravity(), DELTA as int)
    } else {
        div_trunc(div_trunc(spec_gravity(), DELTA as int), 2)
    }
}

/// The symmetric speed limit both velocity components are clamped to.
pub open spec fn spec_limit() -> int {
    spec_new(200, 0)
}

/// The vertical launch speed of a jump.
pub open spec fn spec_jump_vel() -> int {
    spec_from_int(3)
}

/// Friction opposes the current horizontal velocity, clamped so that it can
/// cancel the velocity exactly but never flip its sign.
pub open spec fn spec_friction_acc(vx: int, fric: int) -> int {
    if vx == 0 {
        0
    } else {
        let a = if vx > 0 {
            -fric
        } else {
            fric
        };
        if (vx > 0 && vx + a < 0) || (vx < 0 && vx + a > 0) {
            -vx
        } else {
            a
        }
    }
}

/// `v` clamped to `[-lim, lim]`, as the min/max chain computes it.
pub open spec fn spec_clamp(v: int, lim: int) -> int {
    let m = if v <= lim {
        v
    } else {
        lim
    };
    if m >= -lim {
        m
    } else {
        -lim
    }
}

/// The four world-fixed walls bounding the arena: right, left, top, bottom.
/// The arena is 160 units of half-width by 120 of half-height, with walls 20
/// units thick centered just outside it.
pub open spec fn spec_walls() -> Seq<BoundingBox> {
    seq![
        BoundingBox { pos: vraw(11796480, 0), dim: vraw(1310720, 7864320) },
        BoundingBox { pos: vraw(-11796480i32, 0), dim: vraw(1310720, 7864320) },
        BoundingBox { pos: vraw(0, 9175040), dim: vraw(10485760, 1310720) },
        BoundingBox { pos: vraw(0, -9175040i32), dim: vraw(10485760, 1310720) },
    ]
}

/// Pass A of the tick, for one entity with a controller and a coyote
/// counter: a still-buffered jump request forces `jumping`; standing on the
/// floor clears the buffer, while airborne one frame of it is consumed.
pub open spec fn spec_pass_a(c: Controller, y: CoyoteTime) -> (Controller, CoyoteTime) {
    let c1 = if y.pre > 0 {
        Controller { jumping: true, ..c }
    } else {
        c
    };
    let y1 = if c.on_floor {
        CoyoteTime { pre: 0 }
    } else {
        CoyoteTime { pre: if y.pre > 0 { (y.pre - 1) as u32 } else { 0 } }
    };
    (c1, y1)
}

/// Steps 1 to 7 of the tick for one entity, over mathematical views:
/// jump trigger, gravity, friction, velocity integration, velocity clamp,
/// position integration, locomotion, and the position clamp policy.
pub open spec fn spec_integrate(pos: (int, int), vel: (int, int), speed: int, conn: Controller) -> (
    (int, int),
    (int, int),
    Controller,
) {
    let (vel1, conn1) = if conn.on_floor && conn.jumping {
        ((vel.0, spec_jump_vel()), Controller { on_floor: false, ..conn })
    } else {
        (vel, conn)
    };
    let acc_x = spec_friction_acc(vel1.0, spec_friction(conn1.on_floor));
    let vel2 = (vel1.0 + acc_x, vel1.1 + spec_grav_acc());
    let vel3 = (spec_clamp(vel2.0, spec_limit()), spec_clamp(vel2.1, spec_limit()));
    let pos1 = (pos.0 + vel3.0, pos.1 + vel3.1);
    let walk = div_trunc(speed, DELTA as int) * 65536;
    let pos2 = if conn1.moving {
        match conn1.direction {
            MoveDirection::Left => (pos1.0 - walk, pos1.1),
            MoveDirection::Right => (pos1.0 + walk, pos1.1),
        }
    } else {
        pos1
    };
    let pos3 = (
        spec_clamp(pos2.0, POS_LIMIT_RAW as int),
        spec_clamp(pos2.1, POS_LIMIT_RAW as int),
    );
    (pos3, vel3, conn1)
}

/// Step 8 of the tick against one wall: on overlap the position is corrected
/// by the hit delta; an upward normal lands the entity (emitting an event on
/// the landing transition only) and zeroes the vertical velocity; a
/// horizontal normal always emits an event and zeroes the horizontal
/// velocity.
pub open spec fn spec_resolve_wall(
    pos: (int, int),
    vel: (int, int),
    conn: Controller,
    coll: ((int, int), (int, int)),
    wall: BoundingBox,
    id: Entity,
) -> ((int, int), (int, int), Controller, Seq<StaticCollision>) {
    let world_box = ((coll.0.0 + pos.0, coll.0.1 + pos.1), coll.1);
    match overlap_spec(world_box, wall@) {
        None => (pos, vel, conn, Seq::<StaticCollision>::empty()),
        Some(hit) => {
            let pos1 = (pos.0 - hit.1.0, pos.1 - hit.1.1);
            let normal = vraw(hit.2.0 as i32, hit.2.1 as i32);
            let ev = StaticCollision { entity: id, normal };
            let (conn1, vel_y, evs1) = if hit.2.1 == -65536 {
                if !conn.on_floor {
                    (
                        Controller { on_floor: true, ..conn },
                        0,
                        Seq::<StaticCollision>::empty().push(ev),
                    )
                } else {
                    (conn, 0, Seq::<StaticCollision>::empty())
                }
            } else {
                (conn, vel.1, Seq::<StaticCollision>::empty())
            };
            let (vel_x, evs2) = if abs(hit.2.0) == 65536 {
                (0, evs1.push(ev))
            } else {
                (vel.0, evs1)
            };
            (pos1, (vel_x, vel_y), conn1, evs2)
        },
    }
}

/// Step 8 folded over a list of walls, in order.
pub open spec fn spec_resolve_walls(
    pos: (int, int),
    vel: (int, int),
    conn: Controller,
    coll: ((int, int), (int, int)),
    walls: Seq<BoundingBox>,
    id: Entity,
) -> ((int, int), (int, int), Controller, Seq<StaticCollision>)
    decreases walls.len(),
{
    if walls.len() == 0 {
        (pos, vel, conn, Seq::<StaticCollision>::empty())
    } else {
        let r1 = spec_resolve_walls(pos, vel, conn, coll, walls.drop_last(), id);
        let r2 = spec_resolve_wall(r1.0, r1.1, r1.2, coll, walls.last(), id);
        (r2.0, r2.1, r2.2, r1.3 + r2.3)
    }
}

/// The whole of pass B for one entity: integration, resolution against the
/// arena walls, and the end-of-tick controller reset.
pub open spec fn spec_entity_tick(
    pos: (int, int),
    vel: (int, int),
    speed: int,
    conn: Controller,
    coll: ((int, int), (int, int)),
    id: Entity,
) -> ((int, int), (int, int), Controller, Seq<StaticCollision>) {
    let (p1, v1, c1) = spec_integrate(pos, vel, speed, conn);
    let r = spec_resolve_walls(p1, v1, c1, coll, spec_walls(), id);
    (r.0, r.1, Controller { jumping: false, moving: false, ..r.2 }, r.3)
}

/// Positions the tick accepts: clamped positions plus the slack wall
/// resolution can add in one tick.
pub open spec fn spec_pos_ok(p: (int, int)) -> bool {
    abs(p.0) <= 0x0C000000 && abs(p.1) <= 0x0C000000
}

/// Velocities the tick accepts: anything `Physics::new` can produce.
pub open spec fn spec_vel_ok(v: (int, int)) -> bool {
    abs(v.0) <= 0x7FFF0000 && abs(v.1) <= 0x7FFF0000
}

/// Collision boxes the tick accepts: local boxes within 64 units.
pub open spec fn spec_coll_ok(c: ((int, int), (int, int))) -> bool {
    abs(c.0.0) <= 0x400000 && abs(c.0.1) <= 0x400000 && abs(c.1.0) <= 0x400000 && abs(c.1.1)
        <= 0x400000
}

/// Walk speeds the tick accepts.
pub open spec fn spec_speed_ok(s: int) -> bool {
    0 <= s <= 100000
}

/// Every entity's physical components are within the ranges the tick's
/// fixed point arithmetic is proved for.
pub open spec fn spec_world_ranges(w: crate::game::world::World) -> bool {
    forall|i: int|
        0 <= i < w.spatial@.len() ==> {
            &&& (#[trigger] w.spatial@[i] matches Some(s) ==> spec_pos_ok(s.0@))
            &&& (w.physics@[i] matches Some(p) ==> spec_vel_ok(p.vel@) && spec_speed_ok(
                p.speed as int,
            ))
            &&& (w.collision@[i] matches Some(c) ==> spec_coll_ok(c.bounds@))
        }
}

/// The controller after pass A, for an entity that may or may not carry the
/// pass's components.
pub open spec fn spec_conn_mid(c: Option<Controller>, y: Option<CoyoteTime>) -> Option<
    Controller,
> {
    if c is Some && y is Some {
        Some(spec_pass_a(c->Some_0, y->Some_0).0)
    } else {
        c
    }
}

/// The coyote counter after the tick (only pass A touches it).
pub open spec fn spec_yote_out(c: Option<Controller>, y: Option<CoyoteTime>) -> Option<
    CoyoteTime,
> {
    if c is Some && y is Some {
        Some(spec_pass_a(c->Some_0, y->Some_0).1)
    } else {
        y
    }
}

/// Whether an entity takes part in pass B: it has all of position, physics,
/// controller and collision box.
pub open spec fn spec_qual_b(
    s: Option<Spatial>,
    p: Option<Physics>,
    c: Option<Controller>,
    l: Option<Collision>,
) -> bool {
    s is Some && p is Some && c is Some && l is Some
}

/// All wall-contact events the tick emits for the first `n` entities, in
/// entity order, given the component tables the tick starts from.
pub open spec fn spec_physics_events(
    sp: Seq<Option<Spatial>>,
    ph: Seq<Option<Physics>>,
    cn: Seq<Option<Controller>>,
    cy: Seq<Option<CoyoteTime>>,
    cl: Seq<Option<Collision>>,
    n: int,
) -> Seq<StaticCollision>
    decreases n,
{
    if n <= 0 {
        Seq::<StaticCollision>::empty()
    } else {
        let i = n - 1;
        let prev = spec_physics_events(sp, ph, cn, cy, cl, i);
        let cmid = spec_conn_mid(cn[i], cy[i]);
        if spec_qual_b(sp[i], ph[i], cmid, cl[i]) {
            prev + spec_entity_tick(
                sp[i]->Some_0.0@,
                ph[i]->Some_0.vel@,
                ph[i]->Some_0.speed as int,
                cmid->Some_0,
                cl[i]->Some_0.bounds@,
                Entity(i as u32),
            ).3
        } else {
            prev
        }
    }
}

/// Coyote-time landing: an entity whose pre-jump counter is still positive
/// has `jumping` forced true by the very next pass A, whatever the rest of
/// its state.
pub proof fn lemma_coyote_jump_honoured(c: Controller, y: CoyoteTime)
    requires
        y.pre > 0,
    ensures
        spec_pass_a(c, y).0.jumping,
{
}

/// Friction never overshoots: whenever the friction magnitude is at least
/// the size of a nonzero horizontal velocity, applying the friction
/// acceleration lands the velocity exactly on zero.
pub proof fn lemma_friction_no_overshoot(vx: int, fric: int)
    requires
        vx != 0,
        fric >= abs(vx),
    ensures
        vx + spec_friction_acc(vx, fric) == 0,
{
}

/// `v` clamped to the symmetric range `[-lim, lim]`.
fn clamp_scaled(v: Scaled, lim: Scaled) -> (r: Scaled)
    requires
        lim@ > 0,
    ensures
        r@ == spec_clamp(v@, lim@),
{
    v.min(lim).max(lim.neg())
}

/// The arena's four walls.
fn arena_walls() -> (w: Vec<BoundingBox>)
    ensures
        w@ == spec_walls(),
{
    let walls = vec![
        BoundingBox::new(Vector::from_int(180, 0), Vector::from_int(20, 120)),
        BoundingBox::new(Vector::from_int(-180, 0), Vector::from_int(20, 120)),
        BoundingBox::new(Vector::from_int(0, 140), Vector::from_int(160, 20)),
        BoundingBox::new(Vector::from_int(0, -140), Vector::from_int(160, 20)),
    ];
    proof {
        assert(walls@ =~= spec_walls());
    }
    walls
}

/// Every arena wall is within the collision range, with half-extents at
/// most 160 units.
proof fn lemma_walls_bounded()
    ensures
        forall|j: int|
            0 <= j < spec_walls().len() ==> {
                &&& (#[trigger] spec_walls()[j]).bounded()
                &&& abs(spec_walls()[j]@.1.0) <= 0xA00000
                &&& abs(spec_walls()[j]@.1.1) <= 0xA00000
            },
{
    assert(spec_walls().len() == 4);
    assert(spec_walls()[0].bounded() && abs(spec_walls()[0]@.1.0) <= 0xA00000 && abs(
        spec_walls()[0]@.1.1,
    ) <= 0xA00000);
    assert(spec_walls()[1].bounded() && abs(spec_walls()[1]@.1.0) <= 0xA00000 && abs(
        spec_walls()[1]@.1.1,
    ) <= 0xA00000);
    assert(spec_walls()[2].bounded() && abs(spec_walls()[2]@.1.0) <= 0xA00000 && abs(
        spec_walls()[2]@.1.1,
    ) <= 0xA00000);
    assert(spec_walls()[3].bounded() && abs(spec_walls()[3]@.1.0) <= 0xA00000 && abs(
        spec_walls()[3]@.1.1,
    ) <= 0xA00000);
}

/// Pass B for one entity: integrates its motion, resolves it against the
/// walls, emits its contact events, and resets its controller flags.
fn integrate_entity(
    id: Entity,
    pos0: Spatial,
    phys0: Physics,
    conn0: Controller,
    coll: &Collision,
    walls: &Vec<BoundingBox>,
    queue: &mut EventQueue<StaticCollision>,
) -> (r: (Spatial, Physics, Controller))
    requires
        spec_pos_ok(pos0.0@),
        spec_vel_ok(phys0.vel@),
        spec_speed_ok(phys0.speed as int),
        spec_coll_ok(coll.bounds@),
        walls@ == spec_walls(),
    ensures
        ({
            let out = spec_entity_tick(
                pos0.0@,
                phys0.vel@,
                phys0.speed as int,
                conn0,
                coll.bounds@,
                id,
            );
            &&& r.0.0@ == out.0
            &&& r.1.vel@ == out.1
            &&& r.1.speed == phys0.speed
            &&& r.2 == out.2
            &&& final(queue).pending() == old(queue).pending() + out.3
            &&& final(queue).visible() == old(queue).visible()
            &&& spec_pos_ok(r.0.0@)
            &&& abs(r.1.vel@.0) <= spec_limit()
            &&& abs(r.1.vel@.1) <= spec_limit()
        }),
{
    let mut pos = pos0;
    let mut phys = phys0;
    let mut conn = conn0;

    if conn.on_floor && conn.jumping {
        phys.vel.y = Scaled::from_int(3);
        conn.on_floor = false;
    }

    let gravity = Scaled::new(98, 1);
    proof {
        reveal_with_fuel(pow10, 2);
        assert(gravity@ == 642252);
        assert(spec_grav_acc() == -12845int);
        assert(spec_friction(true) == 12845int);
        assert(spec_friction(false) == 6422int);
        assert(spec_limit() == 13107200int);
    }
    let mut acc = Vector::from_scaled(Scaled::zero(), gravity.neg().div_int(DELTA));

    let friction = if conn.on_floor {
        gravity.div_int(DELTA)
    } else {
        gravity.div_int(DELTA).div_int(2)
    };
    if !phys.vel.x.is_zero() {
        let vel_p = phys.vel.x.is_positive();
        acc.x = if vel_p {
            friction.neg()
        } else {
            friction
        };
        let braked = phys.vel.x.add(acc.x);
        if (vel_p && braked.is_negative()) || (!vel_p && braked.is_positive()) {
            acc.x = phys.vel.x.neg();
        }
    }

    phys.vel = phys.vel.add(acc);

    let limit = Scaled::new(200, 0);
    phys.vel.x = clamp_scaled(phys.vel.x, limit);
    phys.vel.y = clamp_scaled(phys.vel.y, limit);

    pos.0 = pos.0.add(phys.vel);

    let speed = ((phys.speed as u32) / (DELTA as u32)) as i32;
    if conn.moving {
        match conn.direction {
            MoveDirection::Left => pos.0 = pos.0.sub(Vector::from_int(speed, 0)),
            MoveDirection::Right => pos.0 = pos.0.add(Vector::from_int(speed, 0)),
        }
    }

    let pos_limit = Scaled(POS_LIMIT_RAW);
    pos.0.x = clamp_scaled(pos.0.x, pos_limit);
    pos.0.y = clamp_scaled(pos.0.y, pos_limit);

    proof {
        let si = spec_integrate(pos0.0@, phys0.vel@, phys0.speed as int, conn0);
        assert(pos.0@ == si.0);
        assert(phys.vel@ == si.1);
        assert(conn == si.2);
        lemma_walls_bounded();
    }

    let ghost p1 = pos.0@;
    let ghost v1 = phys.vel@;
    let ghost c1 = conn;
    let ghost pending0 = queue.pending();

    let mut k: usize = 0;
    while k < walls.len()
        invariant
            walls@ == spec_walls(),
            k <= 4,
            spec_coll_ok(coll.bounds@),
            ({
                let r = spec_resolve_walls(p1, v1, c1, coll.bounds@, spec_walls().take(k as int), id);
                &&& pos.0@ == r.0
                &&& phys.vel@ == r.1
                &&& conn == r.2
                &&& queue.pending() == pending0 + r.3
            }),
            queue.visible() == old(queue).visible(),
            phys.speed == phys0.speed,
            abs(pos.0@.0) <= 0x08000000 + k * 0x01000000,
            abs(pos.0@.1) <= 0x08000000 + k * 0x01000000,
            abs(phys.vel@.0) <= spec_limit(),
            abs(phys.vel@.1) <= spec_limit(),
        decreases walls@.len() - k,
    {
        proof {
            lemma_walls_bounded();
            assert(spec_walls().take(k as int + 1).drop_last() =~= spec_walls().take(k as int));
            assert(spec_walls().take(k as int + 1).last() == spec_walls()[k as int]);
        }
        let wall = walls[k];
        let bounds = coll.bounds.offset(pos.0);
        if let Some(hit) = bounds.overlap(&wall) {
            proof {
                lemma_overlap_hit_bounds(bounds@, wall@);
            }
            pos.0 = pos.0.sub(hit.delta);
            if hit.normal.y == Scaled::from_int(-1) {
                if !conn.on_floor {
                    queue.static_collision(id, hit.normal);
                    conn.on_floor = true;
                }
                phys.vel.y = Scaled::zero();
            }
            if hit.normal.x.abs() == Scaled::from_int(1) {
                queue.static_collision(id, hit.normal);
                phys.vel.x = Scaled::zero();
            }
        }
        k = k + 1;
    }

    proof {
        assert(spec_walls().take(4) =~= spec_walls());
    }

    conn.reset();

    (pos, phys, conn)
}

impl State {
    /// The physics tick. Pass A buffers jumps for every entity with a
    /// controller and a coyote counter; pass B integrates and resolves every
    /// entity with position, physics, controller and collision box against
    /// the arena walls, emitting the contact events of this tick.
    pub fn process_physics(&mut self, events: &mut Events)
        requires
            old(self).world.wf(),
            spec_world_ranges(old(self).world),
        ensures
            final(self).player == old(self).player,
            final(self).world.wf(),
            spec_world_ranges(final(self).world),
            final(self).world.len() == old(self).world.len(),
            forall|i: int|
                0 <= i < old(self).world.len() ==> #[trigger] final(self).world.coyote@[i]
                    == spec_yote_out(old(self).world.controller@[i], old(self).world.coyote@[i]),
            forall|i: int|
                0 <= i < old(self).world.len() ==> {
                    let s0 = #[trigger] old(self).world.spatial@[i];
                    let p0 = old(self).world.physics@[i];
                    let c0 = old(self).world.controller@[i];
                    let y0 = old(self).world.coyote@[i];
                    let l0 = old(self).world.collision@[i];
                    let cmid = spec_conn_mid(c0, y0);
                    if spec_qual_b(s0, p0, cmid, l0) {
                        let out = spec_entity_tick(
                            s0->Some_0.0@,
                            p0->Some_0.vel@,
                            p0->Some_0.speed as int,
                            cmid->Some_0,
                            l0->Some_0.bounds@,
                            Entity(i as u32),
                        );
                        &&& final(self).world.spatial@[i] == Some(
                            Spatial(vraw(out.0.0 as i32, out.0.1 as i32)),
                        )
                        &&& final(self).world.physics@[i] == Some(
                            (Physics {
                                vel: vraw(out.1.0 as i32, out.1.1 as i32),
                                speed: p0->Some_0.speed,
                            }),
                        )
                        &&& final(self).world.controller@[i] == Some(out.2)
                    } else {
                        &&& final(self).world.spatial@[i] == s0
                        &&& final(self).world.physics@[i] == p0
                        &&& final(self).world.controller@[i] == cmid
                    }
                },
            final(self).world.collision@ == old(self).world.collision@,
            final(self).world.sprite@ == old(self).world.sprite@,
            final(self).world.animation@ == old(self).world.animation@,
            final(self).world.player@ == old(self).world.player@,
            final(events).physics.pending() == old(events).physics.pending()
                + spec_physics_events(
                old(self).world.spatial@,
                old(self).world.physics@,
                old(self).world.controller@,
                old(self).world.coyote@,
                old(self).world.collision@,
                old(self).world.len() as int,
            ),
            final(events).physics.visible() == old(events).physics.visible(),
    {
        let walls = arena_walls();
        let n = self.world.count();

        let mut i: usize = 0;
        while i < n
            invariant
                self.world.wf(),
                self.player == old(self).player,
                n == old(self).world.len(),
                i <= n,
                forall|j: int|
                    0 <= j < i ==> #[trigger] self.world.controller@[j] == spec_conn_mid(
                        old(self).world.controller@[j],
                        old(self).world.coyote@[j],
                    ),
                forall|j: int|
                    0 <= j < i ==> #[trigger] self.world.coyote@[j] == spec_yote_out(
                        old(self).world.controller@[j],
                        old(self).world.coyote@[j],
                    ),
                forall|j: int|
                    i <= j < n ==> #[trigger] self.world.controller@[j] == old(
                        self,
                    ).world.controller@[j],
                forall|j: int|
                    i <= j < n ==> #[trigger] self.world.coyote@[j] == old(self).world.coyote@[j],
                self.world.spatial@ == old(self).world.spatial@,
                self.world.physics@ == old(self).world.physics@,
                self.world.collision@ == old(self).world.collision@,
                self.world.sprite@ == old(self).world.sprite@,
                self.world.animation@ == old(self).world.animation@,
                self.world.player@ == old(self).world.player@,
            decreases n - i,
        {
            if let (Some(mut conn), Some(mut yote)) = (
                self.world.controller[i],
                self.world.coyote[i],
            ) {
                if yote.pre_jump() {
                    conn.jumping = true;
                }

                if conn.on_floor {
                    yote.reset();
                } else {
                    yote.tick();
                }
                self.world.controller[i] = Some(conn);
                self.world.coyote[i] = Some(yote);
            }
            i = i + 1;
        }

        let mut i: usize = 0;
        while i < n
            invariant
                self.world.wf(),
                spec_world_ranges(self.world),
                self.player == old(self).player,
                n == old(self).world.len(),
                self.world.len() == n,
                i <= n,
                walls@ == spec_walls(),
                forall|j: int|
                    0 <= j < n ==> #[trigger] self.world.coyote@[j] == spec_yote_out(
                        old(self).world.controller@[j],
                        old(self).world.coyote@[j],
                    ),
                forall|j: int|
                    0 <= j < i ==> {
                        let s0 = #[trigger] old(self).world.spatial@[j];
                        let p0 = old(self).world.physics@[j];
                        let c0 = old(self).world.controller@[j];
                        let y0 = old(self).world.coyote@[j];
                        let l0 = old(self).world.collision@[j];
                        let cmid = spec_conn_mid(c0, y0);
                        if spec_qual_b(s0, p0, cmid, l0) {
                            let out = spec_entity_tick(
                                s0->Some_0.0@,
                                p0->Some_0.vel@,
                                p0->Some_0.speed as int,
                                cmid->Some_0,
                                l0->Some_0.bounds@,
                                Entity(j as u32),
                            );
                            &&& self.world.spatial@[j] == Some(
                                Spatial(vraw(out.0.0 as i32, out.0.1 as i32)),
                            )
                            &&& self.world.physics@[j] == Some(
                                (Physics {
                                    vel: vraw(out.1.0 as i32, out.1.1 as i32),
                                    speed: p0->Some_0.speed,
                                }),
                            )
                            &&& self.world.controller@[j] == Some(out.2)
                        } else {
                            &&& self.world.spatial@[j] == s0
                            &&& self.world.physics@[j] == p0
                            &&& self.world.controller@[j] == cmid
                        }
                    },
                forall|j: int|
                    i <= j < n ==> #[trigger] self.world.spatial@[j] == old(
                        self,
                    ).world.spatial@[j],
                forall|j: int|
                    i <= j < n ==> #[trigger] self.world.physics@[j] == old(
                        self,
                    ).world.physics@[j],
                forall|j: int|
                    i <= j < n ==> #[trigger] self.world.controller@[j] == spec_conn_mid(
                        old(self).world.controller@[j],
                        old(self).world.coyote@[j],
                    ),
                self.world.collision@ == old(self).world.collision@,
                self.world.sprite@ == old(self).world.sprite@,
                self.world.animation@ == old(self).world.animation@,
                self.world.player@ == old(self).world.player@,
                events.physics.pending() == old(events).physics.pending() + spec_physics_events(
                    old(self).world.spatial@,
                    old(self).world.physics@,
                    old(self).world.controller@,
                    old(self).world.coyote@,
                    old(self).world.collision@,
                    i as int,
                ),
                events.physics.visible() == old(events).physics.visible(),
            decreases n - i,
        {
            let id = Entity(i as u32);
            if let (Some(pos), Some(phys), Some(conn), Some(coll)) = (
                self.world.spatial[i],
                self.world.physics[i],
                self.world.controller[i],
                self.world.collision[i],
            ) {
                let r = integrate_entity(id, pos, phys, conn, &coll, &walls, &mut events.physics);
                self.world.spatial[i] = Some(r.0);
                self.world.physics[i] = Some(r.1);
                self.world.controller[i] = Some(r.2);
            }
            i = i + 1;
        }
    }
}

} // verus!
