use vstd::prelude::*;

use crate::component::animation::Animation;
use crate::component::collision::Collision;
use crate::component::controller::{Controller, MoveDirection};
use crate::component::coyote::CoyoteTime;
use crate::component::physics::Physics;
use crate::component::spatial::Spatial;
use crate::component::sprite::{Sprite, SpriteAssets};
use crate::game::event::{Events, StaticCollision};
use crate::game::npc::{spec_bonk, spec_npc_conn};
use crate::game::physics::{
    spec_conn_mid, spec_entity_tick, spec_physics_events, spec_qual_b, spec_world_ranges,
    spec_yote_out,
};
use crate::game::sprite::spec_sprite_step;
use crate::math::collision::BoundingBox;
use crate::math::vector::{vraw, Vector};
use crate::game::world::{Entity, World};

verus! {

/// The controller table after the event pass and the NPC pass: wall-contact
/// events of the prior frame turn non-player entities around, then every
/// non-player entity decides to walk exactly when it is on the floor.
pub open spec fn spec_conn_after_events(
    w: World,
    evs: Seq<StaticCollision>,
    player: Entity,
) -> Seq<Option<Controller>> {
    let c1 = spec_bonk(w.controller@, evs, player);
    Seq::new(
        c1.len(),
        |i: int|
            if 0 <= i < w.player@.len() && !w.player@[i] && c1[i] is Some {
                Some(spec_npc_conn(c1[i]->Some_0))
            } else {
                c1[i]
            },
    )
}

/// The controller every entity starts with: unlocked, idle, airborne,
/// facing right.
pub open spec fn spec_idle_controller() -> Controller {
    Controller {
        locked: false,
        jumping: false,
        moving: false,
        on_floor: false,
        direction: MoveDirection::Right,
    }
}

/// The physics every entity starts with: at rest, walking speed 100.
pub open spec fn spec_still_physics() -> Physics {
    Physics { vel: vraw(0, 0), speed: 100 }
}

/// The local collision box both walking entities start with: centered on the
/// entity, half-extents 10 by 14 units.
pub open spec fn spec_start_collision() -> Collision {
    Collision { bounds: BoundingBox { pos: vraw(0, 0), dim: vraw(655360, 917504) } }
}

/// Game state: the entity store and the player's handle.
pub struct State {
    pub world: World,
    pub player: Entity,
}

impl State {
    /// The fixed starting scene: the player, one grounded test entity, and a
    /// decorative rat, in that spawn order.
    pub fn new() -> (r: State)
        ensures
            r.world.wf(),
            spec_world_ranges(r.world),
            r.world.len() == 3,
            r.player.0 == 0,
            r.world.player@ =~= seq![true, false, false],
            r.world.spatial@ =~= seq![
                Some(Spatial(vraw(0, 0))),
                Some(Spatial(vraw(0, 0))),
                Some(Spatial(vraw(-6553600i32, -7405568i32))),
            ],
            r.world.physics@ =~= seq![
                Some(spec_still_physics()),
                Some(spec_still_physics()),
                None,
            ],
            r.world.controller@ =~= seq![
                Some(spec_idle_controller()),
                Some(spec_idle_controller()),
                None,
            ],
            r.world.coyote@ =~= seq![Some(CoyoteTime { pre: 0 }), None, None],
            r.world.collision@ =~= seq![
                Some(spec_start_collision()),
                Some(spec_start_collision()),
                None,
            ],
            r.world.sprite@ =~= seq![
                Some(Sprite::Test(0)),
                Some(Sprite::Test(2)),
                Some(Sprite::Rat(0)),
            ],
            r.world.animation@ =~= seq![
                Some(Animation { tick: 0, next: 0 }),
                Some(Animation { tick: 0, next: 0 }),
                Some(Animation { tick: 0, next: 0 }),
            ],
    {
        let mut world = World::new();
        let player = world.spawn(
            Some(Spatial::new(0, 0)),
            Some(Physics::new(0, 0)),
            Some(Controller::new()),
            Some(CoyoteTime::new()),
            Some(Collision::new(Vector::from_int(0, 0), Vector::from_int(10, 14))),
            Some(Sprite::Test(0)),
            Some(Animation::new()),
            true,
        );

        world.spawn(
            Some(Spatial::new(0, 0)),
            Some(Physics::new(0, 0)),
            Some(Controller::new()),
            None,
            Some(Collision::new(Vector::from_int(0, 0), Vector::from_int(10, 14))),
            Some(Sprite::Test(2)),
            Some(Animation::new()),
            false,
        );

        world.spawn(
            Some(Spatial::new(-100, -113)),
            None,
            None,
            None,
            None,
            Some(Sprite::Rat(0)),
            Some(Animation::new()),
            false,
        );

        State { world, player }
    }

    /// One simulation tick: the prior frame's contact events are delivered
    /// to the NPCs, NPCs decide their movement, physics integrates and
    /// resolves every entity, and the sprite animations advance by
    /// `tick_rate` milliseconds.
    pub fn update(&mut self, tick_rate: u64, events: &mut Events, assets: &SpriteAssets<'_>)
        requires
            old(self).world.wf(),
            spec_world_ranges(old(self).world),
        ensures
            final(self).player == old(self).player,
            final(self).world.wf(),
            spec_world_ranges(final(self).world),
            final(self).world.len() == old(self).world.len(),
            final(self).world.collision@ == old(self).world.collision@,
            final(self).world.player@ == old(self).world.player@,
            ({
                let w0 = old(self).world;
                let conn2 = spec_conn_after_events(
                    w0,
                    old(events).physics.visible(),
                    old(self).player,
                );
                &&& forall|i: int|
                    0 <= i < w0.len() ==> #[trigger] final(self).world.coyote@[i] == spec_yote_out(
                        conn2[i],
                        w0.coyote@[i],
                    )
                &&& forall|i: int|
                    0 <= i < w0.len() ==> {
                        let s0 = #[trigger] w0.spatial@[i];
                        let p0 = w0.physics@[i];
                        let l0 = w0.collision@[i];
                        let cmid = spec_conn_mid(conn2[i], w0.coyote@[i]);
                        if spec_qual_b(s0, p0, cmid, l0) {
                            let out = spec_entity_tick(
                                s0->Some_0.0@,
                                p0->Some_0.vel@,
                                p0->Some_0.speed as int,
                                cmid->Some_0,
                                l0->Some_0.bounds@,
                                Entity(i as u32),
                            );
                            &&& final(self).world.spatial@[i] == Some(
                                Spatial(vraw(out.0.0 as i32, out.0.1 as i32)),
                            )
                            &&& final(self).world.physics@[i] == Some(
                                (Physics {
                                    vel: vraw(out.1.0 as i32, out.1.1 as i32),
                                    speed: p0->Some_0.speed,
                                }),
                            )
                            &&& final(self).world.controller@[i] == Some(out.2)
                        } else {
                            &&& final(self).world.spatial@[i] == s0
                            &&& final(self).world.physics@[i] == p0
                            &&& final(self).world.controller@[i] == cmid
                        }
                    }
                &&& forall|i: int|
                    0 <= i < w0.len() ==> {
                        let s0 = #[trigger] w0.sprite@[i];
                        let a0 = w0.animation@[i];
                        if s0 is Some && a0 is Some {
                            let (s2, a2) = spec_sprite_step(
                                s0->Some_0,
                                a0->Some_0,
                                tick_rate,
                                *assets,
                            );
                            final(self).world.sprite@[i] == Some(s2)
                                && final(self).world.animation@[i] == Some(a2)
                        } else {
                            final(self).world.sprite@[i] == s0 && final(self).world.animation@[i]
                                == a0
                        }
                    }
                &&& final(events).physics.pending() == old(events).physics.pending()
                    + spec_physics_events(
                    w0.spatial@,
                    w0.physics@,
                    conn2,
                    w0.coyote@,
                    w0.collision@,
                    w0.len() as int,
                )
                &&& final(events).physics.visible() == old(events).physics.visible()
            }),
    {
        let ghost w0 = self.world;
        let ghost evs0 = events.physics.visible();
        let ghost conn2 = spec_conn_after_events(w0, evs0, self.player);

        self.event_npc_static_collision(events.physics.read());
        self.process_npcs();

        proof {
            assert(self.world.controller@ =~= conn2);
        }

        self.process_physics(events);
        self.process_sprites(tick_rate, assets);
    }
}

} // verus!
