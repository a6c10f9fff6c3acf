use vstd::math::abs;
use vstd::prelude::*;

use crate::component::controller::Controller;
use crate::game::event::StaticCollision;
use crate::game::state::State;
use crate::game::world::Entity;

verus! {

/// What one wall-contact event does to the controller table: an entity other
/// than the player that hears of its own horizontal contact turns around.
pub open spec fn spec_bonk_one(
    conns: Seq<Option<Controller>>,
    e: StaticCollision,
    player: Entity,
) -> Seq<Option<Controller>> {
    let i = e.entity.0 as int;
    if e.entity != player && abs(e.normal.x@) > 0 && i < conns.len() && conns[i] is Some {
        let c = conns[i]->Some_0;
        conns.update(i, Some(Controller { direction: c.direction.spec_flip(), ..c }))
    } else {
        conns
    }
}

/// The controller table after every event of a frame has been heard, in
/// the order the events were sent.
pub open spec fn spec_bonk(
    conns: Seq<Option<Controller>>,
    evs: Seq<StaticCollision>,
    player: Entity,
) -> Seq<Option<Controller>>
    decreases evs.len(),
{
    if evs.len() == 0 {
        conns
    } else {
        spec_bonk_one(spec_bonk(conns, evs.drop_last(), player), evs.last(), player)
    }
}

/// What the NPC pass does to one controller: an entity that is not the
/// player walks whenever it stands on the floor.
pub open spec fn spec_npc_conn(c: Controller) -> Controller {
    Controller { moving: c.on_floor, ..c }
}

impl State {
    /// Every entity with a controller except the player decides to walk
    /// exactly when it is on the floor.
    pub fn process_npcs(&mut self)
        requires
            old(self).world.wf(),
        ensures
            final(self).player == old(self).player,
            final(self).world.wf(),
            final(self).world.controller@.len() == old(self).world.controller@.len(),
            forall|i: int|
                0 <= i < old(self).world.len() ==> final(self).world.controller@[i] == (
                if !old(self).world.player@[i] && old(self).world.controller@[i] is Some {
                    Some(spec_npc_conn(old(self).world.controller@[i]->Some_0))
                } else {
                    old(self).world.controller@[i]
                }),
            final(self).world.spatial@ == old(self).world.spatial@,
            final(self).world.physics@ == old(self).world.physics@,
            final(self).world.coyote@ == old(self).world.coyote@,
            final(self).world.collision@ == old(self).world.collision@,
            final(self).world.sprite@ == old(self).world.sprite@,
            final(self).world.animation@ == old(self).world.animation@,
            final(self).world.player@ == old(self).world.player@,
    {
        let n = self.world.count();
        let mut i: usize = 0;
        while i < n
            invariant
                self.world.wf(),
                self.player == old(self).player,
                n == old(self).world.len(),
                i <= n,
                self.world.controller@.len() == old(self).world.controller@.len(),
                forall|j: int|
                    0 <= j < i ==> self.world.controller@[j] == (
                    if !old(self).world.player@[j] && old(self).world.controller@[j] is Some {
                        Some(spec_npc_conn(old(self).world.controller@[j]->Some_0))
                    } else {
                        old(self).world.controller@[j]
                    }),
                forall|j: int|
                    i <= j < n ==> self.world.controller@[j] == old(self).world.controller@[j],
                self.world.spatial@ == old(self).world.spatial@,
                self.world.physics@ == old(self).world.physics@,
                self.world.coyote@ == old(self).world.coyote@,
                self.world.collision@ == old(self).world.collision@,
                self.world.sprite@ == old(self).world.sprite@,
                self.world.animation@ == old(self).world.animation@,
                self.world.player@ == old(self).world.player@,
            decreases n - i,
        {
            if !self.world.player[i] {
                if let Some(mut conn) = self.world.controller[i] {
                    conn.moving = conn.on_floor;
                    self.world.controller[i] = Some(conn);
                }
            }
            i = i + 1;
        }
    }

    /// Lets every entity but the player react to the wall contacts of the
    /// prior frame: a horizontal contact turns the entity around.
    pub fn event_npc_static_collision(&mut self, events: &Vec<StaticCollision>)
        requires
            old(self).world.wf(),
        ensures
            final(self).player == old(self).player,
            final(self).world.wf(),
            final(self).world.controller@ == spec_bonk(
                old(self).world.controller@,
                events@,
                old(self).player,
            ),
            final(self).world.spatial@ == old(self).world.spatial@,
            final(self).world.physics@ == old(self).world.physics@,
            final(self).world.coyote@ == old(self).world.coyote@,
            final(self).world.collision@ == old(self).world.collision@,
            final(self).world.sprite@ == old(self).world.sprite@,
            final(self).world.animation@ == old(self).world.animation@,
            final(self).world.player@ == old(self).world.player@,
    {
        let n = events.len();
        let mut k: usize = 0;
        while k < n
            invariant
                self.world.wf(),
                self.player == old(self).player,
                n == events@.len(),
                k <= n,
                self.world.controller@ == spec_bonk(
                    old(self).world.controller@,
                    events@.take(k as int),
                    old(self).player,
                ),
                self.world.spatial@ == old(self).world.spatial@,
                self.world.physics@ == old(self).world.physics@,
                self.world.coyote@ == old(self).world.coyote@,
                self.world.collision@ == old(self).world.collision@,
                self.world.sprite@ == old(self).world.sprite@,
                self.world.animation@ == old(self).world.animation@,
                self.world.player@ == old(self).world.player@,
            decreases n - k,
        {
            let event = events[k];
            proof {
                assert(events@.take(k as int + 1).drop_last() =~= events@.take(k as int));
                assert(events@.take(k as int + 1).last() == events@[k as int]);
            }
            k = k + 1;

            if event.entity.0 == self.player.0 {
                continue;
            }

            if !event.normal.x.is_zero() {
                let idx = event.entity.0 as usize;
                if idx < self.world.count() {
                    if let Some(mut conn) = self.world.controller[idx] {
                        conn.direction = conn.direction.flip();
                        self.world.controller[idx] = Some(conn);
                    }
                }
            }
        }
        proof {
            assert(events@.take(n as int) =~= events@);
        }
    }
}

} // verus!
