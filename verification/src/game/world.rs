use vstd::prelude::*;

use crate::component::animation::Animation;
use crate::component::collision::Collision;
use crate::component::controller::Controller;
use crate::component::coyote::CoyoteTime;
use crate::component::physics::Physics;
use crate::component::spatial::Spatial;
use crate::component::sprite::Sprite;

verus! {

/// An opaque entity handle: an index into the world's component tables.
#[derive(Clone, Copy, Debug, PartialEq, Eq, Hash, Structural)]
pub struct Entity(pub u32);

impl Entity {
    /// A handle that never names a live entity.
    pub fn dangling() -> (r: Entity)
        ensures
            r.0 == u32::MAX,
    {
        Entity(u32::MAX)
    }
}

/// The entity store: an arena of entity handles with one strongly-typed
/// component table per component kind, all indexed by the handle. A `None`
/// entry means the entity does not carry that component.
pub struct World {
    pub spatial: Vec<Option<Spatial>>,
    pub physics: Vec<Option<Physics>>,
    pub controller: Vec<Option<Controller>>,
    pub coyote: Vec<Option<CoyoteTime>>,
    pub collision: Vec<Option<Collision>>,
    pub sprite: Vec<Option<Sprite>>,
    pub animation: Vec<Option<Animation>>,
    pub player: Vec<bool>,
}

impl World {
    /// How many entities have been spawned.
    pub open spec fn len(&self) -> nat {
        self.spatial@.len()
    }

    /// All component tables cover the same entities, and the count fits the
    /// handle type.
    pub open spec fn wf(&self) -> bool {
        &&& self.physics@.len() == self.len()
        &&& self.controller@.len() == self.len()
        &&& self.coyote@.len() == self.len()
        &&& self.collision@.len() == self.len()
        &&& self.sprite@.len() == self.len()
        &&& self.animation@.len() == self.len()
        &&& self.player@.len() == self.len()
        &&& self.len() < u32::MAX
    }

    pub fn new() -> (r: World)
        ensures
            r.wf(),
            r.len() == 0,
    {
        World {
            spatial: Vec::new(),
            physics: Vec::new(),
            controller: Vec::new(),
            coyote: Vec::new(),
            collision: Vec::new(),
            sprite: Vec::new(),
            animation: Vec::new(),
            player: Vec::new(),
        }
    }

    /// How many entities have been spawned.
    pub fn count(&self) -> (r: usize)
        requires
            self.wf(),
        ensures
            r == self.len(),
    {
        self.spatial.len()
    }

    /// Adds an entity with the given components and returns its handle.
    pub fn spawn(
        &mut self,
        spatial: Option<Spatial>,
        physics: Option<Physics>,
        controller: Option<Controller>,
        coyote: Option<CoyoteTime>,
        collision: Option<Collision>,
        sprite: Option<Sprite>,
        animation: Option<Animation>,
        player: bool,
    ) -> (r: Entity)
        requires
            old(self).wf(),
            old(self).len() + 1 < u32::MAX,
        ensures
            final(self).wf(),
            final(self).len() == old(self).len() + 1,
            r.0 == old(self).len(),
            final(self).spatial@ == old(self).spatial@.push(spatial),
            final(self).physics@ == old(self).physics@.push(physics),
            final(self).controller@ == old(self).controller@.push(controller),
            final(self).coyote@ == old(self).coyote@.push(coyote),
            final(self).collision@ == old(self).collision@.push(collision),
            final(self).sprite@ == old(self).sprite@.push(sprite),
            final(self).animation@ == old(self).animation@.push(animation),
            final(self).player@ == old(self).player@.push(player),
    {
        let id = self.spatial.len();
        self.spatial.push(spatial);
        self.physics.push(physics);
        self.controller.push(controller);
        self.coyote.push(coyote);
        self.collision.push(collision);
        self.sprite.push(sprite);
        self.animation.push(animation);
        self.player.push(player);
        Entity(id as u32)
    }
}

} // verus!
