use vstd::prelude::*;

use crate::game::world::Entity;
use crate::math::vector::Vector;

verus! {

/// Defines a type that can be used with the events system.
pub trait Event: Send + Sync {

}

/// Queue of events.
///
/// This is double buffered to allow events to be read from the prior frame:
/// producers append to the front buffer, consumers read the back buffer, and
/// swapping the buffers is what makes one tick's events visible to the next.
pub struct EventQueue<E: Event> {
    pub front: Vec<E>,
    pub back: Vec<E>,
}

impl<E: Event> EventQueue<E> {
    /// The events sent since the last buffer swap, not yet visible to
    /// readers.
    pub open spec fn pending(&self) -> Seq<E> {
        self.front@
    }

    /// The events visible to readers: everything sent before the last swap.
    pub open spec fn visible(&self) -> Seq<E> {
        self.back@
    }

    pub fn new() -> (r: EventQueue<E>)
        ensures
            r.pending() == Seq::<E>::empty(),
            r.visible() == Seq::<E>::empty(),
    {
        EventQueue { front: Vec::new(), back: Vec::new() }
    }

    /// Sends an event to the current event queue buffer; it becomes visible
    /// to `read` only after the next `update`.
    pub fn send(&mut self, value: E)
        ensures
            final(self).pending() == old(self).pending().push(value),
            final(self).visible() == old(self).visible(),
    {
        self.front.push(value);
    }

    /// The events of the prior frame, in the order they were sent.
    pub fn read(&self) -> (r: &Vec<E>)
        ensures
            r@ == self.visible(),
    {
        &self.back
    }

    /// Swaps the event buffers: everything sent up to this call becomes
    /// visible, and whatever was visible before is discarded.
    pub fn update(&mut self)
        ensures
            final(self).visible() == old(self).pending(),
            final(self).pending() == Seq::<E>::empty(),
    {
        std::mem::swap(&mut self.front, &mut self.back);
        self.front.clear();
    }

    /// Clears all events, sent and visible alike.
    pub fn clear(&mut self)
        ensures
            final(self).pending() == Seq::<E>::empty(),
            final(self).visible() == Seq::<E>::empty(),
    {
        self.front.clear();
        self.back.clear();
    }

    /// How many events both buffers hold together.
    pub fn len(&self) -> (r: usize)
        requires
            self.pending().len() + self.visible().len() <= usize::MAX,
        ensures
            r == self.pending().len() + self.visible().len(),
    {
        self.front.len() + self.back.len()
    }

    pub fn is_empty(&self) -> (r: bool)
        requires
            self.pending().len() + self.visible().len() <= usize::MAX,
        ensures
            r == (self.pending().len() + self.visible().len() == 0),
    {
        self.len() == 0
    }
}

/// The one event kind this core emits: an entity came into contact with a
/// static surface, with the contact's surface normal.
#[derive(Clone, Copy, Debug, PartialEq, Eq, Structural)]
pub struct StaticCollision {
    pub entity: Entity,
    pub normal: Vector,
}

impl Event for StaticCollision {

}

impl EventQueue<StaticCollision> {
    /// Sends a static collision event.
    pub fn static_collision(&mut self, entity: Entity, normal: Vector)
        ensures
            final(self).pending() == old(self).pending().push(
                StaticCollision { entity, normal },
            ),
            final(self).visible() == old(self).visible(),
    {
        self.send(StaticCollision { entity, normal })
    }
}

/// Collection of event queues for all possible event types.
pub struct Events {
    pub physics: EventQueue<StaticCollision>,
}

impl Events {
    pub fn new() -> (r: Events)
        ensures
            r.physics.pending() == Seq::<StaticCollision>::empty(),
            r.physics.visible() == Seq::<StaticCollision>::empty(),
    {
        Events { physics: EventQueue::new() }
    }

    /// Swaps every queue's buffers at the tick boundary.
    pub fn update(&mut self)
        ensures
            final(self).physics.visible() == old(self).physics.pending(),
            final(self).physics.pending() == Seq::<StaticCollision>::empty(),
    {
        self.physics.update();
    }

    /// Clears every queue.
    pub fn clear(&mut self)
        ensures
            final(self).physics.pending() == Seq::<StaticCollision>::empty(),
            final(self).physics.visible() == Seq::<StaticCollision>::empty(),
    {
        self.physics.clear();
    }
}

} // verus!
