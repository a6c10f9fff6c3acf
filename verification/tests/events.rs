use spellthief::game::event::{EventQueue, Events, StaticCollision};
use spellthief::game::world::Entity;
use spellthief::math::vector::Vector;

#[test]
fn queue() {
    let mut physics_events: EventQueue<StaticCollision> = EventQueue::new();

    physics_events.update();

    physics_events.static_collision(Entity::dangling(), Vector::zero());
    physics_events.static_collision(Entity::dangling(), Vector::zero());

    assert_eq!(physics_events.len(), 2);

    physics_events.update();

    physics_events.static_collision(Entity::dangling(), Vector::zero());

    assert_eq!(physics_events.len(), 3);

    physics_events.clear();

    assert_eq!(physics_events.len(), 0);
}

#[test]
fn queue_visibility_lag() {
    let mut q: EventQueue<StaticCollision> = EventQueue::new();
    let a = StaticCollision { entity: Entity(1), normal: Vector::from_int(0, -1) };
    let b = StaticCollision { entity: Entity(2), normal: Vector::from_int(1, 0) };
    let c = StaticCollision { entity: Entity(3), normal: Vector::from_int(-1, 0) };

    q.send(a);
    q.send(b);
    // nothing is visible until the buffers swap
    assert!(q.read().is_empty());

    q.update();
    assert_eq!(q.read().as_slice(), &[a, b]);

    // a third event sent after the swap stays invisible until the next one
    q.send(c);
    assert_eq!(q.read().as_slice(), &[a, b]);
    assert_eq!(q.len(), 3);

    q.update();
    assert_eq!(q.read().as_slice(), &[c]);
}

#[test]
fn queue_update_discards_old_events() {
    let mut q: EventQueue<StaticCollision> = EventQueue::new();
    let a = StaticCollision { entity: Entity(1), normal: Vector::zero() };

    q.send(a);
    q.update();
    assert_eq!(q.len(), 1);
    // the event is older than one tick now, the next swap discards it
    q.update();
    assert_eq!(q.len(), 0);
    assert!(q.is_empty());
}

#[test]
fn events_aggregate_fans_out() {
    let mut events = Events::new();
    let a = StaticCollision { entity: Entity(7), normal: Vector::from_int(0, -1) };

    events.physics.send(a);
    events.update();
    assert_eq!(events.physics.read().as_slice(), &[a]);

    events.clear();
    assert!(events.physics.is_empty());
}
