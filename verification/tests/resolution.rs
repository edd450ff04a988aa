use matriarch::components::{
    BodyHandle, ChangeDirection, ColliderHandle, Components, EntityId, Walker,
};
use matriarch::direction::Direction;
use matriarch::geometry::Vec2;
use matriarch::physics::PhysicsAdapter;
use matriarch::resolution::{
    gather_touches, halt_bodies, resolve_direction_changes, turn_walkers, Touch,
};
use matriarch::world::World;

fn v2(x: i32, y: i32) -> Vec2 {
    Vec2 { x, y }
}

struct Scene {
    world: World,
    physics: PhysicsAdapter,
}

fn add_walker(s: &mut Scene, direction: Direction, velocity: Vec2) -> (EntityId, BodyHandle, ColliderHandle) {
    let (body, collider) = s.physics.create_dynamic_box(v2(0, 0), v2(500, 1_000), 0, 1_000);
    s.physics.set_velocity(body, velocity, 7);
    let e = s.world.create(Components {
        walker: Some(Walker { direction }),
        collider: Some(collider),
        ..Components::empty()
    });
    s.physics.attach(collider, e);
    (e, body, collider)
}

fn add_changer(s: &mut Scene, direction: Direction) -> ColliderHandle {
    let sensor = s.physics.create_sensor_box(v2(0, 0), v2(10_000, 20_000), 90);
    let e = s.world.create(Components {
        change_direction: Some(ChangeDirection { direction }),
        collider: Some(sensor),
        ..Components::empty()
    });
    s.physics.attach(sensor, e);
    sensor
}

fn direction_of(s: &Scene, e: EntityId) -> Direction {
    s.world.get(e).unwrap().walker.unwrap().direction
}

fn snapshot(s: &Scene, walkers: &[(EntityId, BodyHandle)]) -> Vec<(Direction, Vec2, i32)> {
    walkers
        .iter()
        .map(|(e, b)| {
            let body = s.physics.velocity_of(*b).unwrap();
            (direction_of(s, *e), body.linear, body.angular)
        })
        .collect()
}

#[test]
fn walker_in_a_changer_is_turned_and_stopped_sideways() {
    let mut s = Scene { world: World::new(), physics: PhysicsAdapter::new() };
    let (e, body, collider) = add_walker(&mut s, Direction::Right, v2(20_000, -9_810));
    let sensor = add_changer(&mut s, Direction::Left);
    assert!(s.physics.begin_proximity(sensor, collider));
    resolve_direction_changes(&mut s.world, &mut s.physics);
    assert_eq!(direction_of(&s, e), Direction::Left);
    let b = s.physics.velocity_of(body).unwrap();
    assert_eq!(b.linear, v2(0, -9_810));
    assert_eq!(b.angular, 7);
}

#[test]
fn walker_that_already_matches_is_left_alone() {
    let mut s = Scene { world: World::new(), physics: PhysicsAdapter::new() };
    let (e, body, collider) = add_walker(&mut s, Direction::Left, v2(-20_000, 3));
    let sensor = add_changer(&mut s, Direction::Left);
    s.physics.begin_proximity(sensor, collider);
    resolve_direction_changes(&mut s.world, &mut s.physics);
    assert_eq!(direction_of(&s, e), Direction::Left);
    assert_eq!(s.physics.velocity_of(body).unwrap().linear, v2(-20_000, 3));
}

#[test]
fn walker_outside_every_changer_is_left_alone() {
    let mut s = Scene { world: World::new(), physics: PhysicsAdapter::new() };
    let (e, body, _) = add_walker(&mut s, Direction::Right, v2(20_000, 0));
    add_changer(&mut s, Direction::Left);
    resolve_direction_changes(&mut s.world, &mut s.physics);
    assert_eq!(direction_of(&s, e), Direction::Right);
    assert_eq!(s.physics.velocity_of(body).unwrap().linear, v2(20_000, 0));
}

#[test]
fn resolution_twice_changes_nothing_more() {
    let mut s = Scene { world: World::new(), physics: PhysicsAdapter::new() };
    let (a, ba, ca) = add_walker(&mut s, Direction::Right, v2(20_000, -5));
    let (b, bb, cb) = add_walker(&mut s, Direction::Left, v2(-20_000, 8));
    let (c, bc, _) = add_walker(&mut s, Direction::Right, v2(20_000, 0));
    let left = add_changer(&mut s, Direction::Left);
    let right = add_changer(&mut s, Direction::Right);
    s.physics.begin_proximity(left, ca);
    s.physics.begin_proximity(right, cb);
    let walkers = [(a, ba), (b, bb), (c, bc)];
    resolve_direction_changes(&mut s.world, &mut s.physics);
    let first = snapshot(&s, &walkers);
    assert_eq!(
        first,
        vec![
            (Direction::Left, v2(0, -5), 7),
            (Direction::Right, v2(0, 8), 7),
            (Direction::Right, v2(20_000, 0), 7),
        ]
    );
    let touches = gather_touches(&s.world, &s.physics);
    assert_eq!(touches.len(), 2);
    assert!(turn_walkers(&mut s.world, &touches).is_empty());
    resolve_direction_changes(&mut s.world, &mut s.physics);
    assert_eq!(snapshot(&s, &walkers), first);
}

#[test]
fn walker_between_two_opposed_changers_follows_the_later_one() {
    let mut s = Scene { world: World::new(), physics: PhysicsAdapter::new() };
    let (e, body, collider) = add_walker(&mut s, Direction::Right, v2(20_000, 1));
    let left = add_changer(&mut s, Direction::Left);
    let right = add_changer(&mut s, Direction::Right);
    s.physics.begin_proximity(left, collider);
    s.physics.begin_proximity(right, collider);
    let touches = gather_touches(&s.world, &s.physics);
    let stopped = turn_walkers(&mut s.world, &touches);
    assert_eq!(stopped, vec![body, body]);
    assert_eq!(direction_of(&s, e), Direction::Right);
    let again = turn_walkers(&mut s.world, &touches);
    assert_eq!(again, vec![body, body]);
    assert_eq!(direction_of(&s, e), Direction::Right);
}

#[test]
fn touches_list_sensor_direction_owner_and_body() {
    let mut s = Scene { world: World::new(), physics: PhysicsAdapter::new() };
    let (e, body, collider) = add_walker(&mut s, Direction::Right, v2(1, 1));
    let ownerless = s.physics.create_static_box(v2(0, 0), v2(1, 1), 0);
    let sensor = add_changer(&mut s, Direction::Left);
    s.physics.begin_proximity(sensor, ownerless);
    s.physics.begin_proximity(sensor, collider);
    let touches: Vec<Touch> = gather_touches(&s.world, &s.physics);
    assert_eq!(touches.len(), 1);
    assert_eq!(touches[0].direction, Direction::Left);
    assert_eq!(touches[0].entity, e);
    assert_eq!(touches[0].body, Some(body));
}

#[test]
fn changer_touching_a_thing_that_is_no_walker_does_nothing() {
    let mut s = Scene { world: World::new(), physics: PhysicsAdapter::new() };
    let (body, collider) = s.physics.create_dynamic_box(v2(0, 0), v2(1, 1), 0, 1);
    s.physics.set_velocity(body, v2(9, 9), 0);
    let e = s.world.create(Components { collider: Some(collider), ..Components::empty() });
    s.physics.attach(collider, e);
    let sensor = add_changer(&mut s, Direction::Left);
    s.physics.begin_proximity(sensor, collider);
    resolve_direction_changes(&mut s.world, &mut s.physics);
    assert!(s.world.get(e).unwrap().walker.is_none());
    assert_eq!(s.physics.velocity_of(body).unwrap().linear, v2(9, 9));
}

#[test]
fn walker_without_body_is_turned_all_the_same() {
    let mut s = Scene { world: World::new(), physics: PhysicsAdapter::new() };
    let collider = s.physics.create_static_box(v2(0, 0), v2(1, 1), 0);
    let e = s.world.create(Components {
        walker: Some(Walker { direction: Direction::Right }),
        collider: Some(collider),
        ..Components::empty()
    });
    s.physics.attach(collider, e);
    let sensor = add_changer(&mut s, Direction::Left);
    s.physics.begin_proximity(sensor, collider);
    resolve_direction_changes(&mut s.world, &mut s.physics);
    assert_eq!(direction_of(&s, e), Direction::Left);
}

#[test]
fn stale_owner_is_not_found() {
    let mut s = Scene { world: World::new(), physics: PhysicsAdapter::new() };
    let (e, body, collider) = add_walker(&mut s, Direction::Right, v2(5, 5));
    let sensor = add_changer(&mut s, Direction::Left);
    s.physics.begin_proximity(sensor, collider);
    let touches = gather_touches(&s.world, &s.physics);
    s.world.replace(e, Components::empty());
    let mut world_without = World::new();
    let stopped = turn_walkers(&mut world_without, &touches);
    assert!(stopped.is_empty());
    assert_eq!(s.physics.velocity_of(body).unwrap().linear, v2(5, 5));
}

#[test]
fn halting_keeps_vertical_and_angular_velocity() {
    let mut physics = PhysicsAdapter::new();
    let (body, collider) = physics.create_dynamic_box(v2(0, 0), v2(1, 1), 0, 1);
    let (other, _) = physics.create_dynamic_box(v2(0, 0), v2(1, 1), 0, 1);
    physics.set_velocity(body, v2(11, 22), 33);
    physics.set_velocity(other, v2(44, 55), 66);
    physics.remove_collider(collider);
    halt_bodies(&mut physics, &vec![body, other, other]);
    assert!(physics.velocity_of(body).is_none());
    let b = physics.velocity_of(other).unwrap();
    assert_eq!((b.linear, b.angular), (v2(0, 55), 66));
}
