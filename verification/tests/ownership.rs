use matriarch::arena::Handle;
use matriarch::command::Command;
use matriarch::components::{ColliderHandle, Components, Walker};
use matriarch::config::GameConfig;
use matriarch::direction::Direction;
use matriarch::geometry::Vec2;
use matriarch::lifecycle::{flush, kill_walker};
use matriarch::physics::PhysicsAdapter;
use matriarch::simulation::Simulation;
use matriarch::spawner::SpawnDraw;
use matriarch::world::World;

fn v2(x: i32, y: i32) -> Vec2 {
    Vec2 { x, y }
}

fn agree(world: &World, physics: &PhysicsAdapter) -> bool {
    for i in 0..world.slot_count() {
        if let Some((e, c)) = world.entity_at(i) {
            if let Some(h) = c.collider {
                if physics.entity_of(h) != Some(e) {
                    return false;
                }
            }
        }
    }
    for i in 0..physics.collider_slots() {
        if let Some((h, c)) = physics.collider_at(i) {
            if let Some(owner) = c.owner {
                match world.get(owner) {
                    Some(carried) if carried.collider == Some(h) => {}
                    _ => return false,
                }
            }
            if let Some(b) = c.body {
                if physics.velocity_of(b).is_none() {
                    return false;
                }
            }
        }
    }
    true
}

#[test]
fn entity_is_created_without_a_collider_that_is_gone() {
    let mut world = World::new();
    let mut physics = PhysicsAdapter::new();
    let gone = ColliderHandle { handle: Handle { index: 3, generation: 0 } };
    let created = flush(
        &mut world,
        &mut physics,
        &vec![Components { collider: Some(gone), camera: true, ..Components::empty() }],
    );
    let c = world.get(created[0]).unwrap();
    assert_eq!(c.collider, None);
    assert!(c.camera);
    assert!(agree(&world, &physics));
}

#[test]
fn entity_does_not_take_a_collider_from_its_owner() {
    let mut world = World::new();
    let mut physics = PhysicsAdapter::new();
    let h = physics.create_static_box(v2(0, 0), v2(1, 1), 0);
    let pending = vec![
        Components { collider: Some(h), ..Components::empty() },
        Components { collider: Some(h), ..Components::empty() },
    ];
    let created = flush(&mut world, &mut physics, &pending);
    assert_eq!(world.get(created[0]).unwrap().collider, Some(h));
    assert_eq!(world.get(created[1]).unwrap().collider, None);
    assert_eq!(physics.entity_of(h), Some(created[0]));
    assert!(agree(&world, &physics));
}

#[test]
fn collider_handles_stay_valid_while_others_come_and_go() {
    let mut physics = PhysicsAdapter::new();
    let keep = physics.create_sensor_box(v2(1, 2), v2(3, 4), 90);
    let mut others = Vec::new();
    for i in 0..20 {
        let (_, c) = physics.create_dynamic_box(v2(i, i), v2(1, 1), 0, 1);
        physics.begin_proximity(keep, c);
        others.push(c);
    }
    for c in others {
        assert!(physics.remove_collider(c));
        let kept = physics.collider(keep).unwrap();
        assert_eq!((kept.position, kept.half_extent, kept.rotation_deg), (v2(1, 2), v2(3, 4), 90));
    }
    assert!(physics.proximity_of(keep).is_empty());
}

#[test]
fn entities_and_colliders_agree_after_every_tick() {
    let config = GameConfig::default();
    let mut sim = Simulation::new(32);
    sim.start_level(v2(0, 0), &config.spawner, 3);
    assert!(agree(&sim.world, &sim.physics));
    for n in 0..1_500u32 {
        let draw = SpawnDraw {
            x: n.wrapping_mul(7_919),
            y: n.wrapping_mul(104_729),
            direction: if n % 3 == 0 { Direction::Left } else { Direction::Right },
            frequency: n.wrapping_mul(31),
        };
        if n % 50 == 0 {
            sim.command(Command::DropRam);
        }
        if n % 70 == 0 {
            sim.command(Command::DropLift);
        }
        if n % 90 == 0 {
            sim.command(Command::DropDirectionChanger);
        }
        sim.tick(33, &draw, &config);
        assert!(agree(&sim.world, &sim.physics));
        if n % 200 == 199 {
            let mut walkers = Vec::new();
            for i in 0..sim.world.slot_count() {
                if let Some((e, c)) = sim.world.entity_at(i) {
                    if c.walker.is_some() {
                        walkers.push(e);
                    }
                }
            }
            if let Some(first) = walkers.first() {
                assert!(kill_walker(&mut sim.world, &mut sim.physics, &mut sim.stats, *first));
                assert!(agree(&sim.world, &sim.physics));
            }
        }
    }
    let mut rams = 0;
    let mut owned = 0;
    for i in 0..sim.world.slot_count() {
        if let Some((_, c)) = sim.world.entity_at(i) {
            rams += c.constant_velocity.is_some() as u32;
            owned += c.collider.is_some() as u32;
        }
    }
    assert!(owned > 0);
    assert!(rams <= 4);
    assert!(sim.stats.killed > 0);
}

#[test]
fn walker_of_the_simulation_owns_its_body() {
    let config = GameConfig::default();
    let mut sim = Simulation::new(8);
    sim.start_level(v2(0, 0), &config.spawner, 0);
    let draw = SpawnDraw { x: 0, y: 0, direction: Direction::Left, frequency: 0 };
    for _ in 0..20 {
        sim.tick(100, &draw, &config);
    }
    let (e, c) = sim.world.entity_at(0).unwrap();
    assert_eq!(c.walker, Some(Walker { direction: Direction::Left }));
    let h = c.collider.unwrap();
    assert_eq!(sim.physics.entity_of(h), Some(e));
    assert!(sim.physics.body_of(h).is_some());
}

fn is_send_and_sync<T: Send + Sync>() {}

#[test]
fn simulation_can_be_shared_between_threads() {
    is_send_and_sync::<Simulation>();
    is_send_and_sync::<World>();
    is_send_and_sync::<PhysicsAdapter>();
}
