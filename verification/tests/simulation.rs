use matriarch::command::{Command, CommandBus};
use matriarch::components::{Color, Components, Shape, Solid};
use matriarch::config::GameConfig;
use matriarch::direction::Direction;
use matriarch::geometry::{Vec2, Vec3};
use matriarch::lifecycle::kill_walker;
use matriarch::shape_visualizer::{color_from_rgb, ShapeVisualizer};
use matriarch::simulation::{register_systems, Simulation, Systems};
use matriarch::spawner::SpawnDraw;
use matriarch::world::World;

fn draw(n: u32) -> SpawnDraw {
    SpawnDraw {
        x: n.wrapping_mul(2_654_435_761),
        y: n.wrapping_mul(40_503),
        direction: if n % 2 == 0 { Direction::Right } else { Direction::Left },
        frequency: n.wrapping_mul(97),
    }
}

fn counts(world: &World) -> (usize, usize, usize, usize, usize) {
    let (mut walkers, mut matriarchs, mut lifts, mut rams, mut changers) = (0, 0, 0, 0, 0);
    for i in 0..world.slot_count() {
        if let Some((_, c)) = world.entity_at(i) {
            walkers += c.walker.is_some() as usize;
            matriarchs += c.matriarch.is_some() as usize;
            lifts += c.launch_area.is_some() as usize;
            rams += c.constant_velocity.is_some() as usize;
            changers += c.change_direction.is_some() as usize;
        }
    }
    (walkers, matriarchs, lifts, rams, changers)
}

#[test]
fn every_tick_ends_with_one_matriarch_while_walkers_live() {
    let config = GameConfig::default();
    let mut sim = Simulation::new(16);
    sim.start_level(Vec2 { x: 0, y: 0 }, &config.spawner, 7);
    let mut n = 0u32;
    let mut seen_walkers = false;
    for _ in 0..2_000 {
        n += 1;
        sim.tick(16, &draw(n), &config);
        let (walkers, matriarchs, _, _, _) = counts(&sim.world);
        assert_eq!(matriarchs, walkers.min(1));
        assert_eq!(sim.spawner.unwrap().spawned_so_far, sim.stats.spawned);
        seen_walkers |= walkers > 0;
        if n % 400 == 0 {
            let mut leader = None;
            for i in 0..sim.world.slot_count() {
                if let Some((e, c)) = sim.world.entity_at(i) {
                    if c.matriarch.is_some() {
                        leader = Some(e);
                    }
                }
            }
            if let Some(e) = leader {
                assert!(kill_walker(&mut sim.world, &mut sim.physics, &mut sim.stats, e));
            }
        }
    }
    assert!(seen_walkers);
    assert!(sim.stats.killed >= 1);
}

#[test]
fn commands_are_ignored_during_the_grace_period_and_obeyed_after() {
    let config = GameConfig::default();
    let mut sim = Simulation::new(16);
    sim.start_level(Vec2 { x: 0, y: 0 }, &config.spawner, 0);
    let mut ticks = 0;
    while counts(&sim.world).0 == 0 {
        sim.tick(100, &draw(1), &config);
        ticks += 1;
        assert!(ticks < 100);
    }
    assert_eq!(counts(&sim.world), (1, 1, 0, 0, 0));
    sim.command(Command::DropRam);
    sim.command(Command::DropLift);
    sim.command(Command::DropDirectionChanger);
    sim.tick(100, &draw(1), &config);
    let (_, matriarchs, lifts, rams, changers) = counts(&sim.world);
    assert_eq!((matriarchs, lifts, rams, changers), (1, 0, 0, 0));
    for _ in 0..19 {
        sim.tick(100, &draw(1), &config);
    }
    sim.command(Command::DropRam);
    sim.tick(100, &draw(1), &config);
    let (_, matriarchs, lifts, rams, changers) = counts(&sim.world);
    assert_eq!((matriarchs, lifts, rams, changers), (1, 0, 1, 0));
    sim.tick(100, &draw(1), &config);
    assert_eq!(counts(&sim.world).3, 1);
    sim.command(Command::DropLift);
    sim.command(Command::DropDirectionChanger);
    sim.tick(100, &draw(1), &config);
    let (_, matriarchs, lifts, rams, changers) = counts(&sim.world);
    assert_eq!((matriarchs, lifts, rams, changers), (1, 1, 1, 1));
}

#[test]
fn ram_of_the_simulation_lives_for_its_lifetime() {
    let config = GameConfig::default();
    let mut sim = Simulation::new(16);
    sim.start_level(Vec2 { x: 0, y: 0 }, &config.spawner, 0);
    for _ in 0..40 {
        sim.tick(100, &draw(2), &config);
    }
    sim.command(Command::DropRam);
    sim.tick(100, &draw(2), &config);
    assert_eq!(counts(&sim.world).3, 1);
    for _ in 0..50 {
        sim.tick(100, &draw(2), &config);
        assert_eq!(counts(&sim.world).3, 1);
    }
    sim.tick(100, &draw(2), &config);
    assert_eq!(counts(&sim.world).3, 0);
}

#[test]
fn created_entities_exist_at_once() {
    let mut sim = Simulation::new(4);
    let e = sim.create(Components {
        camera: true,
        position: Some(Vec3 { x: 1, y: 2, z: 3 }),
        ..Components::empty()
    });
    assert!(sim.world.is_alive(e));
    assert_eq!(sim.world.get(e).unwrap().position, Some(Vec3 { x: 1, y: 2, z: 3 }));
    let config = GameConfig::default();
    sim.tick(16, &draw(0), &config);
    assert_eq!(sim.world.get(e).unwrap().position, Some(Vec3 { x: 1, y: 2, z: 3 }));
}

#[test]
fn start_level_resets_the_counters() {
    let config = GameConfig::default();
    let mut sim = Simulation::new(4);
    sim.stats.spawned = 5;
    sim.stats.saved = 2;
    sim.start_level(Vec2 { x: 3, y: 4 }, &config.spawner, 500);
    assert_eq!(sim.stats.spawned, 0);
    assert_eq!(sim.stats.saved, 0);
    assert_eq!(sim.stats.total, 100);
    let s = sim.spawner.unwrap();
    assert_eq!(s.position, Vec2 { x: 3, y: 4 });
    assert_eq!(s.frequency, 1_500);
    assert_eq!(s.spawned_so_far, 0);
    assert_eq!(s.max_count, 100);
}

#[test]
fn systems_registered_on_a_used_bus_see_only_later_commands() {
    let mut bus = CommandBus::new(8);
    bus.publish(Command::DropRam);
    let systems: Systems = register_systems(bus);
    let config = GameConfig::default();
    let mut sim = Simulation::new(8);
    sim.systems = systems;
    sim.world.create(Components {
        position: Some(Vec3 { x: 0, y: 0, z: 0 }),
        walker: Some(matriarch::components::Walker { direction: Direction::Left }),
        age: Some(matriarch::components::Age { millis: 60_000, max: None }),
        ..Components::empty()
    });
    sim.tick(16, &draw(0), &config);
    assert_eq!(counts(&sim.world), (1, 1, 0, 0, 0));
    sim.tick(3_000, &draw(0), &config);
    sim.command(Command::DropRam);
    sim.tick(16, &draw(0), &config);
    assert_eq!(counts(&sim.world), (1, 1, 0, 1, 0));
}

#[test]
fn shapes_without_mesh_get_one_request_each() {
    let mut world = World::new();
    let shape = Shape { solid: Solid::Cone(10), scale: Vec3 { x: 2_000, y: 2_000, z: 2_000 } };
    let cube = Shape { solid: Solid::Cube, scale: Vec3 { x: 1, y: 1, z: 1 } };
    let a = world.create(Components { shape: Some(shape), ..Components::empty() });
    let plain = world.create(Components::empty());
    let done = world.create(Components { shape: Some(cube), has_mesh: true, ..Components::empty() });
    let b = world.create(Components { shape: Some(cube), ..Components::empty() });
    let mut system = ShapeVisualizer::default();
    let requests = system.run(&mut world);
    assert_eq!(requests.len(), 2);
    assert_eq!((requests[0].entity, requests[0].shape), (a, shape));
    assert_eq!((requests[1].entity, requests[1].shape), (b, cube));
    assert_eq!(requests[0].color.a, 255);
    assert_eq!(requests[1].color.a, 255);
    assert!(world.get(a).unwrap().has_mesh);
    assert!(world.get(b).unwrap().has_mesh);
    assert!(world.get(done).unwrap().has_mesh);
    assert!(!world.get(plain).unwrap().has_mesh);
    assert!(system.run(&mut world).is_empty());
}

#[test]
fn random_colours_vary() {
    let mut seen = std::collections::HashSet::new();
    for _ in 0..50 {
        let mut world = World::new();
        world.create(Components {
            shape: Some(Shape { solid: Solid::Sphere, scale: Vec3 { x: 1, y: 1, z: 1 } }),
            ..Components::empty()
        });
        let requests = ShapeVisualizer::default().run(&mut world);
        let c = requests[0].color;
        assert_eq!(c.a, 255);
        seen.insert((c.r, c.g, c.b));
    }
    assert!(seen.len() > 1);
}

#[test]
fn colours_are_capped_at_full_brightness() {
    assert_eq!(color_from_rgb((0, 128, 255)), Color { r: 0, g: 128, b: 255, a: 255 });
    assert_eq!(color_from_rgb((256, 1_000, u32::MAX)), Color { r: 255, g: 255, b: 255, a: 255 });
}
