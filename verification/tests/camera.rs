use matriarch::camera_movement::{
    find_target, move_camera, read_zoom, step_towards, zoom_depth, CameraMovement, Target,
};
use matriarch::command::{Command, CommandBus};
use matriarch::components::{Components, EntityId, Matriarch, Walker};
use matriarch::config::CameraConfig;
use matriarch::direction::Direction;
use matriarch::geometry::{Vec2, Vec3};
use matriarch::stats::SpawnStats;
use matriarch::world::World;

fn config() -> CameraConfig {
    CameraConfig {
        offset: Vec2 { x: 50_000, y: 20_000 },
        convergence_speed: 2_000,
        zoom_speed: 100_000,
        z_min: 50_000,
        z_max: 500_000,
        final_position: None,
    }
}

fn camera_at(world: &mut World, x: i32, y: i32, z: i32) -> EntityId {
    world.create(Components {
        camera: true,
        position: Some(Vec3 { x, y, z }),
        ..Components::empty()
    })
}

fn matriarch_at(world: &mut World, x: i32, y: i32, direction: Direction) -> EntityId {
    world.create(Components {
        position: Some(Vec3 { x, y, z: 0 }),
        walker: Some(Walker { direction }),
        matriarch: Some(Matriarch { age_when_promoted: 0 }),
        ..Components::empty()
    })
}

fn position_of(world: &World, e: EntityId) -> Vec3 {
    world.get(e).unwrap().position.unwrap()
}

fn stats(saved: u64) -> SpawnStats {
    SpawnStats { spawned: 10, killed: 0, saved, total: 100 }
}

#[test]
fn nothing_to_follow_leaves_the_camera_where_it_is() {
    let mut world = World::new();
    let camera = camera_at(&mut world, 1_000, 2_000, 300_000);
    world.create(Components {
        position: Some(Vec3 { x: 9, y: 9, z: 9 }),
        walker: Some(Walker { direction: Direction::Left }),
        ..Components::empty()
    });
    let mut bus = CommandBus::new(8);
    let mut system = CameraMovement::default();
    system.setup(&bus);
    bus.publish(Command::Zoom(1_000));
    system.run(&bus, &mut world, &config(), &stats(0), 16);
    assert_eq!(position_of(&world, camera), Vec3 { x: 1_000, y: 2_000, z: 300_000 });
    assert_eq!(find_target(&world, &config(), &stats(0)).map(|t| t.at), None);
}

#[test]
fn saved_walker_without_final_position_still_follows_the_matriarch() {
    let mut world = World::new();
    matriarch_at(&mut world, 0, 0, Direction::Right);
    let t = find_target(&world, &config(), &stats(3)).unwrap();
    assert_eq!(t.at, Vec3 { x: 50_000, y: 20_000, z: 0 });
    assert!(!t.with_depth);
    let empty = World::new();
    assert!(find_target(&empty, &config(), &stats(3)).is_none());
}

#[test]
fn final_position_waits_for_a_saved_walker() {
    let mut world = World::new();
    matriarch_at(&mut world, 0, 0, Direction::Left);
    let c = CameraConfig { final_position: Some(Vec3 { x: 1, y: 2, z: 3 }), ..config() };
    let t = find_target(&world, &c, &stats(0)).unwrap();
    assert_eq!(t.at, Vec3 { x: -50_000, y: 20_000, z: 0 });
    assert!(!t.with_depth);
    let t = find_target(&world, &c, &stats(1)).unwrap();
    assert_eq!(t.at, Vec3 { x: 1, y: 2, z: 3 });
    assert!(t.with_depth);
}

#[test]
fn target_is_the_mean_of_all_matriarchs_with_offsets() {
    let mut world = World::new();
    matriarch_at(&mut world, 100_000, 10_000, Direction::Right);
    matriarch_at(&mut world, 200_000, 30_000, Direction::Left);
    matriarch_at(&mut world, 0, -10_000, Direction::Right);
    world.create(Components {
        position: Some(Vec3 { x: 1_000_000, y: 1_000_000, z: 0 }),
        walker: Some(Walker { direction: Direction::Right }),
        ..Components::empty()
    });
    world.create(Components {
        walker: Some(Walker { direction: Direction::Right }),
        matriarch: Some(Matriarch { age_when_promoted: 0 }),
        ..Components::empty()
    });
    let t = find_target(&world, &config(), &stats(0)).unwrap();
    assert_eq!(t.at.x, (150_000 + 150_000 + 50_000) / 3);
    assert_eq!(t.at.y, (30_000 + 50_000 + 10_000) / 3);
    assert!(!t.with_depth);
}

#[test]
fn mean_is_rounded_towards_zero() {
    let mut world = World::new();
    matriarch_at(&mut world, -1, -1, Direction::Right);
    matriarch_at(&mut world, 0, 0, Direction::Right);
    let c = CameraConfig { offset: Vec2 { x: 0, y: 0 }, ..config() };
    let t = find_target(&world, &c, &stats(0)).unwrap();
    assert_eq!((t.at.x, t.at.y), (0, 0));
    let mut world = World::new();
    matriarch_at(&mut world, -3, 3, Direction::Right);
    matriarch_at(&mut world, 0, 0, Direction::Right);
    let t = find_target(&world, &c, &stats(0)).unwrap();
    assert_eq!((t.at.x, t.at.y), (-1, 1));
}

#[test]
fn one_step_covers_the_share_of_the_way() {
    assert_eq!(step_towards(0, 100_000, 16, 2_000), 3_200);
    assert_eq!(step_towards(0, -100_000, 16, 2_000), -3_200);
    assert_eq!(step_towards(10, 10, 16, 2_000), 10);
    assert_eq!(step_towards(0, 1, 16, 2_000), 1);
    assert_eq!(step_towards(0, -1, 16, 2_000), -1);
    assert_eq!(step_towards(0, 31, 16, 2_000), 1);
    assert_eq!(step_towards(0, 32, 16, 2_000), 2);
    assert_eq!(step_towards(0, 100, 0, 2_000), 0);
    assert_eq!(step_towards(0, 100, 16, 0), 0);
    assert_eq!(step_towards(0, 100, 1_000, 1_000), 100);
    assert_eq!(step_towards(0, 100, 1_000, 2_000), 200);
    assert_eq!(step_towards(i32::MIN, i32::MAX, 1_000, 1_000), i32::MAX);
    assert_eq!(step_towards(i32::MIN, i32::MAX, u32::MAX, u32::MAX), i32::MAX);
    assert_eq!(step_towards(i32::MAX, i32::MIN, u32::MAX, u32::MAX), i32::MIN);
}

#[test]
fn zoom_moves_the_depth_within_its_bounds() {
    let c = config();
    assert_eq!(zoom_depth(300_000, 1_000, 16, &c), 301_600);
    assert_eq!(zoom_depth(300_000, -1_000, 16, &c), 298_400);
    assert_eq!(zoom_depth(300_000, 0, 16, &c), 300_000);
    assert_eq!(zoom_depth(499_000, 1_000, 16, &c), 500_000);
    assert_eq!(zoom_depth(50_500, -1_000, 16, &c), 50_000);
    assert_eq!(zoom_depth(10, 0, 16, &c), 50_000);
    assert_eq!(zoom_depth(900_000, 0, 16, &c), 500_000);
    assert_eq!(zoom_depth(0, 1, 1, &c), 50_000);
    let crossed = CameraConfig { z_min: 500, z_max: 100, ..config() };
    assert_eq!(zoom_depth(300, 0, 16, &crossed), 500);
    let free = CameraConfig { z_min: i32::MIN, z_max: i32::MAX, ..config() };
    assert_eq!(zoom_depth(0, -3, 1, &free), 0);
    assert_eq!(zoom_depth(0, -1_000, 15, &free), -1_500);
    assert_eq!(zoom_depth(0, i32::MAX, u32::MAX, &CameraConfig { zoom_speed: i32::MAX, ..free }), i32::MAX);
    assert_eq!(zoom_depth(0, i32::MIN, u32::MAX, &CameraConfig { zoom_speed: i32::MAX, ..free }), i32::MIN);
}

#[test]
fn latest_zoom_command_wins() {
    assert_eq!(read_zoom(&vec![]), 0);
    assert_eq!(read_zoom(&vec![Command::DropLift, Command::DropRam]), 0);
    assert_eq!(
        read_zoom(&vec![Command::Zoom(5), Command::DropLift, Command::Zoom(-7), Command::DropRam]),
        -7
    );
    assert_eq!(read_zoom(&vec![Command::Zoom(5), Command::Zoom(0)]), 0);
}

#[test]
fn camera_follows_the_matriarch_and_zooms() {
    let mut world = World::new();
    let camera = camera_at(&mut world, 0, 0, 300_000);
    let bystander = world.create(Components {
        position: Some(Vec3 { x: 7, y: 7, z: 7 }),
        ..Components::empty()
    });
    let m = matriarch_at(&mut world, 50_000, 80_000, Direction::Right);
    let mut bus = CommandBus::new(8);
    let mut system = CameraMovement::default();
    system.setup(&bus);
    bus.publish(Command::Zoom(500));
    bus.publish(Command::Zoom(-1_000));
    system.run(&bus, &mut world, &config(), &stats(0), 16);
    assert_eq!(position_of(&world, camera), Vec3 { x: 3_200, y: 3_200, z: 298_400 });
    assert_eq!(position_of(&world, bystander), Vec3 { x: 7, y: 7, z: 7 });
    assert_eq!(position_of(&world, m), Vec3 { x: 50_000, y: 80_000, z: 0 });
    system.run(&bus, &mut world, &config(), &stats(0), 16);
    assert_eq!(position_of(&world, camera).z, 298_400);
    assert_eq!(position_of(&world, camera).x, 3_200 + 3_098);
}

#[test]
fn camera_converges_to_the_final_position() {
    let mut world = World::new();
    let camera = camera_at(&mut world, -400_000, 250_000, 90_000);
    matriarch_at(&mut world, 9_000_000, -9_000_000, Direction::Left);
    matriarch_at(&mut world, -5_000_000, 0, Direction::Right);
    let target = Vec3 { x: 120_000, y: -30_000, z: 400_000 };
    let c = CameraConfig { final_position: Some(target), ..config() };
    let mut bus = CommandBus::new(8);
    let mut system = CameraMovement::default();
    system.setup(&bus);
    let mut last = position_of(&world, camera);
    let mut ticks = 0;
    while position_of(&world, camera) != target {
        bus.publish(Command::Zoom(1_000));
        system.run(&bus, &mut world, &c, &stats(1), 16);
        let now = position_of(&world, camera);
        assert!((target.x - now.x).abs() <= (target.x - last.x).abs());
        assert!((target.y - now.y).abs() <= (target.y - last.y).abs());
        assert!((target.z - now.z).abs() <= (target.z - last.z).abs());
        assert!(now != last);
        last = now;
        ticks += 1;
        assert!(ticks < 100_000);
    }
    system.run(&bus, &mut world, &c, &stats(1), 16);
    assert_eq!(position_of(&world, camera), target);
    assert!(ticks < 1_000);
}

#[test]
fn every_camera_is_moved() {
    let mut world = World::new();
    let a = camera_at(&mut world, 0, 0, 100_000);
    let b = camera_at(&mut world, 1_000_000, 0, 100_000);
    let no_position = world.create(Components { camera: true, ..Components::empty() });
    matriarch_at(&mut world, 450_000, -20_000, Direction::Right);
    let t = find_target(&world, &config(), &stats(0)).unwrap();
    assert_eq!(t.at, Vec3 { x: 500_000, y: 0, z: 0 });
    let bus = CommandBus::new(8);
    let mut system = CameraMovement::default();
    system.setup(&bus);
    system.run(&bus, &mut world, &config(), &stats(0), 100);
    assert_eq!(position_of(&world, a), Vec3 { x: 100_000, y: 0, z: 100_000 });
    assert_eq!(position_of(&world, b), Vec3 { x: 900_000, y: 0, z: 100_000 });
    assert!(world.get(no_position).unwrap().position.is_none());
}

#[test]
fn move_camera_approaches_depth_only_for_the_final_position() {
    let c = config();
    let at = Vec3 { x: 0, y: 0, z: 100_000 };
    let follow = Target { at: Vec3 { x: 1_000, y: -1_000, z: 0 }, with_depth: false };
    assert_eq!(move_camera(at, &follow, 0, 500, &c), Vec3 { x: 1_000, y: -1_000, z: 100_000 });
    let end = Target { at: Vec3 { x: 1_000, y: -1_000, z: 0 }, with_depth: true };
    assert_eq!(move_camera(at, &end, 1_000, 250, &c), Vec3 { x: 500, y: -500, z: 50_000 });
}
