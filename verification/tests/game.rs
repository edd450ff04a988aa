use matriarch::arena::Handle;
use matriarch::command::Command;
use matriarch::components::{Components, EntityId};
use matriarch::config::{GameConfig, LevelConfig, LevelsConfig};
use matriarch::direction::Direction;
use matriarch::game::{FrameInput, Game};
use matriarch::geometry::{Vec2, Vec3};
use matriarch::running::{Key, LoadState, Reaction};
use matriarch::spawner::SpawnDraw;
use matriarch::ui::{UiSlots, UiWrite};

fn levels(n: usize) -> LevelsConfig {
    let mut levels = Vec::new();
    for i in 0..n {
        levels.push(LevelConfig {
            name: format!("Level {}", i),
            description: format!("Description {}", i),
            spawn: Vec2 { x: 100_000 * i as i32, y: 7_000 },
        });
    }
    LevelsConfig { levels }
}

fn entity(index: usize) -> EntityId {
    EntityId { handle: Handle { index, generation: 0 } }
}

fn slots() -> UiSlots {
    UiSlots {
        fps: Some(entity(1)),
        spawned: Some(entity(2)),
        rate: Some(entity(3)),
        killed: Some(entity(4)),
        saved: Some(entity(5)),
        name: Some(entity(6)),
        description: Some(entity(7)),
    }
}

fn input(frame: u64) -> FrameInput {
    FrameInput { frame, now: frame * 16, fps_tenths: 600, dt: 16 }
}

fn draw() -> SpawnDraw {
    SpawnDraw { x: 0, y: 0, direction: Direction::Right, frequency: 250 }
}

fn texts(writes: &Vec<UiWrite>) -> Vec<String> {
    writes
        .iter()
        .filter_map(|w| match w {
            UiWrite::Text { text, .. } => Some(text.clone()),
            _ => None,
        })
        .collect()
}

fn walkers(game: &Game) -> usize {
    let mut n = 0;
    for i in 0..game.simulation.world.slot_count() {
        if let Some((_, c)) = game.simulation.world.entity_at(i) {
            n += c.walker.is_some() as usize;
        }
    }
    n
}

#[test]
fn level_load_brings_counters_and_spawner() {
    let config = GameConfig::default();
    let mut game = Game::new(levels(2), 16);
    game.on_start(0);
    assert!(game.simulation.spawner.is_none());
    for frame in 1..=2 {
        let writes = game.update(&input(frame), &slots(), &draw(), &config);
        assert!(texts(&writes).is_empty());
        assert!(game.simulation.spawner.is_none());
        assert_eq!(game.running.load_state(frame), LoadState::Unloaded);
    }
    let writes = game.update(&input(3), &slots(), &draw(), &config);
    assert_eq!(texts(&writes), vec!["Level 0", "Description 0"]);
    assert_eq!(game.running.load_state(3), LoadState::Loaded);
    let spawner = game.simulation.spawner.unwrap();
    assert_eq!(spawner.position, Vec2 { x: 0, y: 7_000 });
    assert_eq!(spawner.frequency, 1_250);
    assert_eq!(spawner.max_count, 100);
    assert_eq!(spawner.elapsed, 16);
    assert_eq!(game.simulation.stats.total, 100);
    assert_eq!(game.simulation.stats.spawned, 0);
}

#[test]
fn counters_on_screen_follow_the_game() {
    let config = GameConfig::default();
    let mut game = Game::new(levels(1), 16);
    game.on_start(0);
    let mut last = Vec::new();
    for frame in 1..=200 {
        let writes = game.update(&input(frame), &slots(), &draw(), &config);
        if frame % 20 == 0 {
            last = texts(&writes);
        }
    }
    assert_eq!(walkers(&game), 2);
    assert_eq!(last, vec!["FPS: 60.0", "SPAWN: 2/100", "KILLED: 0", "SAVED: 0", "RATE: 75"]);
    assert_eq!(game.simulation.stats.spawned, 2);
}

#[test]
fn next_level_takes_the_spawner_and_the_world_with_it() {
    let config = GameConfig::default();
    let mut game = Game::new(levels(2), 16);
    game.on_start(0);
    for frame in 1..=100 {
        game.update(&input(frame), &slots(), &draw(), &config);
    }
    assert!(walkers(&game) > 0);
    let camera = game.simulation.create(Components {
        camera: true,
        position: Some(Vec3 { x: 0, y: 0, z: 0 }),
        ..Components::empty()
    });
    assert_eq!(game.handle_event(Key::N, 100), Reaction::Nothing);
    assert_eq!(game.running.current_level(), Some(1));
    assert!(game.simulation.spawner.is_none());
    assert_eq!(walkers(&game), 0);
    assert!(!game.simulation.world.is_alive(camera));
    game.update(&input(101), &slots(), &draw(), &config);
    game.update(&input(102), &slots(), &draw(), &config);
    assert!(game.simulation.spawner.is_none());
    let writes = game.update(&input(103), &slots(), &draw(), &config);
    assert_eq!(texts(&writes), vec!["Level 1", "Description 1"]);
    assert_eq!(game.simulation.spawner.unwrap().position, Vec2 { x: 100_000, y: 7_000 });
    assert_eq!(game.simulation.stats.spawned, 0);
    assert_eq!(game.handle_event(Key::N, 104), Reaction::Nothing);
    assert_eq!(game.running.current_level(), Some(1));
    assert!(game.simulation.spawner.is_some());
}

#[test]
fn keys_of_the_game() {
    let mut game = Game::new(levels(1), 16);
    game.on_start(0);
    assert_eq!(game.handle_event(Key::Escape, 1), Reaction::Quit);
    assert_eq!(game.handle_event(Key::R, 1), Reaction::ReloadConfig);
    assert_eq!(game.handle_event(Key::Other, 1), Reaction::Nothing);
    assert_eq!(game.running.current_level(), Some(0));
}

#[test]
fn reload_of_the_game_keeps_the_place_or_clamps() {
    let config = GameConfig::default();
    let mut game = Game::new(levels(4), 16);
    game.on_start(0);
    game.handle_event(Key::N, 0);
    game.handle_event(Key::N, 0);
    for frame in 1..=50 {
        game.update(&input(frame), &slots(), &draw(), &config);
    }
    assert!(game.simulation.spawner.is_some());
    assert!(!game.config_reloaded(None, 50));
    assert!(game.simulation.spawner.is_some());
    assert_eq!(game.levels.levels.len(), 4);
    assert!(game.config_reloaded(Some(levels(5)), 50));
    assert_eq!(game.running.current_level(), Some(2));
    assert!(game.simulation.spawner.is_none());
    assert_eq!(game.levels.levels.len(), 5);
    assert!(game.config_reloaded(Some(levels(2)), 51));
    assert_eq!(game.running.current_level(), Some(1));
    assert_eq!(game.running.load_state(53), LoadState::Unloaded);
    assert_eq!(game.running.load_state(54), LoadState::Loading);
}

#[test]
fn commands_reach_the_systems_of_the_game() {
    let config = GameConfig::default();
    let mut game = Game::new(levels(1), 16);
    game.on_start(0);
    for frame in 1..=400 {
        game.update(&input(frame), &slots(), &draw(), &config);
    }
    game.simulation.command(Command::DropLift);
    game.update(&input(401), &slots(), &draw(), &config);
    let mut lifts = 0;
    for i in 0..game.simulation.world.slot_count() {
        if let Some((_, c)) = game.simulation.world.entity_at(i) {
            lifts += c.launch_area.is_some() as usize;
        }
    }
    assert_eq!(lifts, 1);
}
