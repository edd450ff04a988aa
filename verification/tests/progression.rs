use matriarch::arena::Handle;
use matriarch::components::{Components, EntityId};
use matriarch::config::{
    CameraConfig, GameConfig, LevelConfig, LevelsConfig, LogLevel, PawnConfig, PhysicsConfig,
    SpawnerConfig,
};
use matriarch::geometry::Vec2;
use matriarch::level::Level;
use matriarch::physics::PhysicsAdapter;
use matriarch::running::{Key, LoadState, Reaction, RunningState, Tick};
use matriarch::stats::SpawnStats;
use matriarch::text::decimal_text;
use matriarch::ui::{
    make_fps_text, make_killed_text, make_rate_text, make_saved_text, make_spawned_text,
    spawn_rate_percent, UiSlot, UiSlots, UiWrite,
};
use matriarch::world::World;

fn levels(n: usize) -> LevelsConfig {
    let mut levels = Vec::new();
    for i in 0..n {
        levels.push(LevelConfig {
            name: format!("Level {}", i),
            description: format!("Description {}", i),
            spawn: Vec2 { x: 1_000 * i as i32, y: -500 },
        });
    }
    LevelsConfig { levels }
}

fn entity(index: usize) -> EntityId {
    EntityId { handle: Handle { index, generation: 0 } }
}

fn all_slots() -> UiSlots {
    UiSlots {
        fps: Some(entity(1)),
        spawned: Some(entity(2)),
        rate: Some(entity(3)),
        killed: Some(entity(4)),
        saved: Some(entity(5)),
        name: Some(entity(6)),
        description: Some(entity(7)),
    }
}

fn spawner() -> SpawnerConfig {
    SpawnerConfig {
        size: Vec2 { x: 10_000, y: 10_000 },
        max_count: 100,
        frequency_min: 1_000,
        frequency_max: 2_000,
    }
}

fn tick(frame: u64, now: u64) -> Tick {
    Tick { frame, now, fps_tenths: 599, rate: Some(1_250) }
}

fn describe(w: &UiWrite) -> String {
    match w {
        UiWrite::Text { entity, text } => format!("{}={}", entity.handle.index, text),
        UiWrite::Show { entity } => format!("show {}", entity.handle.index),
        UiWrite::Hide { entity } => format!("hide {}", entity.handle.index),
    }
}

fn described(writes: &Vec<UiWrite>) -> Vec<String> {
    writes.iter().map(describe).collect()
}

#[test]
fn default_config_logs_at_debug_and_has_no_levels() {
    let c = GameConfig::default();
    assert_eq!(c.log_level, LogLevel::Debug);
    assert!(c.levels.levels.is_empty());
    assert_eq!(c.pawn, PawnConfig::default());
    assert_eq!(c.physics, PhysicsConfig::default());
    assert_eq!(c.spawner, SpawnerConfig::default());
    assert_eq!(c.physics.matriarch_grace_period, 2_000);
    assert_eq!(c.physics.ram_life, 5_000);
    assert_eq!(c.spawner.max_count, 100);
    assert_eq!((c.spawner.frequency_min, c.spawner.frequency_max), (1_000, 2_000));
    assert_eq!(c.camera.final_position, None);
    assert_eq!((c.camera.z_min, c.camera.z_max), (50_000, 500_000));
    assert_eq!(CameraConfig::default().convergence_speed, 2_000);
    assert!(LevelsConfig::default().levels.is_empty());
}

#[test]
fn level_jump_round_trip() {
    let mut level = Level::new(&levels(5));
    assert_eq!(level.current_level(), 0);
    assert_eq!(level.level_count(), 5);
    for i in 0..5 {
        level.jump_to(i);
        assert_eq!(level.current_level(), i);
        assert_eq!(level.name(), format!("Level {}", i));
        assert_eq!(level.description(), format!("Description {}", i));
    }
}

#[test]
fn level_jump_beyond_the_end_clamps_to_the_last() {
    let mut level = Level::new(&levels(3));
    level.jump_to(3);
    assert_eq!(level.current_level(), 2);
    level.jump_to(usize::MAX);
    assert_eq!(level.current_level(), 2);
    let mut empty = Level::new(&levels(0));
    empty.jump_to(4);
    assert_eq!(empty.current_level(), 0);
    assert_eq!(empty.name(), "");
    assert_eq!(empty.description(), "");
    assert!(!empty.is_more_levels());
}

#[test]
fn level_advances_forward_only() {
    let mut level = Level::new(&levels(3));
    assert!(level.is_more_levels());
    level.next();
    assert_eq!(level.current_level(), 1);
    assert!(level.is_more_levels());
    level.next();
    assert_eq!(level.current_level(), 2);
    assert!(!level.is_more_levels());
    level.next();
    assert_eq!(level.current_level(), 2);
}

#[test]
fn level_load_resets_stats_and_unload_clears_the_world() {
    let mut level = Level::new(&levels(1));
    let mut stats = SpawnStats { spawned: 9, killed: 3, saved: 4, total: 50 };
    assert!(!level.is_loaded());
    level.load(&mut stats, &spawner());
    assert!(level.is_loaded());
    assert_eq!(stats, SpawnStats { spawned: 0, killed: 0, saved: 0, total: 100 });
    let mut world = World::new();
    let mut physics = PhysicsAdapter::new();
    let e = world.create(Components::empty());
    let c = physics.create_static_box(Vec2 { x: 0, y: 0 }, Vec2 { x: 1, y: 1 }, 0);
    level.unload(&mut world, &mut physics);
    assert!(!level.is_loaded());
    assert!(!world.is_alive(e));
    assert!(physics.collider(c).is_none());
    assert_eq!(level.current_level(), 0);
}

#[test]
fn running_state_starts_unloaded() {
    let state = RunningState::new();
    assert_eq!(state.load_state(0), LoadState::Unloaded);
    assert_eq!(state.current_level(), None);
    assert!(state.slots().fps.is_none());
    assert!(state.slots().description.is_none());
}

#[test]
fn level_is_loaded_after_the_settling_frames() {
    let mut state = RunningState::new();
    let mut world = World::new();
    let mut physics = PhysicsAdapter::new();
    let mut stats = SpawnStats { spawned: 5, killed: 1, saved: 1, total: 7 };
    state.on_start(&levels(2), 10, &mut world, &mut physics);
    assert_eq!(state.load_state(10), LoadState::Unloaded);
    assert_eq!(state.current_level(), Some(0));
    for frame in [0, 10, 11, 12] {
        assert!(!state.check_and_load_level(frame, 1_000, &mut stats, &spawner()));
        assert_eq!(state.load_state(frame), LoadState::Unloaded);
        assert_eq!(stats.spawned, 5);
    }
    assert_eq!(state.load_state(13), LoadState::Loading);
    assert!(state.check_and_load_level(13, 1_000, &mut stats, &spawner()));
    assert_eq!(state.load_state(13), LoadState::Loaded);
    assert_eq!(stats, SpawnStats { spawned: 0, killed: 0, saved: 0, total: 100 });
    stats.spawned = 1;
    assert!(!state.check_and_load_level(14, 1_000, &mut stats, &spawner()));
    assert_eq!(stats.spawned, 1);
}

#[test]
fn load_frame_saturates_at_the_last_frame() {
    let mut state = RunningState::new();
    let mut world = World::new();
    let mut physics = PhysicsAdapter::new();
    let mut stats = SpawnStats::new(0);
    state.on_start(&levels(1), u64::MAX - 1, &mut world, &mut physics);
    assert!(!state.check_and_load_level(u64::MAX, 0, &mut stats, &spawner()));
    assert_eq!(state.load_state(u64::MAX), LoadState::Unloaded);
}

#[test]
fn reload_preserves_the_index_and_clamps_when_truncated() {
    let mut state = RunningState::new();
    let mut world = World::new();
    let mut physics = PhysicsAdapter::new();
    let mut stats = SpawnStats::new(0);
    let mut current = levels(5);
    state.on_start(&current, 0, &mut world, &mut physics);
    for _ in 0..3 {
        assert_eq!(state.handle_event(Key::N, 1, &mut world, &mut physics), Reaction::Nothing);
    }
    assert_eq!(state.current_level(), Some(3));
    assert!(state.check_and_load_level(4, 0, &mut stats, &spawner()));
    let e = world.create(Components::empty());
    assert!(state.config_reloaded(Some(levels(6)), &mut current, 20, &mut world, &mut physics));
    assert_eq!(current.levels.len(), 6);
    assert_eq!(state.current_level(), Some(3));
    assert_eq!(state.load_state(22), LoadState::Unloaded);
    assert_eq!(state.load_state(23), LoadState::Loading);
    assert!(!world.is_alive(e));
    assert!(!state.check_and_load_level(22, 0, &mut stats, &spawner()));
    assert!(state.check_and_load_level(23, 0, &mut stats, &spawner()));
    assert!(state.config_reloaded(Some(levels(2)), &mut current, 30, &mut world, &mut physics));
    assert_eq!(state.current_level(), Some(1));
    assert!(state.config_reloaded(Some(levels(0)), &mut current, 40, &mut world, &mut physics));
    assert_eq!(state.current_level(), Some(0));
    assert!(state.config_reloaded(Some(levels(4)), &mut current, 50, &mut world, &mut physics));
    assert_eq!(state.current_level(), Some(0));
}

#[test]
fn failed_reload_changes_nothing() {
    let mut state = RunningState::new();
    let mut world = World::new();
    let mut physics = PhysicsAdapter::new();
    let mut stats = SpawnStats::new(0);
    let mut current = levels(3);
    state.on_start(&current, 0, &mut world, &mut physics);
    state.handle_event(Key::N, 0, &mut world, &mut physics);
    assert!(state.check_and_load_level(3, 0, &mut stats, &spawner()));
    let e = world.create(Components::empty());
    assert!(!state.config_reloaded(None, &mut current, 9, &mut world, &mut physics));
    assert_eq!(current.levels.len(), 3);
    assert_eq!(state.current_level(), Some(1));
    assert_eq!(state.load_state(9), LoadState::Loaded);
    assert!(world.is_alive(e));
}

#[test]
fn keys_are_mapped_to_reactions() {
    let mut state = RunningState::new();
    let mut world = World::new();
    let mut physics = PhysicsAdapter::new();
    state.on_start(&levels(2), 0, &mut world, &mut physics);
    assert_eq!(state.handle_event(Key::Escape, 1, &mut world, &mut physics), Reaction::Quit);
    assert_eq!(state.handle_event(Key::R, 1, &mut world, &mut physics), Reaction::ReloadConfig);
    assert_eq!(state.handle_event(Key::Other, 1, &mut world, &mut physics), Reaction::Nothing);
    assert_eq!(state.current_level(), Some(0));
    assert_eq!(state.handle_event(Key::N, 1, &mut world, &mut physics), Reaction::Nothing);
    assert_eq!(state.current_level(), Some(1));
}

#[test]
fn next_level_unloads_and_waits_again() {
    let mut state = RunningState::new();
    let mut world = World::new();
    let mut physics = PhysicsAdapter::new();
    let mut stats = SpawnStats::new(0);
    state.on_start(&levels(2), 0, &mut world, &mut physics);
    assert!(state.check_and_load_level(3, 0, &mut stats, &spawner()));
    let e = world.create(Components::empty());
    state.next_level(100, &mut world, &mut physics);
    assert_eq!(state.current_level(), Some(1));
    assert_eq!(state.load_state(102), LoadState::Unloaded);
    assert_eq!(state.load_state(103), LoadState::Loading);
    assert!(!world.is_alive(e));
    assert!(!state.check_and_load_level(102, 0, &mut stats, &spawner()));
    assert!(state.check_and_load_level(103, 0, &mut stats, &spawner()));
    let e = world.create(Components::empty());
    state.next_level(200, &mut world, &mut physics);
    assert_eq!(state.current_level(), Some(1));
    assert_eq!(state.load_state(200), LoadState::Loaded);
    assert!(world.is_alive(e));
}

#[test]
fn next_level_without_a_level_only_sets_the_delay() {
    let mut state = RunningState::new();
    let mut world = World::new();
    let mut physics = PhysicsAdapter::new();
    state.next_level(5, &mut world, &mut physics);
    assert_eq!(state.load_state(1_000), LoadState::Unloaded);
    assert_eq!(state.current_level(), None);
}

#[test]
fn update_writes_level_texts_banner_and_counters() {
    let mut state = RunningState::new();
    let mut world = World::new();
    let mut physics = PhysicsAdapter::new();
    let mut stats = SpawnStats::new(0);
    state.on_start(&levels(2), 17, &mut world, &mut physics);
    let writes = state.update(&tick(20, 1_000), &all_slots(), &mut stats, &spawner());
    assert_eq!(state.load_state(20), LoadState::Loaded);
    assert_eq!(
        described(&writes),
        vec![
            "6=Level 0",
            "7=Description 0",
            "show 6",
            "show 7",
            "1=FPS: 59.9",
            "2=SPAWN: 0/100",
            "4=KILLED: 0",
            "5=SAVED: 0",
            "3=RATE: 75",
        ]
    );
    stats.spawned = 12;
    stats.killed = 3;
    stats.saved = 4;
    let writes = state.update(&tick(21, 2_000), &UiSlots::none(), &mut stats, &spawner());
    assert!(writes.is_empty());
    let writes = state.update(&tick(40, 5_999), &UiSlots::none(), &mut stats, &spawner());
    assert_eq!(
        described(&writes),
        vec![
            "show 6",
            "show 7",
            "1=FPS: 59.9",
            "2=SPAWN: 12/100",
            "4=KILLED: 3",
            "5=SAVED: 4",
            "3=RATE: 75",
        ]
    );
    let writes = state.update(&tick(60, 6_000), &UiSlots::none(), &mut stats, &spawner());
    assert_eq!(
        described(&writes)[..2],
        ["hide 6".to_string(), "hide 7".to_string()]
    );
    let writes = state.update(&tick(80, 7_000), &UiSlots::none(), &mut stats, &spawner());
    assert_eq!(
        described(&writes),
        vec!["1=FPS: 59.9", "2=SPAWN: 12/100", "4=KILLED: 3", "5=SAVED: 4", "3=RATE: 75"]
    );
}

#[test]
fn update_waits_for_both_text_fields_before_writing_level_texts() {
    let mut state = RunningState::new();
    let mut world = World::new();
    let mut physics = PhysicsAdapter::new();
    let mut stats = SpawnStats::new(0);
    state.on_start(&levels(1), 0, &mut world, &mut physics);
    let only_name = UiSlots { name: Some(entity(6)), ..UiSlots::none() };
    let writes = state.update(&tick(3, 0), &only_name, &mut stats, &spawner());
    assert!(writes.is_empty());
    assert_eq!(state.load_state(3), LoadState::Loaded);
    let rest = UiSlots { name: Some(entity(66)), description: Some(entity(7)), ..UiSlots::none() };
    let writes = state.update(&tick(4, 0), &rest, &mut stats, &spawner());
    assert_eq!(described(&writes), vec!["6=Level 0", "7=Description 0"]);
    assert_eq!(state.slots().name, Some(entity(6)));
    let writes = state.update(&tick(5, 0), &rest, &mut stats, &spawner());
    assert!(writes.is_empty());
}

#[test]
fn counters_are_written_only_with_spawned_or_rate_field() {
    let mut state = RunningState::new();
    let mut stats = SpawnStats { spawned: 1, killed: 2, saved: 3, total: 4 };
    let found = UiSlots { killed: Some(entity(4)), saved: Some(entity(5)), ..UiSlots::none() };
    assert!(state.update(&tick(0, 0), &found, &mut stats, &spawner()).is_empty());
    let found = UiSlots { rate: Some(entity(3)), ..UiSlots::none() };
    let writes = state.update(&tick(20, 0), &found, &mut stats, &spawner());
    assert_eq!(described(&writes), vec!["4=KILLED: 2", "5=SAVED: 3", "3=RATE: 75"]);
    let no_rate = Tick { rate: None, ..tick(40, 0) };
    let writes = state.update(&no_rate, &UiSlots::none(), &mut stats, &spawner());
    assert_eq!(described(&writes), vec!["4=KILLED: 2", "5=SAVED: 3"]);
    assert_eq!(stats, SpawnStats { spawned: 1, killed: 2, saved: 3, total: 4 });
}

#[test]
fn rate_percent_follows_the_formula() {
    assert_eq!(spawn_rate_percent(1_000, 1_000, 2_000), 100);
    assert_eq!(spawn_rate_percent(2_000, 1_000, 2_000), 0);
    assert_eq!(spawn_rate_percent(1_500, 1_000, 2_000), 50);
    assert_eq!(spawn_rate_percent(1_250, 1_000, 2_000), 75);
    assert_eq!(spawn_rate_percent(1_995, 1_000, 2_000), 1);
    assert_eq!(spawn_rate_percent(1_996, 1_000, 2_000), 0);
    assert_eq!(spawn_rate_percent(1_004, 1_000, 2_000), 100);
    assert_eq!(spawn_rate_percent(1_005, 1_000, 2_000), 100);
    assert_eq!(spawn_rate_percent(1_006, 1_000, 2_000), 99);
    assert_eq!(spawn_rate_percent(500, 1_000, 2_000), 150);
    assert_eq!(spawn_rate_percent(2_500, 1_000, 2_000), 0);
    assert_eq!(spawn_rate_percent(1_500, 1_500, 1_500), 0);
    assert_eq!(spawn_rate_percent(7, 1_500, 1_500), 0);
    assert_eq!(spawn_rate_percent(1_500, 2_000, 1_000), 50);
    assert_eq!(spawn_rate_percent(500, 2_000, 1_000), 0);
    assert_eq!(spawn_rate_percent(3_000, 2_000, 1_000), 200);
    assert_eq!(spawn_rate_percent(0, u32::MAX - 1, u32::MAX), u32::MAX);
    assert_eq!(spawn_rate_percent(0, 0, 3), 100);
    assert_eq!(spawn_rate_percent(1, 0, 3), 67);
    assert_eq!(spawn_rate_percent(2, 0, 3), 33);
}

#[test]
fn texts_are_formatted() {
    assert_eq!(decimal_text(0), "0");
    assert_eq!(decimal_text(7), "7");
    assert_eq!(decimal_text(10), "10");
    assert_eq!(decimal_text(1_234_567_890), "1234567890");
    assert_eq!(decimal_text(u64::MAX), "18446744073709551615");
    assert_eq!(make_fps_text(0), "FPS: 0.0");
    assert_eq!(make_fps_text(5), "FPS: 0.5");
    assert_eq!(make_fps_text(600), "FPS: 60.0");
    assert_eq!(make_fps_text(1_234), "FPS: 123.4");
    let stats = SpawnStats { spawned: 42, killed: 7, saved: 35, total: 100 };
    assert_eq!(make_spawned_text(&stats), "SPAWN: 42/100");
    assert_eq!(make_killed_text(&stats), "KILLED: 7");
    assert_eq!(make_saved_text(&stats), "SAVED: 35");
    assert_eq!(make_rate_text(100), "RATE: 100");
    assert_eq!(make_rate_text(0), "RATE: 0");
}

#[test]
fn ui_slots_have_their_ids() {
    assert_eq!(UiSlot::Fps.id(), "fps");
    assert_eq!(UiSlot::Spawned.id(), "spawned");
    assert_eq!(UiSlot::Rate.id(), "rate");
    assert_eq!(UiSlot::Killed.id(), "killed");
    assert_eq!(UiSlot::Saved.id(), "saved");
    assert_eq!(UiSlot::Name.id(), "name");
    assert_eq!(UiSlot::Description.id(), "description");
}

#[test]
fn known_slots_are_not_replaced_by_later_lookups() {
    let mut slots = UiSlots { fps: Some(entity(1)), ..UiSlots::none() };
    slots.merge(&UiSlots { fps: Some(entity(9)), killed: Some(entity(4)), ..UiSlots::none() });
    assert_eq!(slots.get(UiSlot::Fps), Some(entity(1)));
    assert_eq!(slots.get(UiSlot::Killed), Some(entity(4)));
    assert_eq!(slots.get(UiSlot::Saved), None);
    slots.merge(&UiSlots::none());
    assert_eq!(slots.get(UiSlot::Fps), Some(entity(1)));
    assert_eq!(slots.get(UiSlot::Killed), Some(entity(4)));
}
