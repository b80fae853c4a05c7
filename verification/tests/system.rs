use tower_defence::fields::{EntityInstance, FieldInstance, FieldValue, LayerInstance};
use tower_defence::geometry::{PixelPoint, Pivot, WorldPoint};
use tower_defence::resources::EnemyResources;
use tower_defence::spawning::{spawn, SpawnerBundle, ENEMY_Z};
use tower_defence::timer::Timer;
use tower_defence::world_loading::{load_level, DecodeError, SpawnType, Spawner};

fn layer() -> LayerInstance {
    LayerInstance { c_hei: 48, grid_size: 16 }
}

fn spawner_entity_at(px: PixelPoint, enemy_type: &str) -> EntityInstance {
    EntityInstance {
        identifier: "Spawner".to_owned(),
        px,
        width: 16,
        height: 16,
        pivot: Pivot { x: 0, y: 0 },
        field_instances: vec![
            FieldInstance { identifier: "Patrol".to_owned(), value: FieldValue::Points(vec![]) },
            FieldInstance {
                identifier: "Enemy_Type".to_owned(),
                value: FieldValue::Enum(Some(enemy_type.to_owned())),
            },
        ],
    }
}

fn tower_slot_at(px: PixelPoint) -> EntityInstance {
    EntityInstance {
        identifier: "Tower_Slot".to_owned(),
        px,
        width: 16,
        height: 16,
        pivot: Pivot { x: 0, y: 0 },
        field_instances: vec![],
    }
}

fn resources() -> EnemyResources {
    EnemyResources { world_id: 7, slow_enemy_asset: 42 }
}

#[test]
fn timer_fires_once_when_period_elapses() {
    let mut t = Timer::from_millis(2000);
    t.tick(1000);
    assert!(!t.just_finished());
    assert_eq!(t.elapsed, 1000);
    t.tick(1000);
    assert!(t.just_finished());
    assert_eq!(t.fired, 1);
    assert_eq!(t.elapsed, 0);
}

#[test]
fn timer_keeps_surplus_after_firing() {
    let mut t = Timer::from_millis(2000);
    t.tick(2100);
    assert!(t.just_finished());
    assert_eq!(t.fired, 1);
    assert_eq!(t.elapsed, 100);
}

#[test]
fn timer_counts_every_interval_of_a_long_tick() {
    let mut t = Timer::from_millis(2000);
    t.tick(4000);
    assert_eq!(t.fired, 2);
    assert_eq!(t.elapsed, 0);
}

#[test]
fn exactly_one_event_when_period_elapses_in_increments() {
    // Advance a fresh spawner by its full period split over three
    // frames: only the frame that completes the period spawns.
    let sp = Spawner {
        patrol: vec![WorldPoint { x: 1, y: 2 }],
        spawn_type: SpawnType::Slow,
        spawn_timer: Timer::from_millis(2000),
    };
    let mut world = vec![SpawnerBundle { transform: WorldPoint { x: 1, y: 2 }, spawner: sp }];
    let res = resources();
    let mut total = Vec::new();
    for delta in [500, 700, 800] {
        let events = spawn(&mut world, delta, &res);
        total.extend(events);
    }
    assert_eq!(total.len(), 1);
    assert_eq!(total[0].position, WorldPoint { x: 1, y: 2 });
    assert_eq!(total[0].parent, 7);
    assert_eq!(total[0].asset, 42);
    assert_eq!(total[0].z, ENEMY_Z);
}

#[test]
fn spawn_ticks_every_spawner_and_reports_firing_ones_in_order() {
    let res = resources();
    let near = Spawner {
        patrol: vec![WorldPoint { x: 10, y: 20 }],
        spawn_type: SpawnType::Slow,
        spawn_timer: Timer { period: 2000, elapsed: 1900, fired: 0 },
    };
    let far = Spawner {
        patrol: vec![WorldPoint { x: 30, y: 40 }],
        spawn_type: SpawnType::Fast,
        spawn_timer: Timer { period: 2000, elapsed: 100, fired: 0 },
    };
    let mut world = vec![
        SpawnerBundle { transform: WorldPoint { x: 10, y: 20 }, spawner: near },
        SpawnerBundle { transform: WorldPoint { x: 30, y: 40 }, spawner: far },
    ];
    let events = spawn(&mut world, 200, &res);
    assert_eq!(events.len(), 1);
    assert_eq!(events[0].position, WorldPoint { x: 10, y: 20 });
    assert_eq!(world[0].spawner.spawn_timer.elapsed, 100);
    assert_eq!(world[1].spawner.spawn_timer.elapsed, 300);
}

#[test]
fn load_level_decodes_recognized_entities_and_skips_others() {
    let entities = vec![
        spawner_entity_at(PixelPoint { x: 100, y: 100 }, "Slow"),
        tower_slot_at(PixelPoint { x: 32, y: 64 }),
        EntityInstance {
            identifier: "Decoration".to_owned(),
            px: PixelPoint { x: 0, y: 0 },
            width: 16,
            height: 16,
            pivot: Pivot { x: 0, y: 0 },
            field_instances: vec![],
        },
    ];
    let level = load_level(&layer(), &entities).unwrap();
    assert_eq!(level.spawners.len(), 1);
    assert_eq!(level.tower_slots.len(), 1);
    assert_eq!(level.spawners[0].transform, WorldPoint { x: 108_000, y: 660_000 });
    assert_eq!(level.spawners[0].spawner.patrol, vec![WorldPoint { x: 108_000, y: 660_000 }]);
    // Tower slot at pixel (32,64): x = 32000+8000, y = 1000*(768-64)-8000.
    assert_eq!(level.tower_slots[0].transform, WorldPoint { x: 40_000, y: 696_000 });
}

#[test]
fn load_level_is_all_or_nothing() {
    let entities = vec![
        spawner_entity_at(PixelPoint { x: 100, y: 100 }, "Slow"),
        spawner_entity_at(PixelPoint { x: 200, y: 200 }, "Teleporting"),
    ];
    let err = load_level(&layer(), &entities).unwrap_err();
    assert_eq!(err, DecodeError::UnknownEnemyType { label: "Teleporting".to_owned() });
}

#[test]
fn slow_spawner_level_spawns_one_enemy_after_its_period() {
    // A level with one spawner of kind "Slow" at pixel (100,100) and a
    // 2-second timer, advanced by 2.1 simulated seconds: exactly one
    // enemy, at the converted position, parented under the world root.
    let entities = vec![spawner_entity_at(PixelPoint { x: 100, y: 100 }, "Slow")];
    let level = load_level(&layer(), &entities).unwrap();
    let mut world = level.spawners;
    let res = resources();
    let events = spawn(&mut world, 2100, &res);
    assert_eq!(events.len(), 1);
    assert_eq!(events[0].position, WorldPoint { x: 108_000, y: 660_000 });
    assert_eq!(events[0].parent, res.world_id);
    assert_eq!(events[0].asset, res.slow_enemy_asset);
    // The timer keeps counting the next interval.
    assert_eq!(world[0].spawner.spawn_timer.elapsed, 100);
    // A second frame within the next interval spawns nothing more.
    let more = spawn(&mut world, 500, &res);
    assert!(more.is_empty());
}
