use tower_defence::fields::{EntityInstance, FieldInstance, FieldValue, LayerInstance};
use tower_defence::geometry::{GridPoint, PixelPoint, Pivot, WorldPoint};
use tower_defence::world_loading::{DecodeError, SpawnType, Spawner, SPAWN_PERIOD_MILLIS};

fn layer() -> LayerInstance {
    // 48 cells of 16 pixels: a 768-pixel-tall layer.
    LayerInstance { c_hei: 48, grid_size: 16 }
}

fn entity(fields: Vec<FieldInstance>) -> EntityInstance {
    EntityInstance {
        identifier: "Spawner".to_owned(),
        px: PixelPoint { x: 100, y: 100 },
        width: 16,
        height: 16,
        pivot: Pivot { x: 0, y: 0 },
        field_instances: fields,
    }
}

fn patrol_field(points: Vec<Option<GridPoint>>) -> FieldInstance {
    FieldInstance { identifier: "Patrol".to_owned(), value: FieldValue::Points(points) }
}

fn enemy_type_field(label: &str) -> FieldInstance {
    FieldInstance {
        identifier: "Enemy_Type".to_owned(),
        value: FieldValue::Enum(Some(label.to_owned())),
    }
}

#[test]
fn decodes_patrol_in_order_with_nulls_skipped() {
    let e = entity(vec![
        patrol_field(vec![
            Some(GridPoint { x: 3, y: 2 }),
            None,
            Some(GridPoint { x: 0, y: 0 }),
        ]),
        enemy_type_field("Slow"),
    ]);
    let s = Spawner::bundle_entity(&e, &layer()).unwrap();
    // First element: the entity's own converted position.
    // x: 1000*100 + (500-0)*16 = 108000; y: 1000*(768-100) - 500*16 = 660000.
    assert_eq!(s.patrol[0], WorldPoint { x: 108_000, y: 660_000 });
    // Cell (3,2) centre: pixel (56,40); x: 56000+8000 = 64000; y: 1000*(768-40)-8000 = 720000.
    assert_eq!(s.patrol[1], WorldPoint { x: 64_000, y: 720_000 });
    // Cell (0,0) centre: pixel (8,8); x: 8000+8000 = 16000; y: 1000*(768-8)-8000 = 752000.
    assert_eq!(s.patrol[2], WorldPoint { x: 16_000, y: 752_000 });
    assert_eq!(s.patrol.len(), 3);
    assert_eq!(s.spawn_type, SpawnType::Slow);
    assert_eq!(s.spawn_timer.period, SPAWN_PERIOD_MILLIS);
    assert_eq!(s.spawn_timer.elapsed, 0);
}

#[test]
fn decodes_fast_enemy_type() {
    let e = entity(vec![patrol_field(vec![]), enemy_type_field("Fast")]);
    let s = Spawner::bundle_entity(&e, &layer()).unwrap();
    assert_eq!(s.spawn_type, SpawnType::Fast);
    assert_eq!(s.patrol.len(), 1);
}

#[test]
fn unknown_enemy_type_is_a_decode_error() {
    let e = entity(vec![patrol_field(vec![]), enemy_type_field("Medium")]);
    let err = Spawner::bundle_entity(&e, &layer()).unwrap_err();
    assert_eq!(err, DecodeError::UnknownEnemyType { label: "Medium".to_owned() });
}

#[test]
fn missing_patrol_field_is_reported_by_name() {
    let e = entity(vec![enemy_type_field("Slow")]);
    let err = Spawner::bundle_entity(&e, &layer()).unwrap_err();
    assert_eq!(err, DecodeError::MissingField { identifier: "Patrol".to_owned() });
    assert_eq!(err.subject().as_str(), "Patrol");
}

#[test]
fn missing_enemy_type_field_is_reported_by_name() {
    let e = entity(vec![patrol_field(vec![Some(GridPoint { x: 1, y: 1 })])]);
    let err = Spawner::bundle_entity(&e, &layer()).unwrap_err();
    assert_eq!(err, DecodeError::MissingField { identifier: "Enemy_Type".to_owned() });
    assert_eq!(err.subject().as_str(), "Enemy_Type");
}

#[test]
fn patrol_field_of_wrong_type_is_a_decode_error() {
    let e = entity(vec![
        FieldInstance {
            identifier: "Patrol".to_owned(),
            value: FieldValue::Enum(Some("Slow".to_owned())),
        },
        enemy_type_field("Slow"),
    ]);
    let err = Spawner::bundle_entity(&e, &layer()).unwrap_err();
    assert_eq!(err, DecodeError::WrongFieldType { identifier: "Patrol".to_owned() });
}

#[test]
fn enemy_type_field_of_wrong_type_is_a_decode_error() {
    let e = entity(vec![
        patrol_field(vec![]),
        FieldInstance { identifier: "Enemy_Type".to_owned(), value: FieldValue::Points(vec![]) },
    ]);
    let err = Spawner::bundle_entity(&e, &layer()).unwrap_err();
    assert_eq!(err, DecodeError::WrongFieldType { identifier: "Enemy_Type".to_owned() });
}

#[test]
fn unset_enemy_type_value_is_a_decode_error() {
    let e = entity(vec![
        patrol_field(vec![]),
        FieldInstance { identifier: "Enemy_Type".to_owned(), value: FieldValue::Enum(None) },
    ]);
    let err = Spawner::bundle_entity(&e, &layer()).unwrap_err();
    assert_eq!(err, DecodeError::MissingEnumValue { identifier: "Enemy_Type".to_owned() });
    assert!(!err.describe().is_empty());
}

#[test]
fn first_field_with_an_identifier_wins() {
    let e = entity(vec![
        patrol_field(vec![]),
        enemy_type_field("Fast"),
        enemy_type_field("Slow"),
    ]);
    let s = Spawner::bundle_entity(&e, &layer()).unwrap();
    assert_eq!(s.spawn_type, SpawnType::Fast);
}
