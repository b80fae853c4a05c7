//! Decoding editor-authored entities into typed game data, and the
//! level loader that drives it.
//!
//! The level editor attaches a bag of named fields to every entity
//! instance.  A spawner entity carries a "Patrol" field (a list of
//! grid points, possibly with empty slots) and an "Enemy_Type" field
//! (an enumeration label).  Decoding turns these into a [`Spawner`]
//! component; any missing or malformed field aborts the level load
//! with a typed decode error instead of crashing the process.

use crate::fields::find_field;
use crate::fields::find_field_value;
use crate::fields::EntityInstance;
use crate::fields::FieldValue;
use crate::fields::LayerInstance;
use crate::geometry::cell_center_px;
use crate::geometry::grid_cell_center;
use crate::geometry::pixel_to_world;
use crate::geometry::world_of;
use crate::geometry::GridPoint;
use crate::geometry::WorldPoint;
use crate::spawning::SpawnerBundle;
use crate::timer::Timer;
use vstd::prelude::*;

verus! {

/// The kind of enemy a spawner produces.
#[derive(Clone, Copy, Debug, PartialEq, Eq, Structural, Default)]
pub enum SpawnType {
    #[default]
    Slow,
    Fast,
}

/// Period of every spawner's repeating timer, in milliseconds.
pub const SPAWN_PERIOD_MILLIS: u64 = 2000;

/// A spawner component decoded from an editor entity: the patrol route
/// (whose first point is the spawner's own world position), the kind
/// of enemy it produces, and its repeating spawn timer.
#[derive(Clone, Debug)]
pub struct Spawner {
    pub patrol: Vec<WorldPoint>,
    pub spawn_type: SpawnType,
    pub spawn_timer: Timer,
}

/// A structural fault in the level data, identified by the entity
/// field it was found in.
#[derive(Clone, Debug, PartialEq, Eq)]
pub enum DecodeError {
    /// The entity has no field with this identifier.
    MissingField { identifier: String },
    /// The field exists but holds a value of another type.
    WrongFieldType { identifier: String },
    /// The enumeration field exists but its value was left unset.
    MissingEnumValue { identifier: String },
    /// The enemy-kind label names no known kind.
    UnknownEnemyType { label: String },
}

impl DecodeError {
    /// A short description of the kind of fault, for diagnostics
    /// outside the library; the offending field or label itself is in
    /// the variant's payload.
    pub fn describe(&self) -> (r: String)
        ensures
            r@.len() > 0,
    {
        proof {
            reveal_strlit("missing field");
            reveal_strlit("wrong type for field");
            reveal_strlit("unset value for field");
            reveal_strlit("unknown enemy type");
        }
        match self {
            DecodeError::MissingField { .. } => "missing field".to_owned(),
            DecodeError::WrongFieldType { .. } => "wrong type for field".to_owned(),
            DecodeError::MissingEnumValue { .. } => "unset value for field".to_owned(),
            DecodeError::UnknownEnemyType { .. } => "unknown enemy type".to_owned(),
        }
    }

    /// The field identifier or label the fault was found at.
    pub fn subject(&self) -> (r: &String)
        ensures
            r@ == match *self {
                DecodeError::MissingField { identifier } => identifier@,
                DecodeError::WrongFieldType { identifier } => identifier@,
                DecodeError::MissingEnumValue { identifier } => identifier@,
                DecodeError::UnknownEnemyType { label } => label@,
            },
    {
        match self {
            DecodeError::MissingField { identifier } => identifier,
            DecodeError::WrongFieldType { identifier } => identifier,
            DecodeError::MissingEnumValue { identifier } => identifier,
            DecodeError::UnknownEnemyType { label } => label,
        }
    }
}

/// The world position of an entity instance: its pivot pixel position
/// converted to world coordinates.
pub open spec fn entity_world_pos(e: EntityInstance, layer: LayerInstance) -> WorldPoint {
    world_of(
        e.px.x as int,
        e.px.y as int,
        layer.px_height(),
        e.width as int,
        e.height as int,
        e.pivot,
    )
}

/// The world position of a patrol grid point: the centre of its grid
/// cell, scaled to pixels and converted like the entity's own
/// position.
pub open spec fn grid_world_pos(p: GridPoint, e: EntityInstance, layer: LayerInstance) -> WorldPoint {
    world_of(
        cell_center_px(p.x as int, layer.grid_size as int),
        cell_center_px(p.y as int, layer.grid_size as int),
        layer.px_height(),
        e.width as int,
        e.height as int,
        e.pivot,
    )
}

/// The converted patrol route of a list of editor grid points, in
/// their original order, with empty slots omitted.
pub open spec fn patrol_world_points(
    pts: Seq<Option<GridPoint>>,
    e: EntityInstance,
    layer: LayerInstance,
) -> Seq<WorldPoint>
    decreases pts.len(),
{
    if pts.len() == 0 {
        Seq::empty()
    } else {
        let rest = patrol_world_points(pts.drop_last(), e, layer);
        match pts.last() {
            None => rest,
            Some(p) => rest.push(grid_world_pos(p, e, layer)),
        }
    }
}

/// The enemy kind named by an enumeration label, if any.
pub open spec fn spawn_type_of_label(label: Seq<char>) -> Option<SpawnType> {
    if label == "Fast"@ {
        Some(SpawnType::Fast)
    } else if label == "Slow"@ {
        Some(SpawnType::Slow)
    } else {
        None
    }
}

/// The spawn timer every decoded spawner starts with.
pub open spec fn initial_spawn_timer() -> Timer {
    Timer { period: SPAWN_PERIOD_MILLIS, elapsed: 0, fired: 0 }
}

/// Whether the entity's fields form a decodable spawner: a "Patrol"
/// field holding points and an "Enemy_Type" field holding a set label
/// that names a known enemy kind.
pub open spec fn spawner_fields_ok(e: EntityInstance) -> bool {
    match find_field_value(e.field_instances@, "Patrol"@) {
        Some(FieldValue::Points(_)) => match find_field_value(e.field_instances@, "Enemy_Type"@) {
            Some(FieldValue::Enum(Some(label))) => spawn_type_of_label(label@) is Some,
            _ => false,
        },
        _ => false,
    }
}

/// The patrol points stored in the entity's "Patrol" field; meaningful
/// only when `spawner_fields_ok` holds.
pub open spec fn patrol_field_points(e: EntityInstance) -> Seq<Option<GridPoint>> {
    match find_field_value(e.field_instances@, "Patrol"@) {
        Some(FieldValue::Points(pts)) => pts@,
        _ => Seq::empty(),
    }
}

/// The enemy kind stored in the entity's "Enemy_Type" field;
/// meaningful only when `spawner_fields_ok` holds.
pub open spec fn decoded_spawn_type(e: EntityInstance) -> SpawnType {
    match find_field_value(e.field_instances@, "Enemy_Type"@) {
        Some(FieldValue::Enum(Some(label))) => match spawn_type_of_label(label@) {
            Some(t) => t,
            None => SpawnType::Slow,
        },
        _ => SpawnType::Slow,
    }
}

/// A successfully decoded spawner: its patrol route starts at the
/// entity's own converted position, continues with the converted
/// centres of the non-empty patrol points in order, and its timer and
/// kind are as authored.
pub open spec fn spawner_decoded(e: EntityInstance, layer: LayerInstance, s: Spawner) -> bool {
    &&& s.patrol@ == seq![entity_world_pos(e, layer)] + patrol_world_points(
        patrol_field_points(e),
        e,
        layer,
    )
    &&& s.spawn_type == decoded_spawn_type(e)
    &&& s.spawn_timer == initial_spawn_timer()
}

/// Everything `Spawner::bundle_entity` promises: on decodable fields
/// the exact decoded spawner, otherwise the exact decode error for the
/// first fault in lookup order.
pub open spec fn bundle_entity_post(
    e: EntityInstance,
    layer: LayerInstance,
    r: Result<Spawner, DecodeError>,
) -> bool {
    match find_field_value(e.field_instances@, "Patrol"@) {
        None => r matches Err(DecodeError::MissingField { identifier }) && identifier@
            == "Patrol"@,
        Some(FieldValue::Enum(_)) => r matches Err(DecodeError::WrongFieldType { identifier })
            && identifier@ == "Patrol"@,
        Some(FieldValue::Points(_)) => match find_field_value(e.field_instances@, "Enemy_Type"@) {
            None => r matches Err(DecodeError::MissingField { identifier }) && identifier@
                == "Enemy_Type"@,
            Some(FieldValue::Points(_)) => r matches Err(
                DecodeError::WrongFieldType { identifier },
            ) && identifier@ == "Enemy_Type"@,
            Some(FieldValue::Enum(None)) => r matches Err(
                DecodeError::MissingEnumValue { identifier },
            ) && identifier@ == "Enemy_Type"@,
            Some(FieldValue::Enum(Some(label))) => match spawn_type_of_label(label@) {
                None => r matches Err(DecodeError::UnknownEnemyType { label: l }) && l@ == label@,
                Some(_) => r matches Ok(s) && spawner_decoded(e, layer, s),
            },
        },
    }
}

impl Spawner {
    /// Decodes a spawner entity instance: converts the entity's own
    /// position and the non-empty "Patrol" points into the patrol
    /// route, reads the enemy kind from "Enemy_Type", and starts the
    /// repeating spawn timer.  The first missing or malformed field is
    /// reported as a typed decode error.
    pub fn bundle_entity(entity_instance: &EntityInstance, layer_instance: &LayerInstance) -> (r:
        Result<Spawner, DecodeError>)
        requires
            entity_instance.wf(),
            layer_instance.wf(),
        ensures
            bundle_entity_post(*entity_instance, *layer_instance, r),
            r is Ok <==> spawner_fields_ok(*entity_instance),
    {
        let layer_px_height = layer_instance.pixel_height();
        let own_pos = pixel_to_world(
            entity_instance.px.x as i64,
            entity_instance.px.y as i64,
            layer_px_height,
            entity_instance.width,
            entity_instance.height,
            entity_instance.pivot,
        );
        let mut points: Vec<WorldPoint> = Vec::new();
        points.push(own_pos);

        let patrol_id: String = "Patrol".to_owned();
        let patrol_idx = match find_field(&entity_instance.field_instances, &patrol_id) {
            Some(i) => i,
            None => {
                return Err(DecodeError::MissingField { identifier: patrol_id });
            },
        };
        match &entity_instance.field_instances[patrol_idx].value {
            FieldValue::Enum(_) => {
                return Err(DecodeError::WrongFieldType { identifier: patrol_id });
            },
            FieldValue::Points(pts) => {
                proof {
                    assert(pts@ == patrol_field_points(*entity_instance));
                    assert(points@ =~= seq![entity_world_pos(*entity_instance, *layer_instance)]
                        + patrol_world_points(pts@.take(0), *entity_instance, *layer_instance));
                }
                let n = pts.len();
                for j in 0..n
                    invariant
                        n == pts@.len(),
                        entity_instance.wf(),
                        layer_instance.wf(),
                        layer_px_height == layer_instance.px_height(),
                        0 <= layer_px_height <= crate::geometry::COORD_LIMIT,
                        pts@ == patrol_field_points(*entity_instance),
                        points@ == seq![entity_world_pos(*entity_instance, *layer_instance)]
                            + patrol_world_points(
                            pts@.take(j as int),
                            *entity_instance,
                            *layer_instance,
                        ),
                {
                    let slot = pts[j];
                    proof {
                        assert(pts@.take(j + 1).drop_last() =~= pts@.take(j as int));
                        assert(pts@.take(j + 1).last() == pts@[j as int]);
                    }
                    match slot {
                        None => {},
                        Some(p) => {
                            let cx = grid_cell_center(p.x, layer_instance.grid_size);
                            let cy = grid_cell_center(p.y, layer_instance.grid_size);
                            let w = pixel_to_world(
                                cx,
                                cy,
                                layer_px_height,
                                entity_instance.width,
                                entity_instance.height,
                                entity_instance.pivot,
                            );
                            points.push(w);
                            proof {
                                assert(points@ =~= seq![
                                    entity_world_pos(*entity_instance, *layer_instance),
                                ] + patrol_world_points(
                                    pts@.take(j + 1),
                                    *entity_instance,
                                    *layer_instance,
                                ));
                            }
                        },
                    }
                }
                proof {
                    assert(pts@.take(n as int) =~= pts@);
                }
            },
        }

        let enemy_type_id: String = "Enemy_Type".to_owned();
        let enemy_idx = match find_field(&entity_instance.field_instances, &enemy_type_id) {
            Some(i) => i,
            None => {
                return Err(DecodeError::MissingField { identifier: enemy_type_id });
            },
        };
        let spawn_type = match &entity_instance.field_instances[enemy_idx].value {
            FieldValue::Points(_) => {
                return Err(DecodeError::WrongFieldType { identifier: enemy_type_id });
            },
            FieldValue::Enum(opt) => match opt {
                None => {
                    return Err(DecodeError::MissingEnumValue { identifier: enemy_type_id });
                },
                Some(label) => {
                    if *label == "Fast".to_owned() {
                        SpawnType::Fast
                    } else if *label == "Slow".to_owned() {
                        SpawnType::Slow
                    } else {
                        return Err(DecodeError::UnknownEnemyType { label: label.clone() });
                    }
                },
            },
        };

        Ok(
            Spawner {
                patrol: points,
                spawn_type,
                spawn_timer: Timer::from_millis(SPAWN_PERIOD_MILLIS),
            },
        )
    }
}

/// The entity types the level loader recognizes and maps to typed
/// game data.
#[derive(Clone, Copy, Debug, PartialEq, Eq, Structural)]
pub enum EntityKind {
    Spawner,
    TowerSlot,
}

/// The registry of entity-type identifiers: which typed component an
/// editor entity with the given identifier decodes into, if any.
pub open spec fn registered_kind_spec(id: Seq<char>) -> Option<EntityKind> {
    if id == "Spawner"@ {
        Some(EntityKind::Spawner)
    } else if id == "Tower_Slot"@ {
        Some(EntityKind::TowerSlot)
    } else {
        None
    }
}

/// Looks an entity-type identifier up in the registry.
pub fn registered_kind(identifier: &String) -> (r: Option<EntityKind>)
    ensures
        r == registered_kind_spec(identifier@),
{
    if *identifier == "Spawner".to_owned() {
        Some(EntityKind::Spawner)
    } else if *identifier == "Tower_Slot".to_owned() {
        Some(EntityKind::TowerSlot)
    } else {
        None
    }
}

/// A buildable tower position as it lives in the game world.  Tower
/// slots carry no data yet beyond their world transform.
#[derive(Clone, Copy, Debug, PartialEq, Eq, Structural)]
pub struct TowerSlotBundle {
    pub transform: WorldPoint,
}

/// A fully loaded level: every recognized entity of the level data,
/// decoded.
#[derive(Clone, Debug)]
pub struct LoadedLevel {
    pub spawners: Vec<SpawnerBundle>,
    pub tower_slots: Vec<TowerSlotBundle>,
}

/// How a loaded level corresponds to the level data it was decoded
/// from: walking the entities in order, every "Spawner" entity decodes
/// to the next spawner (placed at its own converted position), every
/// "Tower_Slot" entity to the next tower-slot position, and entities
/// of unregistered types are ignored.
pub open spec fn level_matches(
    entities: Seq<EntityInstance>,
    layer: LayerInstance,
    spawners: Seq<SpawnerBundle>,
    slots: Seq<TowerSlotBundle>,
) -> bool
    decreases entities.len(),
{
    if entities.len() == 0 {
        spawners.len() == 0 && slots.len() == 0
    } else {
        let e = entities.last();
        match registered_kind_spec(e.identifier@) {
            Some(EntityKind::Spawner) => {
                &&& spawners.len() > 0
                &&& spawner_fields_ok(e)
                &&& spawners.last().transform == entity_world_pos(e, layer)
                &&& spawner_decoded(e, layer, spawners.last().spawner)
                &&& level_matches(entities.drop_last(), layer, spawners.drop_last(), slots)
            },
            Some(EntityKind::TowerSlot) => {
                &&& slots.len() > 0
                &&& slots.last().transform == entity_world_pos(e, layer)
                &&& level_matches(entities.drop_last(), layer, spawners, slots.drop_last())
            },
            None => level_matches(entities.drop_last(), layer, spawners, slots),
        }
    }
}

/// Loads a level from its entity instances: decodes every recognized
/// entity into typed game data.  Loading is all-or-nothing — the first
/// spawner whose fields are missing or malformed aborts the load with
/// that entity's decode error.
pub fn load_level(layer: &LayerInstance, entities: &Vec<EntityInstance>) -> (r: Result<
    LoadedLevel,
    DecodeError,
>)
    requires
        layer.wf(),
        forall|i: int| 0 <= i < entities@.len() ==> (#[trigger] entities@[i]).wf(),
    ensures
        r is Ok <==> (forall|i: int|
            0 <= i < entities@.len() && registered_kind_spec(
                (#[trigger] entities@[i]).identifier@,
            ) == Some(EntityKind::Spawner) ==> spawner_fields_ok(entities@[i])),
        r matches Ok(level) ==> level_matches(
            entities@,
            *layer,
            level.spawners@,
            level.tower_slots@,
        ),
        r matches Err(err) ==> exists|i: int|
            {
                &&& 0 <= i < entities@.len()
                &&& registered_kind_spec((#[trigger] entities@[i]).identifier@) == Some(
                    EntityKind::Spawner,
                )
                &&& !spawner_fields_ok(entities@[i])
                &&& bundle_entity_post(entities@[i], *layer, Err(err))
            },
{
    let mut spawners: Vec<SpawnerBundle> = Vec::new();
    let mut tower_slots: Vec<TowerSlotBundle> = Vec::new();
    let layer_px_height = layer.pixel_height();
    let n = entities.len();
    for i in 0..n
        invariant
            n == entities@.len(),
            layer.wf(),
            layer_px_height == layer.px_height(),
            0 <= layer_px_height <= crate::geometry::COORD_LIMIT,
            forall|j: int| 0 <= j < entities@.len() ==> (#[trigger] entities@[j]).wf(),
            forall|j: int|
                0 <= j < i && registered_kind_spec((#[trigger] entities@[j]).identifier@) == Some(
                    EntityKind::Spawner,
                ) ==> spawner_fields_ok(entities@[j]),
            level_matches(entities@.take(i as int), *layer, spawners@, tower_slots@),
    {
        proof {
            assert(entities@.take(i + 1).drop_last() =~= entities@.take(i as int));
            assert(entities@.take(i + 1).last() == entities@[i as int]);
        }
        let e = &entities[i];
        match registered_kind(&e.identifier) {
            Some(EntityKind::Spawner) => {
                match Spawner::bundle_entity(e, layer) {
                    Ok(sp) => {
                        proof {
                            assert(sp.patrol@[0] == entity_world_pos(
                                entities@[i as int],
                                *layer,
                            ));
                        }
                        let transform = sp.patrol[0];
                        let ghost pre = spawners@;
                        spawners.push(SpawnerBundle { transform, spawner: sp });
                        proof {
                            assert(spawners@.drop_last() =~= pre);
                        }
                    },
                    Err(err) => {
                        return Err(err);
                    },
                }
            },
            Some(EntityKind::TowerSlot) => {
                let pos = pixel_to_world(
                    e.px.x as i64,
                    e.px.y as i64,
                    layer_px_height,
                    e.width,
                    e.height,
                    e.pivot,
                );
                let ghost pre = tower_slots@;
                tower_slots.push(TowerSlotBundle { transform: pos });
                proof {
                    assert(tower_slots@.drop_last() =~= pre);
                }
            },
            None => {},
        }
    }
    proof {
        assert(entities@.take(n as int) =~= entities@);
    }
    Ok(LoadedLevel { spawners, tower_slots })
}

} // verus!
