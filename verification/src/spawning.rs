//! The per-frame spawner system.
//!
//! Once per simulation frame the system walks every spawner entity,
//! advances its repeating timer by the frame's elapsed time, and for
//! each timer whose interval elapsed this frame emits exactly one
//! enemy-creation event: the enemy appears at the spawner's current
//! position, in front of the background layer, carrying the shared
//! enemy sprite and parented under the world root entity.

use crate::resources::EnemyResources;
use crate::timer::fire_frames;
use crate::timer::lemma_exact_period_fires_once;
use crate::timer::sum_of_deltas;
use crate::timer::Timer;
use crate::timer::MAX_PERIOD_MILLIS;
use crate::world_loading::Spawner;
use vstd::prelude::*;

verus! {

/// Z-order of spawned enemies, in thousandths: in front of the
/// background layer.
pub const ENEMY_Z: i64 = 5000;

/// A spawner as it lives in the game world: its world transform
/// together with its spawner component.  The transform equals the
/// first point of the patrol route when the entity was decoded from
/// level data.
#[derive(Clone, Debug)]
pub struct SpawnerBundle {
    pub transform: crate::geometry::WorldPoint,
    pub spawner: Spawner,
}

/// One enemy-creation request handed back to the host engine: where
/// the enemy appears, its z-order, the entity it is parented under,
/// and the sprite asset it animates.
#[derive(Clone, Copy, Debug, PartialEq, Eq, Structural)]
pub struct SpawnEvent {
    pub position: crate::geometry::WorldPoint,
    pub z: i64,
    pub parent: u64,
    pub asset: u64,
}

/// The event a firing spawner emits.
pub open spec fn event_of(s: SpawnerBundle, res: EnemyResources) -> SpawnEvent {
    SpawnEvent {
        position: s.transform,
        z: ENEMY_Z,
        parent: res.world_id,
        asset: res.slow_enemy_asset,
    }
}

/// A spawner entity after its timer is advanced by one frame delta;
/// nothing but the timer changes.
pub open spec fn after_tick(s: SpawnerBundle, delta: u64) -> SpawnerBundle {
    SpawnerBundle {
        spawner: Spawner {
            spawn_timer: Timer::ticked(s.spawner.spawn_timer, delta),
            ..s.spawner
        },
        ..s
    }
}

/// The events one frame emits: one per spawner whose timer's interval
/// elapsed this frame, in spawner order, each at that spawner's
/// position.
pub open spec fn events_for(
    spawners: Seq<SpawnerBundle>,
    delta: u64,
    res: EnemyResources,
) -> Seq<SpawnEvent>
    decreases spawners.len(),
{
    if spawners.len() == 0 {
        Seq::empty()
    } else {
        let rest = events_for(spawners.drop_last(), delta, res);
        if Timer::ticked(spawners.last().spawner.spawn_timer, delta).fired > 0 {
            rest.push(event_of(spawners.last(), res))
        } else {
            rest
        }
    }
}

/// Runs the spawner system for one frame: advances every spawner's
/// timer by `delta` milliseconds and returns the enemy-creation events
/// of this frame, in spawner order.
pub fn spawn(spawners: &mut Vec<SpawnerBundle>, delta: u64, res: &EnemyResources) -> (events: Vec<
    SpawnEvent,
>)
    requires
        forall|i: int|
            0 <= i < old(spawners)@.len() ==> (#[trigger] old(
                spawners,
            )@[i]).spawner.spawn_timer.wf(),
        delta <= MAX_PERIOD_MILLIS,
    ensures
        final(spawners)@.len() == old(spawners)@.len(),
        forall|i: int|
            0 <= i < old(spawners)@.len() ==> final(spawners)@[i] == after_tick(
                #[trigger] old(spawners)@[i],
                delta,
            ),
        events@ == events_for(old(spawners)@, delta, *res),
{
    let ghost orig: Seq<SpawnerBundle> = spawners@;
    let mut events: Vec<SpawnEvent> = Vec::new();
    let n = spawners.len();
    for i in 0..n
        invariant
            n == orig.len(),
            spawners@.len() == orig.len(),
            delta <= MAX_PERIOD_MILLIS,
            forall|j: int| 0 <= j < orig.len() ==> (#[trigger] orig[j]).spawner.spawn_timer.wf(),
            forall|j: int| 0 <= j < i ==> spawners@[j] == after_tick(#[trigger] orig[j], delta),
            forall|j: int| i <= j < orig.len() ==> spawners@[j] == #[trigger] orig[j],
            events@ == events_for(orig.take(i as int), delta, *res),
    {
        proof {
            assert(orig.take(i + 1).drop_last() =~= orig.take(i as int));
            assert(orig.take(i + 1).last() == orig[i as int]);
        }
        let ent = &mut spawners[i];
        ent.spawner.spawn_timer.tick(delta);
        if spawners[i].spawner.spawn_timer.just_finished() {
            events.push(
                SpawnEvent {
                    position: spawners[i].transform,
                    z: ENEMY_Z,
                    parent: res.world_id,
                    asset: res.slow_enemy_asset,
                },
            );
        }
    }
    proof {
        assert(orig.take(orig.len() as int) =~= orig);
    }
    events
}

/// The enemy-creation events one spawner emits over a whole sequence
/// of frames, each frame advancing its timer by the frame's delta.
pub open spec fn spawner_frames_events(
    s: SpawnerBundle,
    deltas: Seq<u64>,
    res: EnemyResources,
) -> Seq<SpawnEvent>
    decreases deltas.len(),
{
    if deltas.len() == 0 {
        Seq::empty()
    } else {
        let s2 = after_tick(s, deltas[0]);
        (if s2.spawner.spawn_timer.fired > 0 {
            seq![event_of(s, res)]
        } else {
            Seq::empty()
        }) + spawner_frames_events(s2, deltas.drop_first(), res)
    }
}

/// Across any frames, a spawner emits as many events as its timer has
/// firing frames, every one of them at the spawner's position.
proof fn lemma_spawner_frames_events_counted(s: SpawnerBundle, deltas: Seq<u64>, res: EnemyResources)
    ensures
        spawner_frames_events(s, deltas, res).len() == fire_frames(s.spawner.spawn_timer, deltas),
        forall|k: int|
            0 <= k < spawner_frames_events(s, deltas, res).len() ==> #[trigger] spawner_frames_events(
                s,
                deltas,
                res,
            )[k] == event_of(s, res),
    decreases deltas.len(),
{
    if deltas.len() > 0 {
        let s2 = after_tick(s, deltas[0]);
        assert(s2.transform == s.transform);
        assert(event_of(s2, res) == event_of(s, res));
        lemma_spawner_frames_events_counted(s2, deltas.drop_first(), res);
    }
}

/// Law: a spawner whose timer has exactly the time left in its current
/// interval — advanced by per-frame deltas that sum to exactly that
/// time, in one or more frames — emits exactly one enemy-creation
/// event over those frames, positioned at the spawner's position.  In
/// particular, a freshly decoded spawner advanced by exactly its
/// period spawns exactly one enemy.
pub proof fn lemma_exact_period_spawns_once(s: SpawnerBundle, deltas: Seq<u64>, res: EnemyResources)
    requires
        s.spawner.spawn_timer.wf(),
        forall|i: int| 0 <= i < deltas.len() ==> #[trigger] deltas[i] <= MAX_PERIOD_MILLIS,
        s.spawner.spawn_timer.elapsed + sum_of_deltas(deltas) == s.spawner.spawn_timer.period,
    ensures
        spawner_frames_events(s, deltas, res).len() == 1,
        spawner_frames_events(s, deltas, res)[0] == event_of(s, res),
        spawner_frames_events(s, deltas, res)[0].position == s.transform,
{
    lemma_exact_period_fires_once(s.spawner.spawn_timer, deltas);
    lemma_spawner_frames_events_counted(s, deltas, res);
}

} // verus!
