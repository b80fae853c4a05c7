//! The level-scoped resource registry.
//!
//! Created once when a level is loaded and read-only afterwards, it
//! holds the identifiers the spawner system needs: the world root
//! entity every spawned enemy is parented under, and the handle of the
//! shared enemy sprite asset.  Both are plain identifiers issued by the
//! host engine; the library only carries them through.

use vstd::prelude::*;

verus! {

/// Shared identifiers for enemy spawning, valid for the lifetime of
/// the loaded level.
#[derive(Clone, Copy, Debug, PartialEq, Eq, Structural)]
pub struct EnemyResources {
    /// The world root entity that spawned enemies are parented under.
    pub world_id: u64,
    /// The handle of the shared enemy sprite-sheet asset.
    pub slow_enemy_asset: u64,
}

} // verus!
