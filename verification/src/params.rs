use vstd::prelude::*;

verus! {

/// Horizontal distance the player moves in one tick, in hundredths of a
/// world unit (0.05 units). A fixed per-tick increment: the simulation
/// assumes a fixed-step scheduler and does not scale motion by delta time.
pub const PLAYER_SPEED: i64 = 5;

/// Distance a falling object descends in one tick, in hundredths of a
/// world unit (0.05 units); the same fixed per-tick policy as
/// [`PLAYER_SPEED`].
pub const FALLING_SPEED: i64 = 5;

/// Pickup radius, in hundredths of a world unit (1.0 units): an object
/// strictly closer than this to the player is collected.
pub const PICKUP_DISTANCE: i64 = 100;

/// Square of [`PICKUP_DISTANCE`], the threshold for squared distances.
pub const PICKUP_DISTANCE_SQ: i64 = PICKUP_DISTANCE * PICKUP_DISTANCE;

/// Default interval between spawns, in milliseconds (1 second).
pub const DEFAULT_SPAWN_PERIOD_MS: u64 = 1000;

/// Default height at which new objects appear, in hundredths of a world
/// unit (5.0 units above the ground plane).
pub const DEFAULT_SPAWN_HEIGHT: i64 = 500;

} // verus!
