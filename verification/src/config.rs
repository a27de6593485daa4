use vstd::prelude::*;

verus! {

/// Milliseconds in one second: the factor between a velocity
/// (milli-units per second) and the displacement it produces per
/// millisecond.
pub const MILLIS_PER_SECOND: u64 = 1000;

/// Largest magnitude a velocity component may ever have
/// (milli-units per second).
pub const MAX_SPEED: i64 = 1_000_000_000;

/// Largest per-frame elapsed time the simulation accepts (milliseconds).
pub const MAX_FRAME_MILLIS: u64 = 1_000_000_000;

/// Largest interval a repeating timer may be configured with
/// (milliseconds).
pub const MAX_INTERVAL_MILLIS: u64 = 1_000_000_000;

/// Largest time a single integration tick can cover: a timer fires with
/// at most `MAX_INTERVAL_MILLIS - 1` already accumulated plus one frame
/// of at most `MAX_FRAME_MILLIS`.
pub const MAX_TICK_MILLIS: u64 = 2_000_000_000;

/// Largest magnitude a single integration step can move a particle:
/// `MAX_SPEED * MAX_TICK_MILLIS / MILLIS_PER_SECOND` (milli-units).
pub const MAX_DISPLACEMENT: i64 = 2_000_000_000_000_000;

/// Positions saturate at this magnitude (milli-units), as a defence
/// against runaway values; far beyond any container the model admits.
pub const MAX_POS: i64 = 1_000_000_000_000_000;

/// Largest container width or height (milli-units).
pub const MAX_EXTENT: u64 = 2_000_000_000;

/// Largest collision detection distance (milli-units).
pub const MAX_COLLISION_DISTANCE: i64 = 2_000_000_000;

/// Default container width: 800 length units.
pub const DEFAULT_WIDTH: u64 = 800_000;

/// Default container height: 400 length units.
pub const DEFAULT_HEIGHT: u64 = 400_000;

/// Default number of molecules.
pub const DEFAULT_NUM_MOLECULES: usize = 1000;

/// Default collision detection distance: 5 length units.
pub const DEFAULT_COLLISION_DISTANCE: i64 = 5_000;

/// Default interval of the motion timer: 0.01 s.
pub const MOVE_INTERVAL_MILLIS: u64 = 10;

/// Default interval of the stats timer: 1 s.
pub const STATS_INTERVAL_MILLIS: u64 = 1000;

/// Initial velocity components are drawn from
/// `[0, MAX_INITIAL_SPEED)`: 200 length units per second.
pub const MAX_INITIAL_SPEED: i64 = 200_000;

/// Run parameters, immutable for a given run.
#[derive(Clone, Copy, Debug, PartialEq, Eq, Structural)]
pub struct Configuration {
    /// Fixed population of the particle store.
    pub num_molecules: usize,
    /// Two particles strictly closer than this collide (milli-units).
    pub collision_detection_distance: i64,
}

impl Configuration {
    /// The bounds under which collision detection fits in `i64`.
    pub open spec fn wf(self) -> bool {
        0 <= self.collision_detection_distance <= MAX_COLLISION_DISTANCE
    }
}

impl Default for Configuration {
    fn default() -> (c: Self)
        ensures
            c.num_molecules == DEFAULT_NUM_MOLECULES,
            c.collision_detection_distance == DEFAULT_COLLISION_DISTANCE,
            c.wf(),
    {
        Configuration {
            num_molecules: DEFAULT_NUM_MOLECULES,
            collision_detection_distance: DEFAULT_COLLISION_DISTANCE,
        }
    }
}

} // verus!
