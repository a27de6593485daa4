use vstd::prelude::*;
use crate::config::{MAX_POS, MAX_SPEED};

verus! {

/// One molecule of the gas: a point mass with a position and a
/// velocity. Positions are in milli-units, velocities in milli-units
/// per second. Identity is the index in the particle store.
#[derive(Clone, Copy, Debug, PartialEq, Eq, Structural)]
pub struct Particle {
    pub px: i64,
    pub py: i64,
    pub vx: i64,
    pub vy: i64,
}

impl Particle {
    /// Bounds under which every arithmetic step of the simulation fits
    /// in `i64`: positions within the saturation range, velocity
    /// components within `MAX_SPEED`.
    pub open spec fn wf(self) -> bool {
        &&& -MAX_POS <= self.px <= MAX_POS
        &&& -MAX_POS <= self.py <= MAX_POS
        &&& -MAX_SPEED <= self.vx <= MAX_SPEED
        &&& -MAX_SPEED <= self.vy <= MAX_SPEED
    }
}

/// Every particle of the store is well formed.
pub open spec fn wf_seq(s: Seq<Particle>) -> bool {
    forall|i: int| 0 <= i < s.len() ==> (#[trigger] s[i]).wf()
}

} // verus!
