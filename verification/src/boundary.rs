use vstd::prelude::*;
use crate::config::{DEFAULT_HEIGHT, DEFAULT_WIDTH, MAX_EXTENT, MAX_POS};
use crate::particle::Particle;

verus! {

/// The container: current window width and height in milli-units.
/// The walls stand at the half-extents `±x/2` and `±y/2`.
#[derive(Clone, Copy, Debug, PartialEq, Eq, Structural)]
pub struct WindowSize {
    pub x: u64,
    pub y: u64,
}

impl WindowSize {
    /// A degenerate container (zero-sized) is rejected at
    /// construction; an oversized one would overflow the stats metric.
    pub open spec fn wf(self) -> bool {
        &&& 0 < self.x <= MAX_EXTENT
        &&& 0 < self.y <= MAX_EXTENT
    }
}

impl Default for WindowSize {
    fn default() -> (w: Self)
        ensures
            w.x == DEFAULT_WIDTH,
            w.y == DEFAULT_HEIGHT,
            w.wf(),
    {
        WindowSize { x: DEFAULT_WIDTH, y: DEFAULT_HEIGHT }
    }
}

/// Half of a container extent: the distance from the centre to a wall.
pub open spec fn half_of(extent: int) -> int {
    extent / 2
}

/// Half of an extent, as a wall coordinate. Fits `i64` because the
/// extent is bounded by `MAX_EXTENT`.
pub fn half_extent(extent: u64) -> (h: i64)
    requires
        extent <= MAX_EXTENT,
    ensures
        h == half_of(extent as int),
        0 <= h <= MAX_POS,
{
    proof {
        assert(extent as int / 2 <= MAX_EXTENT as int / 2 && extent as int / 2 >= 0)
            by (nonlinear_arith)
            requires extent <= MAX_EXTENT;
    }
    (extent / 2) as i64
}

/// A value forced into `[lo, hi]`.
pub open spec fn clamp_i(v: int, lo: int, hi: int) -> int {
    if v < lo {
        lo
    } else if v > hi {
        hi
    } else {
        v
    }
}

/// Force `v` into `[lo, hi]`.
pub fn clamp_i64(v: i64, lo: i64, hi: i64) -> (r: i64)
    requires
        lo <= hi,
    ensures
        r == clamp_i(v as int, lo as int, hi as int),
{
    if v < lo {
        lo
    } else if v > hi {
        hi
    } else {
        v
    }
}

/// A particle with its position forced back into the container's
/// half-extents; the velocity is untouched and no hit is recorded.
pub open spec fn clamp_particle(p: Particle, width: int, height: int) -> Particle {
    Particle {
        px: clamp_i(p.px as int, -half_of(width), half_of(width)) as i64,
        py: clamp_i(p.py as int, -half_of(height), half_of(height)) as i64,
        vx: p.vx,
        vy: p.vy,
    }
}

/// The whole store clamped into the container.
pub open spec fn clamped_seq(s: Seq<Particle>, width: int, height: int) -> Seq<Particle> {
    s.map_values(|p: Particle| clamp_particle(p, width, height))
}

/// Clamping is idempotent, and a value already inside `[lo, hi]` is
/// left as it is.
pub proof fn lemma_clamp_idempotent(v: int, lo: int, hi: int)
    requires
        lo <= hi,
    ensures
        clamp_i(clamp_i(v, lo, hi), lo, hi) == clamp_i(v, lo, hi),
        lo <= v <= hi ==> clamp_i(v, lo, hi) == v,
{
}

/// Clamping a particle into a container is idempotent: a position
/// already inside `[-w/2, w/2] × [-h/2, h/2]` is not changed, and
/// clamping twice yields what clamping once does.
pub proof fn lemma_clamp_particle_idempotent(p: Particle, width: int, height: int)
    requires
        0 <= width <= MAX_EXTENT,
        0 <= height <= MAX_EXTENT,
    ensures
        clamp_particle(clamp_particle(p, width, height), width, height)
            == clamp_particle(p, width, height),
        -half_of(width) <= p.px <= half_of(width) && -half_of(height) <= p.py <= half_of(height)
            ==> clamp_particle(p, width, height) == p,
{
    assert(0 <= half_of(width) <= MAX_EXTENT as int / 2) by (nonlinear_arith)
        requires 0 <= width <= MAX_EXTENT;
    assert(0 <= half_of(height) <= MAX_EXTENT as int / 2) by (nonlinear_arith)
        requires 0 <= height <= MAX_EXTENT;
}

} // verus!
