use vstd::prelude::*;
use crate::config::{MAX_COLLISION_DISTANCE, MAX_POS, MAX_SPEED};
use crate::particle::{wf_seq, Particle};

verus! {

/// Whether two particles are strictly closer than `d`: the squared
/// Euclidean distance of their positions is below `d` squared.
pub open spec fn collides(a: Particle, b: Particle, d: int) -> bool {
    let dx = a.px - b.px;
    let dy = a.py - b.py;
    dx * dx + dy * dy < d * d
}

/// The first particle of a colliding pair after resolution: it takes
/// the other's pre-resolution velocity, negated. The position stays.
pub open spec fn swapped_velocity(a: Particle, b: Particle) -> Particle {
    Particle { px: a.px, py: a.py, vx: (-(b.vx as int)) as i64, vy: (-(b.vy as int)) as i64 }
}

/// The store after the resolver has visited the pair `(i, j)`: if the
/// two are strictly closer than `d`, each takes the other's
/// pre-resolution velocity negated; otherwise nothing changes.
pub open spec fn resolve_one(s: Seq<Particle>, i: int, j: int, d: int) -> Seq<Particle> {
    if collides(s[i], s[j], d) {
        s.update(i, swapped_velocity(s[i], s[j])).update(j, swapped_velocity(s[j], s[i]))
    } else {
        s
    }
}

/// The store after the resolver has visited the pairs `(i, i+1)`
/// through `(i, j-1)`, in that order.
pub open spec fn resolve_row(s: Seq<Particle>, i: int, j: int, d: int) -> Seq<Particle>
    decreases j - i,
{
    if j - i <= 1 {
        s
    } else {
        resolve_one(resolve_row(s, i, j - 1, d), i, j - 1, d)
    }
}

/// The store after the resolver has visited every pair whose first
/// index is below `i`, rows in order, each row in order.
pub open spec fn resolve_upto(s: Seq<Particle>, n: int, i: int, d: int) -> Seq<Particle>
    decreases i,
{
    if i <= 0 {
        s
    } else {
        resolve_row(resolve_upto(s, n, i - 1, d), i - 1, n, d)
    }
}

/// The store after one full pass of the collision resolver: every
/// unordered pair of distinct particles visited exactly once.
pub open spec fn resolve_all(s: Seq<Particle>, d: int) -> Seq<Particle> {
    resolve_upto(s, s.len() as int, s.len() as int, d)
}

/// Visiting one pair keeps the store's length, every position, and
/// well-formedness.
pub proof fn lemma_resolve_one_props(s: Seq<Particle>, i: int, j: int, d: int)
    requires
        0 <= i < s.len(),
        0 <= j < s.len(),
    ensures
        resolve_one(s, i, j, d).len() == s.len(),
        forall|k: int| 0 <= k < s.len()
            ==> (#[trigger] resolve_one(s, i, j, d)[k]).px == s[k].px
                && resolve_one(s, i, j, d)[k].py == s[k].py,
        wf_seq(s) ==> wf_seq(resolve_one(s, i, j, d)),
{
}

/// One row of the resolver keeps the store's length, every position,
/// and well-formedness.
pub proof fn lemma_resolve_row_props(s: Seq<Particle>, i: int, j: int, d: int)
    requires
        0 <= i < s.len(),
        j <= s.len(),
    ensures
        resolve_row(s, i, j, d).len() == s.len(),
        forall|k: int| 0 <= k < s.len()
            ==> (#[trigger] resolve_row(s, i, j, d)[k]).px == s[k].px
                && resolve_row(s, i, j, d)[k].py == s[k].py,
        wf_seq(s) ==> wf_seq(resolve_row(s, i, j, d)),
    decreases j - i,
{
    if j - i <= 1 {
    } else {
        lemma_resolve_row_props(s, i, j - 1, d);
        lemma_resolve_one_props(resolve_row(s, i, j - 1, d), i, j - 1, d);
    }
}

/// A full prefix of rows keeps the store's length, every position, and
/// well-formedness.
pub proof fn lemma_resolve_upto_props(s: Seq<Particle>, n: int, i: int, d: int)
    requires
        n == s.len(),
        i <= n,
    ensures
        resolve_upto(s, n, i, d).len() == s.len(),
        forall|k: int| 0 <= k < s.len()
            ==> (#[trigger] resolve_upto(s, n, i, d)[k]).px == s[k].px
                && resolve_upto(s, n, i, d)[k].py == s[k].py,
        wf_seq(s) ==> wf_seq(resolve_upto(s, n, i, d)),
    decreases i,
{
    if i <= 0 {
    } else {
        lemma_resolve_upto_props(s, n, i - 1, d);
        lemma_resolve_row_props(resolve_upto(s, n, i - 1, d), i - 1, n, d);
    }
}

/// One full pass of the resolver keeps the store's length, every
/// position, and well-formedness: only velocities are exchanged.
pub proof fn lemma_resolve_all_props(s: Seq<Particle>, d: int)
    ensures
        resolve_all(s, d).len() == s.len(),
        forall|k: int| 0 <= k < s.len()
            ==> (#[trigger] resolve_all(s, d)[k]).px == s[k].px
                && resolve_all(s, d)[k].py == s[k].py,
        wf_seq(s) ==> wf_seq(resolve_all(s, d)),
{
    lemma_resolve_upto_props(s, s.len() as int, s.len() as int, d);
}

/// Pairwise swap symmetry: when the pair `(i, j)` is strictly closer
/// than `d`, resolution gives `i` the pre-resolution velocity of `j`
/// negated and `j` the pre-resolution velocity of `i` negated, moves
/// neither, and touches no other particle.
pub proof fn lemma_pairwise_swap(s: Seq<Particle>, i: int, j: int, d: int)
    requires
        0 <= i < s.len(),
        0 <= j < s.len(),
        i != j,
        collides(s[i], s[j], d),
    ensures
        resolve_one(s, i, j, d)[i] == swapped_velocity(s[i], s[j]),
        resolve_one(s, i, j, d)[j] == swapped_velocity(s[j], s[i]),
        forall|k: int| 0 <= k < s.len() && k != i && k != j
            ==> #[trigger] resolve_one(s, i, j, d)[k] == s[k],
{
}

/// No-op below threshold: a pair at distance `d` or more is left
/// exactly as it was by the resolver's visit.
pub proof fn lemma_pair_noop(s: Seq<Particle>, i: int, j: int, d: int)
    requires
        !collides(s[i], s[j], d),
    ensures
        resolve_one(s, i, j, d) == s,
{
}

/// Whether two particles collide depends on their positions alone, so
/// it is symmetric in the pair.
pub proof fn lemma_collides_symmetric(a: Particle, b: Particle, d: int)
    ensures
        collides(a, b, d) == collides(b, a, d),
{
    assert((a.px - b.px) * (a.px - b.px) == (b.px - a.px) * (b.px - a.px)) by (nonlinear_arith);
    assert((a.py - b.py) * (a.py - b.py) == (b.py - a.py) * (b.py - a.py)) by (nonlinear_arith);
}

/// Separation from every other particle survives any step that keeps
/// positions and the particle itself: collision reads positions only.
proof fn lemma_separation_preserved(t: Seq<Particle>, r: Seq<Particle>, d: int, k: int)
    requires
        0 <= k < t.len(),
        r.len() == t.len(),
        forall|m: int| 0 <= m < t.len()
            ==> (#[trigger] r[m]).px == t[m].px && r[m].py == t[m].py,
        forall|m: int| 0 <= m < t.len() && m != k ==> !collides(t[k], #[trigger] t[m], d),
    ensures
        forall|m: int| 0 <= m < r.len() && m != k ==> !collides(r[k], #[trigger] r[m], d),
{
    assert forall|m: int| 0 <= m < r.len() && m != k implies !collides(r[k], r[m], d) by {
        assert(!collides(t[k], t[m], d));
    }
}

/// One row leaves a particle alone when it is separated from every
/// other particle.
proof fn lemma_row_untouched(t: Seq<Particle>, i: int, j: int, d: int, k: int)
    requires
        0 <= i < t.len(),
        j <= t.len(),
        0 <= k < t.len(),
        forall|m: int| 0 <= m < t.len() && m != k ==> !collides(t[k], #[trigger] t[m], d),
    ensures
        resolve_row(t, i, j, d)[k] == t[k],
    decreases j - i,
{
    if j - i <= 1 {
    } else {
        lemma_row_untouched(t, i, j - 1, d, k);
        let t1 = resolve_row(t, i, j - 1, d);
        lemma_resolve_row_props(t, i, j - 1, d);
        lemma_separation_preserved(t, t1, d, k);
        if i == k {
            assert(!collides(t1[i], t1[j - 1], d));
        } else if j - 1 == k {
            lemma_collides_symmetric(t1[i], t1[k], d);
            assert(!collides(t1[i], t1[j - 1], d));
        }
    }
}

/// A prefix of rows leaves a separated particle alone.
proof fn lemma_upto_untouched(s: Seq<Particle>, n: int, i: int, d: int, k: int)
    requires
        n == s.len(),
        i <= n,
        0 <= k < n,
        forall|m: int| 0 <= m < s.len() && m != k ==> !collides(s[k], #[trigger] s[m], d),
    ensures
        resolve_upto(s, n, i, d)[k] == s[k],
    decreases i,
{
    if i <= 0 {
    } else {
        lemma_upto_untouched(s, n, i - 1, d, k);
        let u = resolve_upto(s, n, i - 1, d);
        lemma_resolve_upto_props(s, n, i - 1, d);
        lemma_separation_preserved(s, u, d, k);
        lemma_row_untouched(u, i - 1, n, d, k);
    }
}

/// No-op below threshold, per particle: a particle at distance `d` or
/// more from every other particle leaves a full pass of the collision
/// resolver exactly as it entered it.
pub proof fn lemma_separated_particle_untouched(s: Seq<Particle>, k: int, d: int)
    requires
        0 <= k < s.len(),
        forall|m: int| 0 <= m < s.len() && m != k ==> !collides(s[k], #[trigger] s[m], d),
    ensures
        resolve_all(s, d)[k] == s[k],
{
    lemma_upto_untouched(s, s.len() as int, s.len() as int, d, k);
}

/// No-op below threshold, over the whole store: when every pair of
/// distinct particles is at distance `d` or more, a full pass of the
/// collision resolver mutates nothing.
pub proof fn lemma_resolver_noop(s: Seq<Particle>, d: int)
    requires
        forall|a: int, b: int| 0 <= a < b < s.len()
            ==> !collides(#[trigger] s[a], #[trigger] s[b], d),
    ensures
        resolve_all(s, d) == s,
{
    assert forall|k: int| 0 <= k < s.len() implies resolve_all(s, d)[k] == s[k] by {
        assert forall|m: int| 0 <= m < s.len() && m != k implies !collides(s[k], s[m], d) by {
            if k < m {
                assert(!collides(s[k], s[m], d));
            } else {
                assert(!collides(s[m], s[k], d));
                lemma_collides_symmetric(s[m], s[k], d);
            }
        }
        lemma_separated_particle_untouched(s, k, d);
    }
    lemma_resolve_all_props(s, d);
    assert(resolve_all(s, d) =~= s);
}

/// Whether two particles are strictly closer than `d`, executably.
pub fn check_collision(a: &Particle, b: &Particle, d: i64) -> (r: bool)
    requires
        a.wf(),
        b.wf(),
        0 <= d <= MAX_COLLISION_DISTANCE,
    ensures
        r == collides(*a, *b, d as int),
{
    let dx = a.px - b.px;
    let dy = a.py - b.py;
    if dx < d && -d < dx && dy < d && -d < dy {
        proof {
            assert(dx * dx <= MAX_COLLISION_DISTANCE * MAX_COLLISION_DISTANCE
                && dx * dx >= 0) by (nonlinear_arith)
                requires -MAX_COLLISION_DISTANCE <= dx <= MAX_COLLISION_DISTANCE;
            assert(dy * dy <= MAX_COLLISION_DISTANCE * MAX_COLLISION_DISTANCE
                && dy * dy >= 0) by (nonlinear_arith)
                requires -MAX_COLLISION_DISTANCE <= dy <= MAX_COLLISION_DISTANCE;
            assert(d * d <= MAX_COLLISION_DISTANCE * MAX_COLLISION_DISTANCE
                && d * d >= 0) by (nonlinear_arith)
                requires 0 <= d <= MAX_COLLISION_DISTANCE;
        }
        dx * dx + dy * dy < d * d
    } else {
        proof {
            assert((dx >= d || dx <= -d || dy >= d || dy <= -d) && d >= 0
                ==> dx * dx + dy * dy >= d * d) by (nonlinear_arith);
        }
        false
    }
}

/// One full pass of the collision resolver: every unordered pair of
/// distinct particles is visited exactly once, in order; a pair
/// strictly closer than `d` exchanges negated velocities, using the
/// values each holds when the pair is visited.
pub fn collide_all(particles: &mut Vec<Particle>, d: i64)
    requires
        wf_seq(old(particles)@),
        0 <= d <= MAX_COLLISION_DISTANCE,
    ensures
        final(particles)@ == resolve_all(old(particles)@, d as int),
        wf_seq(final(particles)@),
        final(particles)@.len() == old(particles)@.len(),
        forall|k: int| 0 <= k < old(particles)@.len()
            ==> (#[trigger] final(particles)@[k]).px == old(particles)@[k].px
                && final(particles)@[k].py == old(particles)@[k].py,
{
    let ghost s0 = particles@;
    let ghost dd = d as int;
    let n = particles.len();
    let mut i: usize = 0;
    while i < n
        invariant
            i <= n,
            n == s0.len(),
            particles@.len() == n,
            wf_seq(particles@),
            0 <= d <= MAX_COLLISION_DISTANCE,
            particles@ == resolve_upto(s0, n as int, i as int, dd),
            dd == d as int,
        decreases n - i,
    {
        let ghost base = particles@;
        let mut j: usize = i + 1;
        while j < n
            invariant
                i < j <= n,
                i < n,
                n == s0.len(),
                particles@.len() == n,
                wf_seq(particles@),
                0 <= d <= MAX_COLLISION_DISTANCE,
                particles@ == resolve_row(base, i as int, j as int, dd),
                base == resolve_upto(s0, n as int, i as int, dd),
                base.len() == n,
                dd == d as int,
            decreases n - j,
        {
            let a = particles[i];
            let b = particles[j];
            if check_collision(&a, &b, d) {
                particles[i] = Particle { px: a.px, py: a.py, vx: -b.vx, vy: -b.vy };
                particles[j] = Particle { px: b.px, py: b.py, vx: -a.vx, vy: -a.vy };
            }
            proof {
                assert(particles@ == resolve_one(resolve_row(base, i as int, j as int, dd),
                    i as int, j as int, dd));
                assert(resolve_row(base, i as int, j + 1, dd)
                    == resolve_one(resolve_row(base, i as int, j as int, dd), i as int, j as int, dd));
            }
            j = j + 1;
        }
        proof {
            assert(resolve_upto(s0, n as int, i + 1, dd)
                == resolve_row(resolve_upto(s0, n as int, i as int, dd), i as int, n as int, dd));
        }
        i = i + 1;
    }
    proof {
        lemma_resolve_all_props(s0, dd);
    }
}

} // verus!
