use vstd::prelude::*;
use crate::boundary::WindowSize;
use crate::config::{MAX_EXTENT, MAX_FRAME_MILLIS};
use crate::timer::Timer;

verus! {

/// The wall-hit counter: hits recorded since the last stats report.
#[derive(Clone, Copy, Debug, PartialEq, Eq, Structural)]
pub struct Stats {
    pub nb_hits: u64,
}

/// The reported metric: the hit count times the container area (a
/// diagnostic, not a normalized physical quantity).
pub open spec fn stats_metric(nb_hits: int, width: int, height: int) -> int {
    nb_hits * width * height
}

/// `stats_metric`, executably; fits `u128` because extents are bounded
/// by `MAX_EXTENT`.
pub fn compute_metric(nb_hits: u64, width: u64, height: u64) -> (m: u128)
    requires
        width <= MAX_EXTENT,
        height <= MAX_EXTENT,
    ensures
        m == stats_metric(nb_hits as int, width as int, height as int),
{
    proof {
        assert(nb_hits * width <= u64::MAX * MAX_EXTENT) by (nonlinear_arith)
            requires 0 <= nb_hits <= u64::MAX, 0 <= width <= MAX_EXTENT;
        assert(nb_hits * width * height <= u64::MAX * MAX_EXTENT * MAX_EXTENT)
            by (nonlinear_arith)
            requires 0 <= nb_hits * width <= u64::MAX * MAX_EXTENT, 0 <= height <= MAX_EXTENT;
    }
    (nb_hits as u128) * (width as u128) * (height as u128)
}

/// One frame of the stats aggregator: advance the stats timer by `dt`;
/// when it fires, report the metric computed from the current counter
/// and container, and reset the counter to zero.
pub fn stats_step(
    timer: &mut Timer,
    stats: &mut Stats,
    window: &WindowSize,
    dt: u64,
) -> (report: Option<u128>)
    requires
        old(timer).wf(),
        window.wf(),
        dt <= MAX_FRAME_MILLIS,
    ensures
        final(timer).wf(),
        *final(timer) == old(timer).after_tick(dt as int),
        old(timer).fires(dt as int) ==> {
            &&& report == Some(
                stats_metric(old(stats).nb_hits as int, window.x as int, window.y as int) as u128,
            )
            &&& final(stats).nb_hits == 0
        },
        !old(timer).fires(dt as int) ==> report is None && *final(stats) == *old(stats),
{
    match timer.tick(dt) {
        Some(_) => {
            let metric = compute_metric(stats.nb_hits, window.x, window.y);
            stats.nb_hits = 0;
            Some(metric)
        },
        None => None,
    }
}

} // verus!
