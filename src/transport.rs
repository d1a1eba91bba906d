//! The start/stop state and its alignment to the beat grid.
use vstd::prelude::*;
use crate::timeline::{EditTag, TimelineSegment, grid_beat, lemma_grid_beat, lemma_time_at, lemma_beat_monotone, floor_div};

verus! {

/// Whether the transport plays, from which ghost time, and the edit that set it.
#[derive(Clone, Copy, Debug, PartialEq, Eq, Structural)]
pub struct TransportState {
    pub is_playing: bool,
    /// Ghost time in microseconds.
    pub transition_time: i64,
    pub tag: EditTag,
}

/// The start time for a play request at `at`: the first instant, not before `at`,
/// at which the beat reaches the next multiple of `quantum`.
pub open spec fn start_time(seg: TimelineSegment, at: int, quantum: int) -> int {
    let t = seg@.time_at(grid_beat(seg@.beat_at(at), quantum));
    if t < at { at } else { t }
}

/// Bounds under which a start time can be computed without overflow.
pub open spec fn start_fits(seg: TimelineSegment, at: int, quantum: int) -> bool {
    &&& seg.wf()
    &&& 0 < quantum <= i64::MAX
    &&& seg.beat_fits(at)
    &&& i64::MIN <= seg@.time_at(grid_beat(seg@.beat_at(at), quantum)) <= i64::MAX
}

/// The start time of a play request at `at` on a `quantum` grid (micro-beats).
pub fn aligned_start(seg: &TimelineSegment, at: i64, quantum: i64) -> (r: i64)
    requires
        start_fits(*seg, at as int, quantum as int),
    ensures
        r == start_time(*seg, at as int, quantum as int),
        r >= at,
        grid_beat(seg@.beat_at(at as int), quantum as int) % (quantum as int) == 0,
        seg@.beat_at(r as int) >= grid_beat(seg@.beat_at(at as int), quantum as int),
        forall|t: int|
            at <= t < r ==> #[trigger] seg@.beat_at(t) < grid_beat(seg@.beat_at(at as int), quantum as int),
{
    let b = seg.beat_at_time(at);
    let bw: i128 = b as i128;
    let q: i128 = quantum as i128;
    let c = floor_div(bw + q - 1, q);
    proof {
        lemma_grid_beat(b as int, q as int);
        let g = grid_beat(b as int, q as int);
        lemma_time_at(seg@, g);
        if seg@.time_at(g) < at {
            lemma_beat_monotone(seg@, seg@.time_at(g), at as int);
        }
        assert forall|t: int| at <= t < start_time(*seg, at as int, quantum as int) implies #[trigger] seg@.beat_at(t) < g by {
            lemma_beat_monotone(seg@, t, seg@.time_at(g) - 1);
        }
    }
    let g: i128 = c * q;
    let t = seg.time_at_wide_beat(g);
    if t < at { at } else { t }
}

} // verus!
