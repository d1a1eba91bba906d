//! The beat timeline: a linear map from ghost time to beats.
use vstd::prelude::*;
use vstd::arithmetic::div_mod::{lemma_div_is_ordered, lemma_fundamental_div_mod, lemma_fundamental_div_mod_converse};

verus! {

/// Milli-beats per minute times microseconds, divided by this, gives micro-beats.
pub const RATE_DENOM: u64 = 60_000;

/// The largest tempo accepted, in milli-beats per minute.
pub const MAX_TEMPO: u64 = 1_000_000_000;

/// One micro-beat per beat.
pub const MICROS_PER_BEAT: i64 = 1_000_000;

/// The logical stamp of an edit: a Lamport counter and the identity of its editor.
#[derive(Clone, Copy, Debug, PartialEq, Eq, Structural)]
pub struct EditTag {
    pub timestamp: u64,
    pub editor: u64,
}

/// The mathematical content of a timeline segment.
pub struct Line {
    pub tempo: int,
    pub beat_origin: int,
    pub time_origin: int,
}

impl Line {
    /// The beat (in micro-beats) at ghost time `t`, rounded down.
    pub open spec fn beat_at(self, t: int) -> int {
        self.beat_origin + (self.tempo * (t - self.time_origin)) / (RATE_DENOM as int)
    }

    /// The segment that a tempo change at `at` starts: same beat at `at`, new tempo.
    pub open spec fn with_tempo(self, tempo: int, at: int) -> Line {
        Line { tempo, beat_origin: self.beat_at(at), time_origin: at }
    }

    /// The segment that maps `beat` to `at` at an unchanged tempo.
    pub open spec fn with_beat_at(self, beat: int, at: int) -> Line {
        Line { tempo: self.tempo, beat_origin: beat, time_origin: at }
    }

    /// The earliest ghost time at which the beat reaches `beat`.
    pub open spec fn time_at(self, beat: int) -> int {
        self.time_origin + ceil_div((beat - self.beat_origin) * (RATE_DENOM as int), self.tempo)
    }
}

/// `a / k` rounded up, for `k > 0`.
pub open spec fn ceil_div(a: int, k: int) -> int {
    (a + k - 1) / k
}

/// A timeline segment: tempo, a beat origin at a time origin, and the edit that made it.
#[derive(Clone, Copy, Debug, PartialEq, Eq, Structural)]
pub struct TimelineSegment {
    /// Milli-beats per minute.
    pub tempo: u64,
    /// Micro-beats at `time_origin`.
    pub beat_origin: i64,
    /// Ghost time in microseconds.
    pub time_origin: i64,
    pub tag: EditTag,
}

impl TimelineSegment {
    pub open spec fn view(self) -> Line {
        Line { tempo: self.tempo as int, beat_origin: self.beat_origin as int, time_origin: self.time_origin as int }
    }

    /// The tempo is positive and bounded.
    pub open spec fn wf(self) -> bool {
        0 < self.tempo <= MAX_TEMPO
    }

    /// The beat at `t` fits the beat type.
    pub open spec fn beat_fits(self, t: int) -> bool {
        i64::MIN <= self@.beat_at(t) <= i64::MAX
    }

    /// A segment that starts at `time_origin` with beat 0 at `tempo`.
    pub fn new(tempo: u64, time_origin: i64, tag: EditTag) -> (r: TimelineSegment)
        requires
            0 < tempo <= MAX_TEMPO,
        ensures
            r.wf(),
            r@ == (Line { tempo: tempo as int, beat_origin: 0, time_origin: time_origin as int }),
            r.tag == tag,
    {
        TimelineSegment { tempo, beat_origin: 0, time_origin, tag }
    }

    /// The tempo in milli-beats per minute.
    pub fn tempo(&self) -> (r: u64)
        ensures
            r == self.tempo,
    {
        self.tempo
    }

    /// The beat in micro-beats at ghost time `t`, rounded down.
    pub fn beat_at_time(&self, t: i64) -> (r: i64)
        requires
            self.wf(),
            self.beat_fits(t as int),
        ensures
            r == self@.beat_at(t as int),
    {
        let n: i128 = (self.tempo as i128) * ((t as i128) - (self.time_origin as i128));
        proof {
            let dt = t as int - self.time_origin as int;
            assert(-0x1_0000_0000_0000_0000 < dt < 0x1_0000_0000_0000_0000);
            assert(-0x100_0000_0000_0000_0000_0000_0000 < n < 0x100_0000_0000_0000_0000_0000_0000) by (nonlinear_arith)
                requires
                    n == self.tempo * dt,
                    0 < self.tempo <= MAX_TEMPO,
                    -0x1_0000_0000_0000_0000 < dt < 0x1_0000_0000_0000_0000,
            ;
        }
        let q = floor_div(n, RATE_DENOM as i128);
        (self.beat_origin as i128 + q) as i64
    }

    /// The earliest ghost time at which the beat reaches `beat` (micro-beats).
    pub fn time_at_beat(&self, beat: i64) -> (r: i64)
        requires
            self.wf(),
            i64::MIN <= self@.time_at(beat as int) <= i64::MAX,
        ensures
            r == self@.time_at(beat as int),
    {
        self.time_at_wide_beat(beat as i128)
    }

    pub(crate) fn time_at_wide_beat(&self, beat: i128) -> (r: i64)
        requires
            self.wf(),
            -0x1_0000_0000_0000_0000_0000 < beat < 0x1_0000_0000_0000_0000_0000,
            i64::MIN <= self@.time_at(beat as int) <= i64::MAX,
        ensures
            r == self@.time_at(beat as int),
    {
        let a: i128 = (beat - (self.beat_origin as i128)) * (RATE_DENOM as i128);
        let k: i128 = self.tempo as i128;
        let c = floor_div(a + k - 1, k);
        (self.time_origin as i128 + c) as i64
    }

    /// A new segment at `tempo` from `at` on, whose beat at `at` is this one's.
    pub fn set_tempo(&self, tempo: u64, at: i64, tag: EditTag) -> (r: TimelineSegment)
        requires
            self.wf(),
            0 < tempo <= MAX_TEMPO,
            self.beat_fits(at as int),
        ensures
            r.wf(),
            r@ == self@.with_tempo(tempo as int, at as int),
            r.tag == tag,
    {
        let b = self.beat_at_time(at);
        TimelineSegment { tempo, beat_origin: b, time_origin: at, tag }
    }

    /// A new segment at this tempo that maps `beat` (micro-beats) to `at`.
    pub fn with_beat_at_time(&self, beat: i64, at: i64, tag: EditTag) -> (r: TimelineSegment)
        requires
            self.wf(),
        ensures
            r.wf(),
            r@ == self@.with_beat_at(beat as int, at as int),
            r.tag == tag,
    {
        TimelineSegment { tempo: self.tempo, beat_origin: beat, time_origin: at, tag }
    }
}

/// The timeline after a sequence of tempo edits, each a new tempo and the ghost time
/// at which it takes effect, applied in order.
pub open spec fn apply_tempo_edits(l: Line, edits: Seq<(int, int)>) -> Line
    decreases edits.len(),
{
    if edits.len() == 0 {
        l
    } else {
        apply_tempo_edits(l, edits.drop_last()).with_tempo(edits.last().0, edits.last().1)
    }
}

/// Whatever tempo edits are applied, the beat at each edit's time origin is the
/// same before and after that edit: a tempo change never makes the beat jump.
pub proof fn lemma_tempo_edits_continuous(l: Line, edits: Seq<(int, int)>, i: int)
    requires
        0 <= i < edits.len(),
    ensures
        apply_tempo_edits(l, edits.take(i + 1)).time_origin == edits[i].1,
        apply_tempo_edits(l, edits.take(i + 1)).beat_at(edits[i].1) == apply_tempo_edits(
            l,
            edits.take(i),
        ).beat_at(edits[i].1),
{
    assert(edits.take(i + 1).drop_last() =~= edits.take(i));
    assert(edits.take(i + 1).last() == edits[i]);
    let before = apply_tempo_edits(l, edits.take(i));
    let after = before.with_tempo(edits[i].0, edits[i].1);
    assert(after.tempo * (edits[i].1 - after.time_origin) == 0);
}

/// The beat never decreases as time advances.
pub proof fn lemma_beat_monotone(l: Line, t1: int, t2: int)
    requires
        l.tempo > 0,
        t1 <= t2,
    ensures
        l.beat_at(t1) <= l.beat_at(t2),
{
    assert(l.tempo * (t1 - l.time_origin) <= l.tempo * (t2 - l.time_origin)) by (nonlinear_arith)
        requires
            l.tempo > 0,
            t1 <= t2,
    ;
    lemma_div_is_ordered(l.tempo * (t1 - l.time_origin), l.tempo * (t2 - l.time_origin), RATE_DENOM as int);
}

/// `time_at(b)` is the first instant at which the beat reaches `b`.
pub proof fn lemma_time_at(l: Line, b: int)
    requires
        l.tempo > 0,
    ensures
        l.beat_at(l.time_at(b)) >= b,
        l.beat_at(l.time_at(b) - 1) < b,
{
    let dd = RATE_DENOM as int;
    let k = l.tempo;
    let a = (b - l.beat_origin) * dd;
    let c = ceil_div(a, k);
    let r = (a + k - 1) % k;
    lemma_fundamental_div_mod(a + k - 1, k);
    assert(k * c >= a && k * (c - 1) <= a - 1) by (nonlinear_arith)
        requires
            a + k - 1 == k * c + r,
            0 <= r < k,
    ;
    lemma_fundamental_div_mod_converse(a, dd, b - l.beat_origin, 0);
    lemma_fundamental_div_mod_converse(a - 1, dd, b - l.beat_origin - 1, dd - 1);
    lemma_div_is_ordered(a, k * c, dd);
    lemma_div_is_ordered(k * (c - 1), a - 1, dd);
    assert(l.time_at(b) - l.time_origin == c);
}

/// The least multiple of `q` that is at least `b`.
pub open spec fn grid_beat(b: int, q: int) -> int {
    ceil_div(b, q) * q
}

/// `grid_beat(b, q)` is a multiple of `q` in `[b, b + q)`.
pub proof fn lemma_grid_beat(b: int, q: int)
    requires
        q > 0,
    ensures
        grid_beat(b, q) % q == 0,
        b <= grid_beat(b, q) < b + q,
{
    let c = ceil_div(b, q);
    let r = (b + q - 1) % q;
    lemma_fundamental_div_mod(b + q - 1, q);
    assert(b <= c * q < b + q) by (nonlinear_arith)
        requires
            b + q - 1 == q * c + r,
            0 <= r < q,
    ;
    lemma_fundamental_div_mod_converse(c * q, q, c, 0);
}

/// Division rounded toward negative infinity, as `/` on `int` is.
pub(crate) fn floor_div(n: i128, d: i128) -> (r: i128)
    requires
        0 < d <= 0x1_0000_0000_0000_0000,
        -0x1000_0000_0000_0000_0000_0000_0000_0000 < n < 0x1000_0000_0000_0000_0000_0000_0000_0000,
    ensures
        r == n as int / d as int,
        -0x1000_0000_0000_0000_0000_0000_0000_0000 < r < 0x1000_0000_0000_0000_0000_0000_0000_0000,
{
    if n >= 0 {
        let q = n / d;
        proof {
            lemma_div_is_ordered(0, n as int, d as int);
            lemma_fundamental_div_mod(n as int, d as int);
            let r = n as int % d as int;
            assert(q <= n) by (nonlinear_arith)
                requires
                    n as int == d as int * q as int + r,
                    r >= 0,
                    d >= 1,
                    q >= 0,
            ;
        }
        q
    } else {
        let m: i128 = -n;
        let x: i128 = m + (d - 1);
        let q: i128 = x / d;
        proof {
            let r = x as int % d as int;
            lemma_fundamental_div_mod(x as int, d as int);
            assert(n as int == (-q as int) * d as int + (d - 1 - r)) by (nonlinear_arith)
                requires
                    x as int == d as int * q as int + r,
                    n as int == -(x as int - d as int + 1),
            ;
            lemma_fundamental_div_mod_converse(n as int, d as int, -q as int, d - 1 - r);
            lemma_div_is_ordered(0, x as int, d as int);
            assert(q <= m) by (nonlinear_arith)
                requires
                    x as int == d as int * q as int + r,
                    x as int == m as int + d as int - 1,
                    0 <= r,
                    d >= 1,
                    q >= 0,
                    m >= 1,
            ;
        }
        -q
    }
}

} // verus!
