//! The caller-visible snapshot of the session: timeline and transport.
use vstd::prelude::*;
use crate::timeline::{EditTag, Line, TimelineSegment, MAX_TEMPO, floor_div};
use crate::transport::{TransportState, aligned_start, start_fits, start_time};

verus! {

/// A snapshot of the session: the current timeline and, when start/stop
/// synchronization is on, the transport.
#[derive(Clone, Copy, Debug, PartialEq, Eq, Structural)]
pub struct SessionState {
    pub timeline: TimelineSegment,
    pub transport: Option<TransportState>,
}

impl SessionState {
    pub open spec fn wf(self) -> bool {
        self.timeline.wf()
    }

    /// A session at `tempo` whose beat 0 falls at `time_origin`, stopped, with no transport.
    pub fn new(tempo: u64, time_origin: i64) -> (r: SessionState)
        requires
            0 < tempo <= MAX_TEMPO,
        ensures
            r.wf(),
            r.timeline@ == (Line { tempo: tempo as int, beat_origin: 0, time_origin: time_origin as int }),
            r.timeline.tag == (EditTag { timestamp: 0, editor: 0 }),
            r.transport.is_none(),
    {
        SessionState {
            timeline: TimelineSegment::new(tempo, time_origin, EditTag { timestamp: 0, editor: 0 }),
            transport: None,
        }
    }

    /// The tempo in milli-beats per minute.
    pub fn tempo(&self) -> (r: u64)
        ensures
            r == self.timeline.tempo,
    {
        self.timeline.tempo()
    }

    /// The beat in micro-beats at ghost time `t`.
    pub fn beat_at_time(&self, t: i64) -> (r: i64)
        requires
            self.wf(),
            self.timeline.beat_fits(t as int),
        ensures
            r == self.timeline@.beat_at(t as int),
    {
        self.timeline.beat_at_time(t)
    }

    /// The position within a `quantum` (micro-beats) of the beat at ghost time `t`.
    pub fn phase_at_time(&self, t: i64, quantum: i64) -> (r: i64)
        requires
            self.wf(),
            quantum > 0,
            self.timeline.beat_fits(t as int),
        ensures
            r == self.timeline@.beat_at(t as int) % (quantum as int),
            0 <= r < quantum,
    {
        let b = self.timeline.beat_at_time(t);
        let q = floor_div(b as i128, quantum as i128);
        proof {
            vstd::arithmetic::div_mod::lemma_fundamental_div_mod(b as int, quantum as int);
            vstd::arithmetic::div_mod::lemma_mod_bound(b as int, quantum as int);
        }
        (b as i128 - q * (quantum as i128)) as i64
    }

    /// The earliest ghost time at which the beat reaches `beat` (micro-beats).
    pub fn time_at_beat(&self, beat: i64) -> (r: i64)
        requires
            self.wf(),
            i64::MIN <= self.timeline@.time_at(beat as int) <= i64::MAX,
        ensures
            r == self.timeline@.time_at(beat as int),
    {
        self.timeline.time_at_beat(beat)
    }

    /// Whether the transport plays; `false` when there is none.
    pub fn is_playing(&self) -> (r: bool)
        ensures
            r == (self.transport matches Some(tr) && tr.is_playing),
    {
        match self.transport {
            Some(tr) => tr.is_playing,
            None => false,
        }
    }

    /// The ghost time at which the transport last started or stopped, if there is one.
    pub fn time_for_is_playing(&self) -> (r: Option<i64>)
        ensures
            r == (match self.transport {
                Some(tr) => Some(tr.transition_time),
                None => None::<i64>,
            }),
    {
        match self.transport {
            Some(tr) => Some(tr.transition_time),
            None => None,
        }
    }

    /// Changes the tempo from `time` on, keeping the beat at `time`.
    pub fn set_tempo(&mut self, tempo: u64, time: i64)
        requires
            old(self).wf(),
            0 < tempo <= MAX_TEMPO,
            old(self).timeline.beat_fits(time as int),
        ensures
            final(self).wf(),
            final(self).timeline@ == old(self).timeline@.with_tempo(tempo as int, time as int),
            final(self).timeline.tag == old(self).timeline.tag,
            final(self).transport == old(self).transport,
    {
        self.timeline = self.timeline.set_tempo(tempo, time, self.timeline.tag);
    }

    /// Maps `beat` (micro-beats) to ghost time `time`, keeping the tempo.
    pub fn request_beat_at_time(&mut self, beat: i64, time: i64)
        requires
            old(self).wf(),
        ensures
            final(self).wf(),
            final(self).timeline@ == old(self).timeline@.with_beat_at(beat as int, time as int),
            final(self).timeline.tag == old(self).timeline.tag,
            final(self).transport == old(self).transport,
    {
        self.timeline = self.timeline.with_beat_at_time(beat, time, self.timeline.tag);
    }

    /// Starts or stops the transport. A start takes effect at the first instant not
    /// before `time` at which the beat reaches a multiple of `quantum`; a stop takes
    /// effect at `time`.
    pub fn set_is_playing(&mut self, is_playing: bool, time: i64, quantum: i64)
        requires
            old(self).wf(),
            is_playing ==> start_fits(old(self).timeline, time as int, quantum as int),
        ensures
            final(self).timeline == old(self).timeline,
            final(self).transport matches Some(tr) && tr.is_playing == is_playing
                && tr.transition_time == (if is_playing {
                    start_time(old(self).timeline, time as int, quantum as int)
                } else {
                    time as int
                })
                && tr.tag == (match old(self).transport {
                    Some(o) => o.tag,
                    None => EditTag { timestamp: 0, editor: 0 },
                }),
    {
        let tag = match self.transport {
            Some(o) => o.tag,
            None => EditTag { timestamp: 0, editor: 0 },
        };
        let at = if is_playing { aligned_start(&self.timeline, time, quantum) } else { time };
        self.transport = Some(TransportState { is_playing, transition_time: at, tag });
    }
}

} // verus!
