//! The engine: local session state, peers, clock, and pending notifications.
//!
//! Network traffic and time reach the engine as arguments; what it decides is
//! returned or queued as events for the caller to deliver.
use vstd::prelude::*;
use crate::clock::{ClockDomain, Probe, all_fit, slew_step};
use crate::reconcile::{consistent, lemma_convergence, merge_timeline, merge_transport, merged_timeline, merged_transport, next_timestamp, observe_timestamp};
use crate::registry::{PeerRecord, PeerRegistry, has_id, live};
use crate::session_state::SessionState;
use crate::timeline::{EditTag, Line, TimelineSegment, MAX_TEMPO};
use crate::transport::TransportState;

verus! {

/// How long a peer may stay silent before it is dropped, in microseconds.
pub const PEER_TIMEOUT: i64 = 5_000_000;

/// A change to report to the caller's notification handlers.
#[derive(Clone, Copy, Debug, PartialEq, Eq, Structural)]
pub enum Event {
    PeerCount(u64),
    Tempo(u64),
    StartStop(bool),
}

/// The notifications for a change of timeline and transport: the new tempo if it
/// changed, then the new play state if it changed.
pub open spec fn change_events(
    old_tl: TimelineSegment,
    new_tl: TimelineSegment,
    old_tr: TransportState,
    new_tr: TransportState,
) -> Seq<Event> {
    let a = if old_tl.tempo != new_tl.tempo { seq![Event::Tempo(new_tl.tempo)] } else { Seq::empty() };
    let b = if old_tr.is_playing != new_tr.is_playing { seq![Event::StartStop(new_tr.is_playing)] } else { Seq::empty() };
    a + b
}

fn change_events_exec(
    old_tl: &TimelineSegment,
    new_tl: &TimelineSegment,
    old_tr: &TransportState,
    new_tr: &TransportState,
    events: &mut Vec<Event>,
)
    ensures
        final(events)@ == old(events)@ + change_events(*old_tl, *new_tl, *old_tr, *new_tr),
{
    let ghost e0 = events@;
    if old_tl.tempo != new_tl.tempo {
        events.push(Event::Tempo(new_tl.tempo));
    }
    let ghost e1 = events@;
    if old_tr.is_playing != new_tr.is_playing {
        events.push(Event::StartStop(new_tr.is_playing));
    }
    proof {
        let a = if old_tl.tempo != new_tl.tempo { seq![Event::Tempo(new_tl.tempo)] } else { Seq::<Event>::empty() };
        let b = if old_tr.is_playing != new_tr.is_playing { seq![Event::StartStop(new_tr.is_playing)] } else { Seq::<Event>::empty() };
        assert(e1 =~= e0 + a);
        assert(events@ =~= e1 + b);
        assert(events@ =~= e0 + (a + b));
    }
}

/// One engine instance: its timeline and transport, the peers it knows, its clock,
/// and the notifications not yet delivered.
#[derive(Debug)]
pub struct AblLink {
    pub enabled: bool,
    pub start_stop_sync: bool,
    pub peer_id: u64,
    /// The Lamport counter of edits.
    pub counter: u64,
    pub clock: ClockDomain,
    pub timeline: TimelineSegment,
    pub transport: TransportState,
    pub registry: PeerRegistry,
    pub events: Vec<Event>,
}

impl AblLink {
    /// The timeline is well formed, peers are unique, and no edit held carries a
    /// timestamp past the counter, so that every new local edit is stamped later
    /// than all of them.
    pub open spec fn wf(&self) -> bool {
        &&& self.timeline.wf()
        &&& self.registry.wf()
        &&& self.timeline.tag.timestamp <= self.counter
        &&& self.transport.tag.timestamp <= self.counter
    }

    /// The session state that a capture returns: the transport only while
    /// start/stop synchronization is on.
    pub open spec fn captured(&self) -> SessionState {
        SessionState {
            timeline: self.timeline,
            transport: if self.start_stop_sync { Some(self.transport) } else { None },
        }
    }

    /// A disabled engine at `tempo` (milli-beats per minute) with beat 0 at ghost
    /// time `now`, stopped, with no peers and start/stop synchronization off.
    pub fn new(tempo: u64, peer_id: u64, now: i64) -> (r: AblLink)
        requires
            0 < tempo <= MAX_TEMPO,
        ensures
            r.wf(),
            !r.enabled,
            !r.start_stop_sync,
            r.peer_id == peer_id,
            r.counter == 0,
            r.clock.offset == 0,
            r.timeline@ == (Line { tempo: tempo as int, beat_origin: 0, time_origin: now as int }),
            r.timeline.tag == (EditTag { timestamp: 0, editor: peer_id }),
            !r.transport.is_playing,
            r.transport.transition_time == now,
            r.transport.tag == (EditTag { timestamp: 0, editor: peer_id }),
            r.registry@.len() == 0,
            r.events@.len() == 0,
    {
        let tag = EditTag { timestamp: 0, editor: peer_id };
        AblLink {
            enabled: false,
            start_stop_sync: false,
            peer_id,
            counter: 0,
            clock: ClockDomain::new(0),
            timeline: TimelineSegment::new(tempo, now, tag),
            transport: TransportState { is_playing: false, transition_time: now, tag },
            registry: PeerRegistry::new(),
            events: Vec::new(),
        }
    }

    /// Whether the engine takes part in a session.
    pub fn is_enabled(&self) -> (r: bool)
        ensures
            r == self.enabled,
    {
        self.enabled
    }

    /// Joins or leaves the session. Leaving forgets every peer, and reports the
    /// new peer count if there were any.
    pub fn enable(&mut self, enable: bool)
        requires
            old(self).wf(),
        ensures
            final(self).wf(),
            final(self).enabled == enable,
            enable ==> final(self).registry@ == old(self).registry@ && final(self).events@ == old(self).events@,
            !enable ==> final(self).registry@.len() == 0,
            !enable && old(self).registry@.len() > 0 ==> final(self).events@ == old(self).events@.push(Event::PeerCount(0)),
            !enable && old(self).registry@.len() == 0 ==> final(self).events@ == old(self).events@,
            final(self).timeline == old(self).timeline,
            final(self).transport == old(self).transport,
            final(self).start_stop_sync == old(self).start_stop_sync,
            final(self).counter == old(self).counter,
            final(self).clock == old(self).clock,
    {
        self.enabled = enable;
        if !enable {
            if self.registry.len() > 0 {
                self.events.push(Event::PeerCount(0));
            }
            self.registry = PeerRegistry::new();
        }
    }

    /// Whether start/stop synchronization is on.
    pub fn is_start_stop_sync_enabled(&self) -> (r: bool)
        ensures
            r == self.start_stop_sync,
    {
        self.start_stop_sync
    }

    /// Turns start/stop synchronization on or off; the timeline is untouched.
    pub fn enable_start_stop_sync(&mut self, enable: bool)
        ensures
            final(self).start_stop_sync == enable,
            final(self).enabled == old(self).enabled,
            final(self).timeline == old(self).timeline,
            final(self).transport == old(self).transport,
            final(self).registry@ == old(self).registry@,
            final(self).events@ == old(self).events@,
            final(self).counter == old(self).counter,
            final(self).clock == old(self).clock,
    {
        self.start_stop_sync = enable;
    }

    /// The number of peers in the session.
    pub fn num_peers(&self) -> (r: u64)
        ensures
            r == self.registry@.len(),
    {
        self.registry.len() as u64
    }

    /// Captures the session state for the audio path.
    pub fn capture_audio_session_state(&self, session_state: &mut SessionState)
        ensures
            *final(session_state) == self.captured(),
    {
        *session_state = self.capture();
    }

    /// Captures the session state for an application thread.
    pub fn capture_app_session_state(&self, session_state: &mut SessionState)
        ensures
            *final(session_state) == self.captured(),
    {
        *session_state = self.capture();
    }

    fn capture(&self) -> (r: SessionState)
        ensures
            r == self.captured(),
    {
        SessionState {
            timeline: self.timeline,
            transport: if self.start_stop_sync { Some(self.transport) } else { None },
        }
    }

    /// The state to announce to peers: none while disabled.
    pub fn broadcast_state(&self) -> (r: Option<SessionState>)
        ensures
            r == (if self.enabled { Some(self.captured()) } else { None::<SessionState> }),
    {
        if self.enabled { Some(self.capture()) } else { None }
    }

    /// Commits `session_state` from the audio path; see `commit`.
    pub fn commit_audio_session_state(&mut self, session_state: &SessionState) -> (r: bool)
        requires
            old(self).wf(),
            session_state.wf(),
        ensures
            final(self).wf(),
            Self::committed(*old(self), *final(self), *session_state, r),
    {
        self.commit(session_state)
    }

    /// Commits `session_state` from an application thread; see `commit`.
    pub fn commit_app_session_state(&mut self, session_state: &SessionState) -> (r: bool)
        requires
            old(self).wf(),
            session_state.wf(),
        ensures
            final(self).wf(),
            Self::committed(*old(self), *final(self), *session_state, r),
    {
        self.commit(session_state)
    }

    /// What a commit of `ss` does, going from `a` to `b`. With the edit counter
    /// exhausted nothing changes and the commit reports `false`. Otherwise the
    /// timeline becomes that of `ss`, and its transport too while start/stop
    /// synchronization is on, stamped with a fresh timestamp; the tempo and play
    /// state changes are reported. Committing what was captured changes nothing
    /// but the stamps.
    pub open spec fn committed(a: AblLink, b: AblLink, ss: SessionState, r: bool) -> bool {
        let tag = EditTag { timestamp: (a.counter + 1) as u64, editor: a.peer_id };
        let new_tr = match ss.transport {
            Some(t) if a.start_stop_sync => TransportState { tag, ..t },
            _ => a.transport,
        };
        &&& r == (a.counter < u64::MAX)
        &&& !r ==> b == a
        &&& r ==> {
            &&& b.counter == a.counter + 1
            &&& b.timeline == (TimelineSegment { tag, ..ss.timeline })
            &&& b.transport == new_tr
            &&& b.events@ == a.events@ + change_events(a.timeline, b.timeline, a.transport, b.transport)
            &&& b.enabled == a.enabled && b.start_stop_sync == a.start_stop_sync
            &&& b.peer_id == a.peer_id && b.clock == a.clock && b.registry@ == a.registry@
        }
    }

    fn commit(&mut self, ss: &SessionState) -> (r: bool)
        requires
            old(self).wf(),
            ss.wf(),
        ensures
            final(self).wf(),
            Self::committed(*old(self), *final(self), *ss, r),
    {
        let ts = match next_timestamp(self.counter) {
            Some(ts) => ts,
            None => return false,
        };
        let tag = EditTag { timestamp: ts, editor: self.peer_id };
        let old_tl = self.timeline;
        let old_tr = self.transport;
        self.counter = ts;
        self.timeline = TimelineSegment { tag, ..ss.timeline };
        match ss.transport {
            Some(t) => {
                if self.start_stop_sync {
                    self.transport = TransportState { tag, ..t };
                }
            },
            None => {},
        }
        let new_tl = self.timeline;
        let new_tr = self.transport;
        change_events_exec(&old_tl, &new_tl, &old_tr, &new_tr, &mut self.events);
        true
    }

    /// What receiving `remote` from peer `peer` at local time `now` does, going
    /// from `a` to `b`. While disabled nothing changes. Otherwise the peer's record
    /// is replaced or added, a new peer is reported with the new peer count, the
    /// edit counter catches up with the remote stamps, and the timeline (and,
    /// with start/stop synchronization on at both ends, the transport) is merged
    /// last-writer-wins, reporting tempo and play state changes.
    pub open spec fn received(a: AblLink, b: AblLink, peer: u64, now: i64, round_trip: i64, remote: SessionState) -> bool {
        let rec = PeerRecord { peer_id: peer, last_seen: now, round_trip, timeline: remote.timeline, transport: remote.transport };
        let is_new = !has_id(a.registry@, peer);
        let c1 = if a.counter >= remote.timeline.tag.timestamp { a.counter } else { remote.timeline.tag.timestamp };
        let c2 = match remote.transport {
            Some(t) => if c1 >= t.tag.timestamp { c1 } else { t.tag.timestamp },
            None => c1,
        };
        let new_tl = merged_timeline(a.timeline, remote.timeline);
        let new_tr = match remote.transport {
            Some(t) if a.start_stop_sync => merged_transport(a.transport, t),
            _ => a.transport,
        };
        let ev = if is_new { a.events@.push(Event::PeerCount((a.registry@.len() + 1) as u64)) } else { a.events@ };
        &&& !a.enabled ==> b == a
        &&& a.enabled ==> {
            &&& is_new ==> b.registry@ == a.registry@.push(rec)
            &&& !is_new ==> exists|i: int| 0 <= i < a.registry@.len() && #[trigger] a.registry@[i].peer_id == peer
                && b.registry@ == a.registry@.update(i, rec)
            &&& b.counter == c2
            &&& b.timeline == new_tl
            &&& b.transport == new_tr
            &&& b.events@ == ev + change_events(a.timeline, new_tl, a.transport, new_tr)
            &&& b.enabled == a.enabled && b.start_stop_sync == a.start_stop_sync
            &&& b.peer_id == a.peer_id && b.clock == a.clock
        }
    }

    /// Takes in the state announced by peer `peer`, heard at local time `now`.
    /// Returns whether the peer was unknown, so that the caller asks it for its
    /// full state at once.
    pub fn receive_state(&mut self, peer: u64, now: i64, round_trip: i64, remote: &SessionState) -> (is_new: bool)
        requires
            old(self).wf(),
            remote.wf(),
            old(self).registry@.len() < u64::MAX,
        ensures
            final(self).wf(),
            Self::received(*old(self), *final(self), peer, now, round_trip, *remote),
            is_new == (old(self).enabled && !has_id(old(self).registry@, peer)),
    {
        if !self.enabled {
            return false;
        }
        let rec = PeerRecord { peer_id: peer, last_seen: now, round_trip, timeline: remote.timeline, transport: remote.transport };
        let is_new = self.registry.observe(rec);
        if is_new {
            let n = self.registry.len() as u64;
            self.events.push(Event::PeerCount(n));
        }
        let mut c = observe_timestamp(self.counter, remote.timeline.tag.timestamp);
        match remote.transport {
            Some(t) => {
                c = observe_timestamp(c, t.tag.timestamp);
            },
            None => {},
        }
        self.counter = c;
        let old_tl = self.timeline;
        let old_tr = self.transport;
        self.timeline = merge_timeline(&old_tl, &remote.timeline);
        match remote.transport {
            Some(t) => {
                if self.start_stop_sync {
                    self.transport = merge_transport(&old_tr, &t);
                }
            },
            None => {},
        }
        let new_tl = self.timeline;
        let new_tr = self.transport;
        change_events_exec(&old_tl, &new_tl, &old_tr, &new_tr, &mut self.events);
        is_new
    }

    /// Drops every peer silent for longer than `PEER_TIMEOUT` at local time `now`,
    /// and reports the new peer count once if any was dropped.
    pub fn expire_peers(&mut self, now: i64) -> (removed: usize)
        requires
            old(self).wf(),
        ensures
            final(self).wf(),
            final(self).registry@ == live(old(self).registry@, now as int, PEER_TIMEOUT as int),
            removed == old(self).registry@.len() - final(self).registry@.len(),
            removed > 0 ==> final(self).events@ == old(self).events@.push(
                Event::PeerCount(final(self).registry@.len() as u64),
            ),
            removed == 0 ==> final(self).events@ == old(self).events@,
            final(self).timeline == old(self).timeline,
            final(self).transport == old(self).transport,
            final(self).counter == old(self).counter,
            final(self).enabled == old(self).enabled,
            final(self).start_stop_sync == old(self).start_stop_sync,
            final(self).clock == old(self).clock,
    {
        let removed = self.registry.expire(now, PEER_TIMEOUT);
        if removed > 0 {
            let n = self.registry.len() as u64;
            self.events.push(Event::PeerCount(n));
        }
        removed
    }

    /// Hands over the pending notifications, oldest first, and clears them.
    pub fn take_events(&mut self) -> (r: Vec<Event>)
        ensures
            r@ == old(self).events@,
            final(self).events@.len() == 0,
            final(self).timeline == old(self).timeline,
            final(self).transport == old(self).transport,
            final(self).registry@ == old(self).registry@,
            final(self).counter == old(self).counter,
            final(self).enabled == old(self).enabled,
            final(self).start_stop_sync == old(self).start_stop_sync,
            final(self).clock == old(self).clock,
    {
        let mut taken: Vec<Event> = Vec::new();
        std::mem::swap(&mut taken, &mut self.events);
        taken
    }

    /// Moves the clock offset toward the estimate of the best of `probes`.
    pub fn update_clock(&mut self, probes: &Vec<Probe>)
        requires
            all_fit(probes@),
        ensures
            probes@.len() == 0 ==> final(self).clock == old(self).clock,
            probes@.len() > 0 ==> exists|b: int|
                0 <= b < probes@.len() && (forall|j: int|
                    0 <= j < probes@.len() ==> probes@[b].rtt_spec() <= #[trigger] probes@[j].rtt_spec())
                    && final(self).clock.offset == old(self).clock.offset + slew_step(
                    old(self).clock.offset as int,
                    #[trigger] probes@[b].offset_spec(),
                ),
            final(self).timeline == old(self).timeline,
            final(self).transport == old(self).transport,
            final(self).registry@ == old(self).registry@,
            final(self).events@ == old(self).events@,
    {
        self.clock.update(probes);
    }

    /// Host time to ghost time.
    pub fn host_to_ghost(&self, host: i64) -> (r: i64)
        requires
            i64::MIN <= host + self.clock.offset <= i64::MAX,
        ensures
            r == host + self.clock.offset,
    {
        self.clock.host_to_ghost(host)
    }

    /// Ghost time to host time.
    pub fn ghost_to_host(&self, ghost: i64) -> (r: i64)
        requires
            i64::MIN <= ghost - self.clock.offset <= i64::MAX,
        ensures
            r == ghost - self.clock.offset,
    {
        self.clock.ghost_to_host(ghost)
    }
}

/// Committing the same session state twice: the second commit changes nothing
/// that can be observed but the edit stamps, and reports nothing.
pub proof fn lemma_commit_idempotent(a: AblLink, b: AblLink, c: AblLink, ss: SessionState)
    requires
        AblLink::committed(a, b, ss, true),
        AblLink::committed(b, c, ss, true),
    ensures
        c.events@ == b.events@,
        c.timeline@ == b.timeline@,
        c.transport.is_playing == b.transport.is_playing,
        c.transport.transition_time == b.transport.transition_time,
        c.registry@ == b.registry@,
        c.enabled == b.enabled,
        c.start_stop_sync == b.start_stop_sync,
        c.clock == b.clock,
        c.counter == b.counter + 1,
{
    assert(change_events(b.timeline, c.timeline, b.transport, c.transport) =~= Seq::empty());
    assert(c.events@ =~= b.events@);
}

/// Two enabled engines whose timelines are consistent, each receiving the other's
/// announcement in turn with no edit in between, hold equal timelines afterwards.
pub proof fn lemma_engines_converge(
    a0: AblLink,
    a1: AblLink,
    b0: AblLink,
    b1: AblLink,
    now: i64,
    round_trip: i64,
)
    requires
        a0.enabled,
        b0.enabled,
        consistent(a0.timeline, b0.timeline),
        AblLink::received(a0, a1, b0.peer_id, now, round_trip, b0.captured()),
        AblLink::received(b0, b1, a0.peer_id, now, round_trip, a1.captured()),
    ensures
        a1.timeline == b1.timeline,
        a1.captured().timeline == b1.captured().timeline,
{
    lemma_convergence(a0.timeline, b0.timeline);
}

/// A value handed to a notification handler as its context.
#[derive(Debug)]
pub struct TestStruct {
    pub number: usize,
}

} // verus!
