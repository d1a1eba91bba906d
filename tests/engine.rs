use abl_link::clock::{best_probe, ClockDomain, Probe, MAX_SLEW};
use abl_link::link::{AblLink, Event, PEER_TIMEOUT};
use abl_link::reconcile::{merge_timeline, merge_transport, next_timestamp, observe_timestamp, supersedes};
use abl_link::registry::{PeerRecord, PeerRegistry};
use abl_link::session_state::SessionState;
use abl_link::timeline::{EditTag, TimelineSegment};
use abl_link::transport::{aligned_start, TransportState};

const BEAT: i64 = 1_000_000;

fn captured(link: &AblLink) -> SessionState {
    let mut ss = SessionState::new(1_000, 0);
    link.capture_app_session_state(&mut ss);
    ss
}

fn exchange(from: &AblLink, to: &mut AblLink, now: i64) {
    let ss = from.broadcast_state().unwrap();
    let known = to.num_peers();
    let is_new = to.receive_state(from.peer_id, now, 100, &ss);
    assert_eq!(is_new, to.is_enabled() && to.num_peers() == known + 1);
}

#[test]
fn half_second_at_120_bpm_is_one_beat() {
    let link = AblLink::new(120_000, 1, 0);
    let mut ss = SessionState::new(60_000, 77);
    link.capture_audio_session_state(&mut ss);
    let origin = ss.timeline.time_origin;
    assert_eq!(ss.beat_at_time(origin + 500_000), ss.timeline.beat_origin + BEAT);
    assert_eq!(ss.tempo(), 120_000);
    assert_eq!(link.num_peers(), 0);
}

#[test]
fn beat_before_origin_rounds_down() {
    let seg = TimelineSegment::new(120_000, 0, EditTag { timestamp: 0, editor: 0 });
    assert_eq!(seg.beat_at_time(-1), -2);
    assert_eq!(seg.beat_at_time(-500_000), -BEAT);
    let slow = TimelineSegment::new(30_000, 0, EditTag { timestamp: 0, editor: 0 });
    assert_eq!(slow.beat_at_time(3), 1);
    assert_eq!(slow.beat_at_time(-3), -2);
}

#[test]
fn time_at_beat_is_first_instant_reaching_it() {
    let seg = TimelineSegment::new(120_000, 1_000, EditTag { timestamp: 0, editor: 0 });
    assert_eq!(seg.time_at_beat(BEAT), 501_000);
    assert_eq!(seg.time_at_beat(3), 1_002);
    assert_eq!(seg.beat_at_time(1_002), 4);
    assert_eq!(seg.beat_at_time(1_001), 2);
    assert_eq!(seg.time_at_beat(-BEAT), -499_000);
}

#[test]
fn phase_within_quantum() {
    let ss = SessionState::new(120_000, 0);
    assert_eq!(ss.phase_at_time(2_500_000, 4 * BEAT), BEAT);
    assert_eq!(ss.phase_at_time(-500_000, 4 * BEAT), 3 * BEAT);
}

#[test]
fn tempo_edits_keep_the_beat_continuous() {
    let mut ss = SessionState::new(120_000, 0);
    let edits: [(u64, i64); 4] = [(140_000, 1_000_000), (90_500, 1_333_333), (200_000, 2_000_001), (20_000, 9_999_999)];
    for (tempo, at) in edits {
        let before = ss.beat_at_time(at);
        let just_before = ss.beat_at_time(at - 1);
        ss.set_tempo(tempo, at);
        assert_eq!(ss.beat_at_time(at), before);
        assert_eq!(ss.timeline.beat_origin, before);
        assert_eq!(ss.timeline.time_origin, at);
        assert!(ss.beat_at_time(at + 1) >= before);
        assert!(just_before <= before);
    }
    assert_eq!(ss.tempo(), 20_000);
}

#[test]
fn request_beat_at_time_maps_the_beat() {
    let mut ss = SessionState::new(120_000, 0);
    ss.request_beat_at_time(0, 1_250_000);
    assert_eq!(ss.beat_at_time(1_250_000), 0);
    assert_eq!(ss.beat_at_time(1_750_000), BEAT);
    assert_eq!(ss.tempo(), 120_000);
}

#[test]
fn play_request_lands_on_the_quantum_grid() {
    let mut ss = SessionState::new(120_000, 0);
    // 0.7 s at 120 BPM is beat 1.4: the next multiple of 4 beats is at 2 s.
    ss.set_is_playing(true, 700_000, 4 * BEAT);
    assert!(ss.is_playing());
    let t = ss.time_for_is_playing().unwrap();
    assert_eq!(t, 2_000_000);
    assert!(t >= 700_000);
    assert_eq!(ss.beat_at_time(t) % (4 * BEAT), 0);
    assert!(ss.beat_at_time(t - 1) < 4 * BEAT);
}

#[test]
fn play_request_on_a_boundary_starts_at_once() {
    let seg = TimelineSegment::new(120_000, 0, EditTag { timestamp: 0, editor: 0 });
    assert_eq!(aligned_start(&seg, 2_000_000, 4 * BEAT), 2_000_000);
    assert_eq!(aligned_start(&seg, 2_000_001, 4 * BEAT), 4_000_000);
    let slow = TimelineSegment::new(30_000, 0, EditTag { timestamp: 0, editor: 0 });
    // At 30 BPM the beat reaches 4 at 8 s, and already stands there a microsecond later.
    assert_eq!(aligned_start(&slow, 8_000_001, 4 * BEAT), 8_000_001);
}

#[test]
fn stop_takes_effect_at_request_time() {
    let mut ss = SessionState::new(120_000, 0);
    ss.set_is_playing(false, 123_456, 4 * BEAT);
    assert!(!ss.is_playing());
    assert_eq!(ss.time_for_is_playing(), Some(123_456));
    let fresh = SessionState::new(120_000, 0);
    assert!(!fresh.is_playing());
    assert_eq!(fresh.time_for_is_playing(), None);
}

#[test]
fn remote_tempo_change_is_adopted_with_phase_kept() {
    let mut a = AblLink::new(120_000, 2, 0);
    let mut b = AblLink::new(120_000, 1, 0);
    a.enable(true);
    b.enable(true);
    exchange(&a, &mut b, 0);
    exchange(&b, &mut a, 0);
    assert_eq!(a.timeline, b.timeline);
    let t = 1_000_000;
    let b_beat_before = captured(&b).beat_at_time(t);
    let mut ss = captured(&a);
    ss.set_tempo(140_000, t);
    assert!(a.commit_app_session_state(&ss));
    exchange(&a, &mut b, t);
    let merged = captured(&b);
    assert_eq!(merged.tempo(), 140_000);
    assert_eq!(merged.timeline.beat_origin, b_beat_before);
    assert_eq!(merged.beat_at_time(t), b_beat_before);
    let events = b.take_events();
    assert_eq!(events, vec![Event::PeerCount(1), Event::Tempo(140_000)]);
}

#[test]
fn simultaneous_play_requests_resolve_to_greater_editor() {
    let mut a = AblLink::new(120_000, 30, 0);
    let mut b = AblLink::new(120_000, 20, 0);
    let mut c = AblLink::new(120_000, 10, 0);
    let mut c2 = AblLink::new(120_000, 10, 0);
    for link in [&mut a, &mut b, &mut c, &mut c2] {
        link.enable(true);
        link.enable_start_stop_sync(true);
    }
    let mut sa = captured(&a);
    sa.set_is_playing(true, 100_000, 4 * BEAT);
    let mut sb = captured(&b);
    sb.set_is_playing(true, 2_100_000, 4 * BEAT);
    assert!(a.commit_audio_session_state(&sa));
    assert!(b.commit_audio_session_state(&sb));
    assert_eq!(a.transport.tag.timestamp, b.transport.tag.timestamp);
    let a_time = a.transport.transition_time;
    assert_eq!(a_time, 2_000_000);
    assert_eq!(b.transport.transition_time, 4_000_000);
    exchange(&a, &mut c, 10);
    exchange(&b, &mut c, 20);
    exchange(&b, &mut c2, 10);
    exchange(&a, &mut c2, 20);
    exchange(&b, &mut a, 30);
    exchange(&a, &mut b, 40);
    for link in [&a, &b, &c, &c2] {
        assert_eq!(link.transport.transition_time, a_time);
        assert!(captured(link).is_playing());
    }
}

#[test]
fn silent_peer_times_out_once() {
    let mut a = AblLink::new(120_000, 1, 0);
    let mut p = AblLink::new(120_000, 2, 0);
    a.enable(true);
    p.enable(true);
    exchange(&p, &mut a, 0);
    assert_eq!(a.num_peers(), 1);
    assert_eq!(a.take_events(), vec![Event::PeerCount(1)]);
    assert_eq!(a.expire_peers(PEER_TIMEOUT), 0);
    assert_eq!(a.num_peers(), 1);
    assert_eq!(a.expire_peers(6_000_000), 1);
    assert_eq!(a.num_peers(), 0);
    assert_eq!(a.expire_peers(7_000_000), 0);
    assert_eq!(a.take_events(), vec![Event::PeerCount(0)]);
    assert!(a.take_events().is_empty());
}

#[test]
fn peers_converge_after_exchange() {
    let mut a = AblLink::new(120_000, 1, 0);
    let mut b = AblLink::new(100_000, 2, 0);
    a.enable(true);
    b.enable(true);
    let mut ss = captured(&a);
    ss.set_tempo(133_000, 500_000);
    assert!(a.commit_app_session_state(&ss));
    let mut sb = captured(&b);
    sb.request_beat_at_time(7 * BEAT, 10);
    assert!(b.commit_app_session_state(&sb));
    exchange(&a, &mut b, 1_000);
    exchange(&b, &mut a, 2_000);
    assert_eq!(captured(&a).timeline, captured(&b).timeline);
    exchange(&a, &mut b, 3_000);
    exchange(&b, &mut a, 4_000);
    assert_eq!(captured(&a).timeline, captured(&b).timeline);
    assert_eq!(a.timeline.tag, EditTag { timestamp: 1, editor: 2 });
}

#[test]
fn committing_twice_only_bumps_the_stamp() {
    let mut a = AblLink::new(120_000, 1, 0);
    a.enable_start_stop_sync(true);
    let mut ss = captured(&a);
    ss.set_tempo(150_000, 250_000);
    ss.set_is_playing(true, 250_000, 4 * BEAT);
    assert!(a.commit_app_session_state(&ss));
    let first = captured(&a);
    let events = a.take_events();
    assert_eq!(events, vec![Event::Tempo(150_000), Event::StartStop(true)]);
    assert!(a.commit_app_session_state(&ss));
    let second = captured(&a);
    assert!(a.take_events().is_empty());
    assert_eq!(second.tempo(), first.tempo());
    assert_eq!(second.timeline.beat_origin, first.timeline.beat_origin);
    assert_eq!(second.timeline.time_origin, first.timeline.time_origin);
    assert_eq!(second.time_for_is_playing(), first.time_for_is_playing());
    assert_eq!(second.timeline.tag.timestamp, first.timeline.tag.timestamp + 1);
}

#[test]
fn disabled_engine_ignores_traffic() {
    let mut a = AblLink::new(120_000, 1, 0);
    let mut p = AblLink::new(90_000, 2, 0);
    assert!(!a.is_enabled());
    assert!(a.broadcast_state().is_none());
    p.enable(true);
    let mut ss = captured(&p);
    ss.set_tempo(95_000, 0);
    assert!(p.commit_app_session_state(&ss));
    exchange(&p, &mut a, 0);
    assert_eq!(a.num_peers(), 0);
    assert_eq!(a.timeline.tempo, 120_000);
    a.enable(true);
    exchange(&p, &mut a, 0);
    assert_eq!(a.num_peers(), 1);
    assert_eq!(a.timeline.tempo, 95_000);
    a.enable(false);
    assert_eq!(a.num_peers(), 0);
    assert_eq!(a.take_events(), vec![Event::PeerCount(1), Event::Tempo(95_000), Event::PeerCount(0)]);
}

#[test]
fn transport_not_shared_without_sync() {
    let mut a = AblLink::new(120_000, 2, 0);
    let mut b = AblLink::new(120_000, 1, 0);
    a.enable(true);
    b.enable(true);
    a.enable_start_stop_sync(true);
    assert!(a.is_start_stop_sync_enabled());
    assert!(!b.is_start_stop_sync_enabled());
    let mut ss = captured(&a);
    ss.set_is_playing(true, 0, 4 * BEAT);
    assert!(a.commit_app_session_state(&ss));
    exchange(&a, &mut b, 0);
    assert!(!b.transport.is_playing);
    assert!(captured(&b).transport.is_none());
    b.enable_start_stop_sync(true);
    exchange(&a, &mut b, 0);
    assert!(b.transport.is_playing);
}

#[test]
fn last_writer_wins_rules() {
    let t = |ts: u64, ed: u64| EditTag { timestamp: ts, editor: ed };
    assert!(supersedes(t(2, 1), t(1, 9)));
    assert!(!supersedes(t(1, 9), t(2, 1)));
    assert!(supersedes(t(3, 5), t(3, 4)));
    assert!(!supersedes(t(3, 4), t(3, 5)));
    assert!(!supersedes(t(3, 4), t(3, 4)));
    let local = TimelineSegment::new(120_000, 0, t(5, 1));
    let remote = TimelineSegment::new(90_000, 7, t(4, 9));
    assert_eq!(merge_timeline(&local, &remote), local);
    assert_eq!(merge_timeline(&remote, &local), local);
    let x = TransportState { is_playing: true, transition_time: 5, tag: t(2, 2) };
    let y = TransportState { is_playing: false, transition_time: 9, tag: t(2, 3) };
    assert_eq!(merge_transport(&x, &y), y);
    assert_eq!(merge_transport(&y, &x), y);
}

#[test]
fn lamport_counter() {
    assert_eq!(observe_timestamp(3, 8), 8);
    assert_eq!(observe_timestamp(9, 8), 9);
    assert_eq!(next_timestamp(8), Some(9));
    assert_eq!(next_timestamp(u64::MAX), None);
}

#[test]
fn exhausted_counter_refuses_commit() {
    let mut a = AblLink::new(120_000, 1, 0);
    a.counter = u64::MAX;
    let mut ss = captured(&a);
    ss.set_tempo(60_000, 0);
    assert!(!a.commit_app_session_state(&ss));
    assert_eq!(a.timeline.tempo, 120_000);
    assert!(a.take_events().is_empty());
}

#[test]
fn probe_offset_and_round_trip() {
    // Peer clock is 1000 µs ahead; 200 µs each way; peer holds the probe 50 µs.
    let p = Probe { t0: 10_000, t1: 11_200, t2: 11_250, t3: 10_450 };
    assert_eq!(p.offset(), 1_000);
    assert_eq!(p.rtt(), 400);
    let q = Probe { t0: 0, t1: 0, t2: 0, t3: 1 };
    assert_eq!(q.offset(), -1);
}

#[test]
fn best_probe_has_least_round_trip() {
    let probes = vec![
        Probe { t0: 0, t1: 600, t2: 600, t3: 1_000 },
        Probe { t0: 0, t1: 100, t2: 100, t3: 200 },
        Probe { t0: 0, t1: 500, t2: 500, t3: 700 },
    ];
    assert_eq!(best_probe(&probes), Some(1));
    assert_eq!(best_probe(&Vec::new()), None);
}

#[test]
fn clock_slews_in_bounded_steps() {
    let mut c = ClockDomain::new(0);
    c.slew_toward(10);
    assert_eq!(c.offset, 5);
    c.slew_toward(10);
    assert_eq!(c.offset, 8);
    c.slew_toward(-1_000_000);
    assert_eq!(c.offset, 8 - MAX_SLEW);
    c.slew_toward(8 - MAX_SLEW - 1);
    assert_eq!(c.offset, 8 - MAX_SLEW - 1);
    let mut d = ClockDomain::new(100);
    d.update(&vec![Probe { t0: 0, t1: 150, t2: 150, t3: 100 }, Probe { t0: 0, t1: 900, t2: 900, t3: 1_000 }]);
    assert_eq!(d.offset, 100);
}

#[test]
fn host_and_ghost_time_round_trip() {
    let mut a = AblLink::new(120_000, 1, 0);
    a.update_clock(&vec![Probe { t0: 0, t1: 2_000, t2: 2_000, t3: 0 }]);
    assert_eq!(a.clock.offset, MAX_SLEW);
    assert_eq!(a.host_to_ghost(5), 5 + MAX_SLEW);
    assert_eq!(a.ghost_to_host(a.host_to_ghost(-77)), -77);
}

#[test]
fn registry_keeps_one_record_per_peer() {
    let seg = TimelineSegment::new(120_000, 0, EditTag { timestamp: 0, editor: 0 });
    let rec = |id: u64, seen: i64| PeerRecord { peer_id: id, last_seen: seen, round_trip: 0, timeline: seg, transport: None };
    let mut r = PeerRegistry::new();
    assert!(r.observe(rec(4, 0)));
    assert!(r.observe(rec(5, 10)));
    assert!(!r.observe(rec(4, 20)));
    assert_eq!(r.len(), 2);
    assert_eq!(r.find(4), Some(0));
    assert_eq!(r.peers[0].last_seen, 20);
    assert_eq!(r.find(6), None);
    assert_eq!(r.expire(15, 5), 0);
    assert_eq!(r.expire(16, 5), 1);
    assert_eq!(r.len(), 1);
    assert_eq!(r.peers[0].peer_id, 4);
}
