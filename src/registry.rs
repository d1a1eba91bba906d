//! The peer registry: one record per known peer, expired when it falls silent.
use vstd::prelude::*;
use crate::timeline::TimelineSegment;
use crate::transport::TransportState;

verus! {

/// What is known of one peer.
#[derive(Clone, Copy, Debug, PartialEq, Eq, Structural)]
pub struct PeerRecord {
    pub peer_id: u64,
    /// Local host time in microseconds at which the peer was last heard from.
    pub last_seen: i64,
    /// The latest round-trip estimate to the peer, in microseconds.
    pub round_trip: i64,
    pub timeline: TimelineSegment,
    pub transport: Option<TransportState>,
}

/// No two records share a peer identity.
pub open spec fn unique_ids(s: Seq<PeerRecord>) -> bool {
    forall|i: int, j: int| 0 <= i < j < s.len() ==> #[trigger] s[i].peer_id != #[trigger] s[j].peer_id
}

/// Some record has identity `id`.
pub open spec fn has_id(s: Seq<PeerRecord>, id: u64) -> bool {
    exists|i: int| 0 <= i < s.len() && #[trigger] s[i].peer_id == id
}

/// The peer has been silent for longer than `timeout` at `now`.
pub open spec fn expired(p: PeerRecord, now: int, timeout: int) -> bool {
    now - p.last_seen > timeout
}

/// The records that are not expired at `now`, in their order.
pub open spec fn live(s: Seq<PeerRecord>, now: int, timeout: int) -> Seq<PeerRecord>
    decreases s.len(),
{
    if s.len() == 0 {
        s
    } else if expired(s.last(), now, timeout) {
        live(s.drop_last(), now, timeout)
    } else {
        live(s.drop_last(), now, timeout).push(s.last())
    }
}

/// `live` keeps exactly the records that are not expired.
pub proof fn lemma_live(s: Seq<PeerRecord>, now: int, timeout: int)
    ensures
        live(s, now, timeout).len() <= s.len(),
        forall|p: PeerRecord| #[trigger] live(s, now, timeout).contains(p) <==> (s.contains(p) && !expired(p, now, timeout)),
    decreases s.len(),
{
    if s.len() > 0 {
        lemma_live(s.drop_last(), now, timeout);
        assert forall|p: PeerRecord| s.contains(p) <==> (s.drop_last().contains(p) || p == s.last()) by {
            if s.contains(p) {
                let i = choose|i: int| 0 <= i < s.len() && s[i] == p;
                if i < s.len() - 1 {
                    assert(s.drop_last()[i] == p);
                }
            }
            if s.drop_last().contains(p) {
                let i = choose|i: int| 0 <= i < s.drop_last().len() && s.drop_last()[i] == p;
                assert(s[i] == p);
            }
            if p == s.last() {
                assert(s[s.len() - 1] == p);
            }
        }
        let l = live(s.drop_last(), now, timeout);
        if !expired(s.last(), now, timeout) {
            assert forall|p: PeerRecord| l.push(s.last()).contains(p) <==> (l.contains(p) || p == s.last()) by {
                if l.push(s.last()).contains(p) {
                    let i = choose|i: int| 0 <= i < l.len() + 1 && l.push(s.last())[i] == p;
                    if i < l.len() {
                        assert(l[i] == p);
                    }
                }
                if l.contains(p) {
                    let i = choose|i: int| 0 <= i < l.len() && l[i] == p;
                    assert(l.push(s.last())[i] == p);
                }
                if p == s.last() {
                    assert(l.push(s.last())[l.len() as int] == p);
                }
            }
        }
        assert forall|p: PeerRecord| #[trigger] live(s, now, timeout).contains(p) <==> (s.contains(p) && !expired(p, now, timeout)) by {
            assert(s.contains(p) <==> (s.drop_last().contains(p) || p == s.last()));
            assert(l.contains(p) <==> (s.drop_last().contains(p) && !expired(p, now, timeout)));
        }
    }
}

/// The known peers, at most one record each.
#[derive(Debug)]
pub struct PeerRegistry {
    pub peers: Vec<PeerRecord>,
}

impl PeerRegistry {
    pub open spec fn view(&self) -> Seq<PeerRecord> {
        self.peers@
    }

    pub open spec fn wf(&self) -> bool {
        unique_ids(self@)
    }

    /// A registry with no peers.
    pub fn new() -> (r: PeerRegistry)
        ensures
            r.wf(),
            r@.len() == 0,
    {
        PeerRegistry { peers: Vec::new() }
    }

    /// The number of known peers.
    pub fn len(&self) -> (r: usize)
        ensures
            r == self@.len(),
    {
        self.peers.len()
    }

    /// The position of the record of peer `id`, if there is one.
    pub fn find(&self, id: u64) -> (r: Option<usize>)
        ensures
            r.is_none() <==> !has_id(self@, id),
            r matches Some(i) ==> i < self@.len() && self@[i as int].peer_id == id,
    {
        let mut i: usize = 0;
        while i < self.peers.len()
            invariant
                i <= self@.len(),
                forall|j: int| 0 <= j < i ==> #[trigger] self@[j].peer_id != id,
            decreases self@.len() - i,
        {
            if self.peers[i].peer_id == id {
                return Some(i);
            }
            i = i + 1;
        }
        None
    }

    /// Records what was heard from a peer: replaces its record if it is known,
    /// adds it otherwise. Returns whether the peer is new.
    pub fn observe(&mut self, rec: PeerRecord) -> (is_new: bool)
        requires
            old(self).wf(),
        ensures
            final(self).wf(),
            is_new == !has_id(old(self)@, rec.peer_id),
            is_new ==> final(self)@ == old(self)@.push(rec),
            !is_new ==> exists|i: int|
                0 <= i < old(self)@.len() && #[trigger] old(self)@[i].peer_id == rec.peer_id
                    && final(self)@ == old(self)@.update(i, rec),
    {
        match self.find(rec.peer_id) {
            Some(i) => {
                self.peers.set(i, rec);
                false
            },
            None => {
                self.peers.push(rec);
                true
            },
        }
    }

    /// Removes every peer silent for longer than `timeout` at `now`, keeping the
    /// order of the others. Returns how many were removed.
    pub fn expire(&mut self, now: i64, timeout: i64) -> (removed: usize)
        requires
            old(self).wf(),
        ensures
            final(self).wf(),
            final(self)@ == live(old(self)@, now as int, timeout as int),
            removed == old(self)@.len() - final(self)@.len(),
    {
        let ghost s = self@;
        let mut kept: Vec<PeerRecord> = Vec::new();
        let mut i: usize = 0;
        while i < self.peers.len()
            invariant
                self@ == s,
                unique_ids(s),
                i <= s.len(),
                kept@ == live(s.take(i as int), now as int, timeout as int),
            decreases s.len() - i,
        {
            let p = self.peers[i];
            proof {
                assert(s.take(i + 1).drop_last() =~= s.take(i as int));
                assert(s.take(i + 1).last() == p);
            }
            let silent: i128 = (now as i128) - (p.last_seen as i128);
            if silent <= timeout as i128 {
                kept.push(p);
            }
            i = i + 1;
        }
        proof {
            assert(s.take(s.len() as int) =~= s);
            lemma_live_sub(s, now as int, timeout as int);
            lemma_live(s, now as int, timeout as int);
        }
        let removed = self.peers.len() - kept.len();
        self.peers = kept;
        removed
    }
}

/// `live` of a sequence with unique identities has unique identities.
proof fn lemma_live_sub(s: Seq<PeerRecord>, now: int, timeout: int)
    requires
        unique_ids(s),
    ensures
        unique_ids(live(s, now, timeout)),
        forall|i: int| 0 <= i < live(s, now, timeout).len() ==> has_id(s, #[trigger] live(s, now, timeout)[i].peer_id),
    decreases s.len(),
{
    if s.len() > 0 {
        let d = s.drop_last();
        assert(unique_ids(d)) by {
            assert forall|i: int, j: int| 0 <= i < j < d.len() implies #[trigger] d[i].peer_id != #[trigger] d[j].peer_id by {
                assert(d[i] == s[i] && d[j] == s[j]);
            }
        }
        lemma_live_sub(d, now, timeout);
        let l = live(d, now, timeout);
        assert forall|i: int| 0 <= i < l.len() implies has_id(s, #[trigger] l[i].peer_id) by {
            let k = choose|k: int| 0 <= k < d.len() && #[trigger] d[k].peer_id == l[i].peer_id;
            assert(s[k] == d[k]);
        }
        if !expired(s.last(), now, timeout) {
            let lp = l.push(s.last());
            assert forall|i: int| 0 <= i < lp.len() implies has_id(s, #[trigger] lp[i].peer_id) by {
                if i < l.len() {
                    assert(lp[i] == l[i]);
                } else {
                    assert(s[s.len() - 1].peer_id == lp[i].peer_id);
                }
            }
            assert forall|i: int, j: int| 0 <= i < j < lp.len() implies #[trigger] lp[i].peer_id != #[trigger] lp[j].peer_id by {
                if j == l.len() {
                    assert(lp[i] == l[i]);
                    assert(has_id(d, l[i].peer_id));
                    let k = choose|k: int| 0 <= k < d.len() && #[trigger] d[k].peer_id == l[i].peer_id;
                    assert(s[k] == d[k]);
                    assert(s[k].peer_id != s[s.len() - 1].peer_id);
                } else {
                    assert(lp[i] == l[i] && lp[j] == l[j]);
                }
            }
        }
    }
}

} // verus!
