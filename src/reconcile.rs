//! Last-writer-wins reconciliation of timeline and transport edits.
use vstd::prelude::*;
use crate::timeline::{EditTag, TimelineSegment};
use crate::transport::TransportState;

verus! {

/// `a` was written after `b`: a greater timestamp, or an equal one from a greater editor.
pub open spec fn newer(a: EditTag, b: EditTag) -> bool {
    a.timestamp > b.timestamp || (a.timestamp == b.timestamp && a.editor > b.editor)
}

/// Whether the edit tagged `remote` replaces the one tagged `local`.
pub fn supersedes(remote: EditTag, local: EditTag) -> (r: bool)
    ensures
        r == newer(remote, local),
{
    remote.timestamp > local.timestamp || (remote.timestamp == local.timestamp && remote.editor > local.editor)
}

/// The timeline that a peer holding `local` keeps after receiving `remote`.
pub open spec fn merged_timeline(local: TimelineSegment, remote: TimelineSegment) -> TimelineSegment {
    if newer(remote.tag, local.tag) { remote } else { local }
}

/// The transport that a peer holding `local` keeps after receiving `remote`.
pub open spec fn merged_transport(local: TransportState, remote: TransportState) -> TransportState {
    if newer(remote.tag, local.tag) { remote } else { local }
}

/// Adopts `remote` wholesale when its edit is newer; keeps `local` otherwise.
pub fn merge_timeline(local: &TimelineSegment, remote: &TimelineSegment) -> (r: TimelineSegment)
    ensures
        r == merged_timeline(*local, *remote),
{
    if supersedes(remote.tag, local.tag) { *remote } else { *local }
}

/// Adopts `remote` wholesale when its edit is newer; keeps `local` otherwise.
pub fn merge_transport(local: &TransportState, remote: &TransportState) -> (r: TransportState)
    ensures
        r == merged_transport(*local, *remote),
{
    if supersedes(remote.tag, local.tag) { *remote } else { *local }
}

/// The Lamport counter after observing a remote timestamp: the greater of the two.
pub fn observe_timestamp(counter: u64, observed: u64) -> (r: u64)
    ensures
        r == if counter >= observed { counter } else { observed },
{
    if counter >= observed { counter } else { observed }
}

/// The timestamp of a new local edit: one past the counter, or `None` once the
/// counter is exhausted.
pub fn next_timestamp(counter: u64) -> (r: Option<u64>)
    ensures
        counter < u64::MAX ==> r == Some((counter + 1) as u64),
        counter == u64::MAX ==> r.is_none(),
{
    if counter < u64::MAX { Some(counter + 1) } else { None }
}

/// Two segments with one tag are one edit, and so are equal.
pub open spec fn consistent(a: TimelineSegment, b: TimelineSegment) -> bool {
    a.tag == b.tag ==> a == b
}

/// Two peers holding `a` and `b` that exchange their states, with no further
/// edits, both hold the same timeline afterwards, whichever receives first, and
/// further exchanges change nothing.
pub proof fn lemma_convergence(a: TimelineSegment, b: TimelineSegment)
    requires
        consistent(a, b),
    ensures
        merged_timeline(a, b) == merged_timeline(b, a),
        merged_timeline(b, merged_timeline(a, b)) == merged_timeline(a, b),
        merged_timeline(merged_timeline(a, b), b) == merged_timeline(a, b),
        merged_timeline(merged_timeline(a, b), a) == merged_timeline(a, b),
{
}

/// A peer that held the same timeline as the editor before a tempo change, and
/// receives the change, takes the new tempo with the beat origin that its own
/// timeline had at the change's time: its beats before that time stay as they were.
pub proof fn lemma_adoption_keeps_phase(b: TimelineSegment, edited: TimelineSegment, tempo: int, at: int)
    requires
        edited@ == b@.with_tempo(tempo, at),
        newer(edited.tag, b.tag),
    ensures
        merged_timeline(b, edited)@.tempo == tempo,
        merged_timeline(b, edited)@.time_origin == at,
        merged_timeline(b, edited)@.beat_origin == b@.beat_at(at),
        merged_timeline(b, edited)@.beat_at(at) == b@.beat_at(at),
{
    assert(tempo * (at - at) == 0);
}

/// Of two edits with equal timestamps from different editors, the one with the
/// greater editor wins at every peer, whatever older state that peer held and in
/// whichever order the two edits arrive.
pub proof fn lemma_tie_break(a: TransportState, b: TransportState, c: TransportState)
    requires
        a.tag.timestamp == b.tag.timestamp,
        a.tag.editor > b.tag.editor,
        c.tag.timestamp < a.tag.timestamp,
    ensures
        merged_transport(merged_transport(c, a), b) == a,
        merged_transport(merged_transport(c, b), a) == a,
        merged_transport(a, b) == a,
        merged_transport(b, a) == a,
{
}

/// The same tie-break for timeline edits.
pub proof fn lemma_tie_break_timeline(a: TimelineSegment, b: TimelineSegment, c: TimelineSegment)
    requires
        a.tag.timestamp == b.tag.timestamp,
        a.tag.editor > b.tag.editor,
        c.tag.timestamp < a.tag.timestamp,
    ensures
        merged_timeline(merged_timeline(c, a), b) == a,
        merged_timeline(merged_timeline(c, b), a) == a,
        merged_timeline(a, b) == a,
        merged_timeline(b, a) == a,
{
}

} // verus!
