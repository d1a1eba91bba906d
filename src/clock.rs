//! The clock domain: offset estimation between host time and ghost time.
use vstd::prelude::*;

verus! {

/// The largest correction of the offset applied in one update, in microseconds.
pub const MAX_SLEW: i64 = 1_000;

/// One two-way exchange with a peer: our send time `t0`, the peer's receive time
/// `t1`, the peer's send time `t2` and our receive time `t3`, all in microseconds.
#[derive(Clone, Copy, Debug, PartialEq, Eq, Structural)]
pub struct Probe {
    pub t0: i64,
    pub t1: i64,
    pub t2: i64,
    pub t3: i64,
}

impl Probe {
    /// The offset of the peer's clock from ours that this exchange suggests.
    pub open spec fn offset_spec(self) -> int {
        ((self.t1 - self.t0) - (self.t3 - self.t2)) / 2
    }

    /// The round-trip time spent on the network.
    pub open spec fn rtt_spec(self) -> int {
        (self.t3 - self.t0) - (self.t2 - self.t1)
    }

    /// The values fit the offset and round-trip types.
    pub open spec fn fits(self) -> bool {
        i64::MIN <= self.offset_spec() <= i64::MAX && i64::MIN <= self.rtt_spec() <= i64::MAX
    }

    /// `((t1 - t0) - (t3 - t2)) / 2`, rounded down.
    pub fn offset(&self) -> (r: i64)
        requires
            self.fits(),
        ensures
            r == self.offset_spec(),
    {
        let n: i128 = ((self.t1 as i128) - (self.t0 as i128)) - ((self.t3 as i128) - (self.t2 as i128));
        let r: i128 = if n >= 0 { n / 2 } else { -((-n + 1) / 2) };
        r as i64
    }

    /// `(t3 - t0) - (t2 - t1)`.
    pub fn rtt(&self) -> (r: i64)
        requires
            self.fits(),
        ensures
            r == self.rtt_spec(),
    {
        (((self.t3 as i128) - (self.t0 as i128)) - ((self.t2 as i128) - (self.t1 as i128))) as i64
    }
}

/// Every probe's values fit.
pub open spec fn all_fit(probes: Seq<Probe>) -> bool {
    forall|i: int| 0 <= i < probes.len() ==> #[trigger] probes[i].fits()
}

/// The index of the first probe with the least round-trip time, if any.
pub fn best_probe(probes: &Vec<Probe>) -> (r: Option<usize>)
    requires
        all_fit(probes@),
    ensures
        r.is_none() <==> probes@.len() == 0,
        r matches Some(b) ==> b < probes@.len() && (forall|j: int|
            0 <= j < probes@.len() ==> probes@[b as int].rtt_spec() <= #[trigger] probes@[j].rtt_spec())
            && (forall|j: int| 0 <= j < b ==> probes@[b as int].rtt_spec() < #[trigger] probes@[j].rtt_spec()),
{
    if probes.len() == 0 {
        return None;
    }
    let mut best: usize = 0;
    let mut i: usize = 1;
    while i < probes.len()
        invariant
            all_fit(probes@),
            1 <= i <= probes@.len(),
            best < i,
            forall|j: int| 0 <= j < i ==> probes@[best as int].rtt_spec() <= #[trigger] probes@[j].rtt_spec(),
            forall|j: int| 0 <= j < best ==> probes@[best as int].rtt_spec() < #[trigger] probes@[j].rtt_spec(),
        decreases probes@.len() - i,
    {
        if probes[i].rtt() < probes[best].rtt() {
            best = i;
        }
        i = i + 1;
    }
    Some(best)
}

/// The step from `current` toward `target`: half the distance, rounded away from
/// zero, and at most `MAX_SLEW` either way.
pub open spec fn slew_step(current: int, target: int) -> int {
    let d = target - current;
    let half = if d >= 0 { (d + 1) / 2 } else { -((1 - d) / 2) };
    if half > MAX_SLEW { MAX_SLEW as int } else if half < -MAX_SLEW { -MAX_SLEW } else { half }
}

/// The local-to-ghost offset of one peer.
#[derive(Clone, Copy, Debug, PartialEq, Eq, Structural)]
pub struct ClockDomain {
    pub offset: i64,
}

impl ClockDomain {
    /// A clock domain whose ghost time is host time shifted by `offset`.
    pub fn new(offset: i64) -> (r: ClockDomain)
        ensures
            r.offset == offset,
    {
        ClockDomain { offset }
    }

    /// Host time to ghost time: `host + offset`.
    pub fn host_to_ghost(&self, host: i64) -> (r: i64)
        requires
            i64::MIN <= host + self.offset <= i64::MAX,
        ensures
            r == host + self.offset,
    {
        host + self.offset
    }

    /// Ghost time to host time: `ghost - offset`.
    pub fn ghost_to_host(&self, ghost: i64) -> (r: i64)
        requires
            i64::MIN <= ghost - self.offset <= i64::MAX,
        ensures
            r == ghost - self.offset,
    {
        ghost - self.offset
    }

    /// Moves the offset toward `target` by `slew_step`, so that a large correction
    /// is spread over several updates and never jumps by more than `MAX_SLEW`.
    pub fn slew_toward(&mut self, target: i64)
        ensures
            final(self).offset == old(self).offset + slew_step(old(self).offset as int, target as int),
            -MAX_SLEW <= final(self).offset - old(self).offset <= MAX_SLEW,
            old(self).offset <= target ==> old(self).offset <= final(self).offset <= target,
            target <= old(self).offset ==> target <= final(self).offset <= old(self).offset,
    {
        let d: i128 = (target as i128) - (self.offset as i128);
        let half: i128 = if d >= 0 { (d + 1) / 2 } else { -((1 - d) / 2) };
        let step: i128 = if half > MAX_SLEW as i128 {
            MAX_SLEW as i128
        } else if half < -(MAX_SLEW as i128) {
            -(MAX_SLEW as i128)
        } else {
            half
        };
        self.offset = (self.offset as i128 + step) as i64;
    }

    /// Moves the offset toward the estimate of the probe with the least round-trip
    /// time; leaves it as it is when there are no probes.
    pub fn update(&mut self, probes: &Vec<Probe>)
        requires
            all_fit(probes@),
        ensures
            probes@.len() == 0 ==> *final(self) == *old(self),
            probes@.len() > 0 ==> exists|b: int|
                0 <= b < probes@.len() && (forall|j: int|
                    0 <= j < probes@.len() ==> probes@[b].rtt_spec() <= #[trigger] probes@[j].rtt_spec())
                    && final(self).offset == old(self).offset + slew_step(
                    old(self).offset as int,
                    #[trigger] probes@[b].offset_spec(),
                ),
    {
        match best_probe(probes) {
            None => {},
            Some(b) => {
                let target = probes[b].offset();
                self.slew_toward(target);
            },
        }
    }
}

} // verus!
