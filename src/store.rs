use vstd::prelude::*;
use crate::amount::Amount;
use crate::diff::{diff_rows, diff_stake, set_delta, stake_delta, SetDelta};
use crate::policy::{significant, StakeNotice, StakePolicy};
use crate::row::{views, BlockRow, DelegatorRow, Row};

verus! {

/// Why the data store could not give a snapshot.
#[derive(Clone, Copy, Debug, PartialEq, Eq, Structural)]
pub enum FetchError {
    /// The store could not be reached.
    Connection,
    /// A row could not be read as the feed's row shape.
    Decode,
}

/// Why a feed's cycle was abandoned; its baseline is then kept.
#[derive(Clone, Copy, Debug, PartialEq, Eq, Structural)]
pub enum CycleError {
    Fetch(FetchError),
    /// The change of the live stake is too large to hold as an amount.
    OutOfRange,
}

/// The baseline a set-style feed keeps after a cycle that fetched `cur`:
/// the fetched snapshot on a cold start or when something changed, else the
/// previous one.
pub open spec fn next_baseline<V>(prev: Seq<V>, cur: Seq<V>) -> Seq<V> {
    if prev.len() == 0 || set_delta(prev, cur).0.len() > 0 || set_delta(prev, cur).1.len() > 0 {
        cur
    } else {
        prev
    }
}

/// The outcome and the next baseline of one cycle of the live-stake feed.
/// The baseline moves only on a cold start or when a change is announced:
/// drift is measured from the last announced value, so small moves in one
/// direction add up until together they leave the buffer.
pub open spec fn stake_step(prev: Option<Amount>, fetched: Result<Amount, FetchError>, policy: StakePolicy) -> (
    Result<Option<StakeNotice>, CycleError>,
    Option<Amount>,
) {
    match fetched {
        Err(e) => (Err(CycleError::Fetch(e)), prev),
        Ok(cur) => match stake_delta(prev, cur) {
            Ok(None) => (Ok(None), if prev is None { Some(cur) } else { prev }),
            Ok(Some((m, s))) => {
                let change = Amount { mantissa: m as i128, scale: s as u32 };
                if significant(policy, change) {
                    (Ok(Some(StakeNotice { change })), Some(cur))
                } else {
                    (Ok(None), prev)
                }
            },
            Err(()) => (Err(CycleError::OutOfRange), prev),
        },
    }
}

/// One cycle of a set-style feed: the change against the baseline, with the
/// baseline moved on as `next_baseline` says. A failed fetch changes nothing.
/// The baseline is committed before any message goes out, so a failed
/// delivery is not retried on the next tick.
pub fn set_cycle<R: Row>(baseline: &mut Vec<R>, fetched: Result<Vec<R>, FetchError>) -> (r: Result<SetDelta<R>, CycleError>)
    ensures
        match fetched {
            Err(e) => r == Err::<SetDelta<R>, CycleError>(CycleError::Fetch(e)) && views(final(baseline)@) == views(old(baseline)@),
            Ok(cur) => r matches Ok(d) && (d.arrival_views(), d.departure_views()) == set_delta(views(old(baseline)@), views(cur@))
                && views(final(baseline)@) == next_baseline(views(old(baseline)@), views(cur@)),
        },
{
    match fetched {
        Err(e) => Err(CycleError::Fetch(e)),
        Ok(cur) => {
            let d = diff_rows(baseline, &cur);
            if baseline.len() == 0 || !d.is_empty() {
                *baseline = cur;
            }
            proof {
                if views(old(baseline)@).len() > 0 && !d.is_empty_spec() {
                    assert(d.arrival_views().len() > 0 || d.departure_views().len() > 0);
                }
                if !(views(old(baseline)@).len() == 0 || !d.is_empty_spec()) {
                    assert(d.arrival_views().len() == 0 && d.departure_views().len() == 0);
                }
            }
            Ok(d)
        },
    }
}

/// One cycle of the blocks feed: the rows newly forged, to be announced one
/// message each.
pub fn blocks_cycle(baseline: &mut Vec<BlockRow>, fetched: Result<Vec<BlockRow>, FetchError>) -> (r: Result<Vec<BlockRow>, CycleError>)
    ensures
        match fetched {
            Err(e) => r == Err::<Vec<BlockRow>, CycleError>(CycleError::Fetch(e)) && final(baseline)@ == old(baseline)@,
            Ok(cur) => r matches Ok(a) && a@ == set_delta(old(baseline)@, cur@).0
                && final(baseline)@ == next_baseline(old(baseline)@, cur@),
        },
{
    proof {
        lemma_block_views_are_rows(old(baseline)@);
        if fetched is Ok {
            lemma_block_views_are_rows(fetched->Ok_0@);
        }
    }
    match set_cycle(baseline, fetched) {
        Ok(d) => {
            proof {
                lemma_block_views_are_rows(d.arrivals@);
                lemma_block_views_are_rows(final(baseline)@);
            }
            Ok(d.arrivals)
        },
        Err(e) => {
            proof {
                lemma_block_views_are_rows(final(baseline)@);
            }
            Err(e)
        },
    }
}

proof fn lemma_block_views_are_rows(rows: Seq<BlockRow>)
    ensures
        views(rows) == rows,
{
    assert(views(rows) =~= rows);
}

/// One cycle of the delegator feed: the delegations that arrived and left.
pub fn delegators_cycle(baseline: &mut Vec<DelegatorRow>, fetched: Result<Vec<DelegatorRow>, FetchError>) -> (r: Result<SetDelta<DelegatorRow>, CycleError>)
    ensures
        match fetched {
            Err(e) => r is Err && r == Err::<SetDelta<DelegatorRow>, CycleError>(CycleError::Fetch(e))
                && views(final(baseline)@) == views(old(baseline)@),
            Ok(cur) => r matches Ok(d) && (d.arrival_views(), d.departure_views()) == set_delta(views(old(baseline)@), views(cur@))
                && views(final(baseline)@) == next_baseline(views(old(baseline)@), views(cur@)),
        },
{
    set_cycle(baseline, fetched)
}

/// One cycle of the live-stake feed, as `stake_step` says.
pub fn stake_cycle(baseline: &mut Option<Amount>, fetched: Result<Amount, FetchError>, policy: &StakePolicy) -> (r: Result<Option<StakeNotice>, CycleError>)
    requires
        *old(baseline) matches Some(p) ==> p.wf(),
        fetched matches Ok(c) ==> c.wf(),
        policy.wf(),
    ensures
        (r, *final(baseline)) == stake_step(*old(baseline), fetched, *policy),
        r matches Ok(Some(n)) ==> n.change.wf(),
{
    match fetched {
        Err(e) => Err(CycleError::Fetch(e)),
        Ok(cur) => match diff_stake(*baseline, cur) {
            Ok(None) => {
                if baseline.is_none() {
                    *baseline = Some(cur);
                }
                Ok(None)
            },
            Ok(Some(change)) => {
                if policy.is_significant(&change) {
                    *baseline = Some(cur);
                    Ok(Some(StakeNotice { change }))
                } else {
                    Ok(None)
                }
            },
            Err(()) => Err(CycleError::OutOfRange),
        },
    }
}

/// The last known snapshot of each feed, one slice per feed.
#[derive(Debug)]
pub struct SnapshotStore {
    pub blocks: Vec<BlockRow>,
    pub delegators: Vec<DelegatorRow>,
    pub stake: Option<Amount>,
}

/// What each feed's cycle of one tick came to.
#[derive(Debug)]
pub struct TickReport {
    pub blocks: Result<Vec<BlockRow>, CycleError>,
    pub delegators: Result<SetDelta<DelegatorRow>, CycleError>,
    pub stake: Result<Option<StakeNotice>, CycleError>,
}

impl SnapshotStore {
    pub open spec fn wf(&self) -> bool {
        self.stake matches Some(a) ==> a.wf()
    }

    /// A store before the first poll: every feed is cold.
    pub fn new() -> (r: SnapshotStore)
        ensures
            r.wf(),
            r.blocks@.len() == 0,
            r.delegators@.len() == 0,
            r.stake is None,
    {
        SnapshotStore { blocks: Vec::new(), delegators: Vec::new(), stake: None }
    }

    /// One tick: each feed's cycle runs on its own fetch result and its own
    /// slice, so a feed whose fetch failed leaves the others untouched.
    pub fn run_tick(
        &mut self,
        blocks: Result<Vec<BlockRow>, FetchError>,
        delegators: Result<Vec<DelegatorRow>, FetchError>,
        stake: Result<Amount, FetchError>,
        policy: &StakePolicy,
    ) -> (r: TickReport)
        requires
            old(self).wf(),
            stake matches Ok(c) ==> c.wf(),
            policy.wf(),
        ensures
            final(self).wf(),
            match blocks {
                Err(e) => r.blocks == Err::<Vec<BlockRow>, CycleError>(CycleError::Fetch(e))
                    && final(self).blocks@ == old(self).blocks@,
                Ok(cur) => r.blocks matches Ok(a) && a@ == set_delta(old(self).blocks@, cur@).0
                    && final(self).blocks@ == next_baseline(old(self).blocks@, cur@),
            },
            match delegators {
                Err(e) => r.delegators is Err && views(final(self).delegators@) == views(old(self).delegators@),
                Ok(cur) => r.delegators matches Ok(d) && (d.arrival_views(), d.departure_views()) == set_delta(
                    views(old(self).delegators@),
                    views(cur@),
                ) && views(final(self).delegators@) == next_baseline(views(old(self).delegators@), views(cur@)),
            },
            (r.stake, final(self).stake) == stake_step(old(self).stake, stake, *policy),
    {
        let b = blocks_cycle(&mut self.blocks, blocks);
        let d = delegators_cycle(&mut self.delegators, delegators);
        let s = stake_cycle(&mut self.stake, stake, policy);
        TickReport { blocks: b, delegators: d, stake: s }
    }
}

} // verus!
