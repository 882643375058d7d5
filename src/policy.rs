use vstd::prelude::*;
use crate::amount::{less, Amount};
use crate::messages::{stake_message, stake_text};
use crate::text::{amount_shown, show_amount};

verus! {

/// The buffer within which a move of the live stake is noise: a change is
/// reported only when it is strictly below `low` or strictly above `high`.
#[derive(Clone, Copy, Debug, PartialEq, Eq, Structural)]
pub struct StakePolicy {
    pub low: Amount,
    pub high: Amount,
}

/// Whether a change of the live stake is worth a message.
pub open spec fn significant(policy: StakePolicy, change: Amount) -> bool {
    less(change, policy.low) || less(policy.high, change)
}

impl StakePolicy {
    pub open spec fn wf(self) -> bool {
        &&& self.low.wf()
        &&& self.high.wf()
        &&& less(self.low, self.high)
    }

    /// The buffer of 100,000.00 either side that the pool uses.
    pub fn standard() -> (r: StakePolicy)
        ensures
            r.wf(),
            r.low.mantissa == -10000000 && r.low.scale == 2,
            r.high.mantissa == 10000000 && r.high.scale == 2,
    {
        let r = StakePolicy {
            low: Amount { mantissa: -10000000, scale: 2 },
            high: Amount { mantissa: 10000000, scale: 2 },
        };
        proof {
            crate::amount::lemma_pow10_grows(0, 0);
            assert(r.low.mantissa * crate::amount::pow10(0) == -10000000);
            assert(r.high.mantissa * crate::amount::pow10(0) == 10000000);
        }
        r
    }

    /// A policy from its two bounds; `None` unless `low < high`.
    pub fn new(low: Amount, high: Amount) -> (r: Option<StakePolicy>)
        requires
            low.wf(),
            high.wf(),
        ensures
            r is Some <==> less(low, high),
            r matches Some(p) ==> p.low == low && p.high == high,
    {
        if low.lt(&high) {
            Some(StakePolicy { low, high })
        } else {
            None
        }
    }

    /// Whether the change leaves the buffer.
    pub fn is_significant(&self, change: &Amount) -> (r: bool)
        requires
            self.wf(),
            change.wf(),
        ensures
            r == significant(*self, *change),
    {
        change.lt(&self.low) || self.high.lt(change)
    }
}

/// A move of the live stake to be announced.
#[derive(Clone, Copy, Debug, PartialEq, Eq, Structural)]
pub struct StakeNotice {
    pub change: Amount,
}

impl StakeNotice {
    pub open spec fn increased(self) -> bool {
        self.change.mantissa > 0
    }
}

/// The message for a significant move of the live stake.
pub fn render_stake(notice: &StakeNotice) -> (r: String)
    requires
        notice.change.wf(),
    ensures
        r@ == stake_text(notice.increased(), amount_shown(notice.change)),
{
    let change = show_amount(&notice.change);
    stake_message(notice.change.mantissa > 0, change.as_str())
}

/// A change of exactly a bound of the buffer is noise: both bounds belong
/// to the buffer.
pub proof fn law_bounds_are_noise(policy: StakePolicy)
    requires
        policy.wf(),
    ensures
        !significant(policy, policy.high),
        !significant(policy, policy.low),
{
}

} // verus!
