use vstd::prelude::*;
use vstd::string::*;
use crate::row::{AddressInfo, BlockRow, PoolStats};
use crate::text::{amount_shown, int_text, short_address, show_amount, show_integer, shorten_address};

verus! {

/// The announcement of blocks forged in an epoch, out of the slots assigned.
pub open spec fn blocks_text(forged: Seq<char>, slots: Seq<char>, epoch: Seq<char>) -> Seq<char> {
    "\u{2692}\u{fe0f}   "@ + forged + " / "@ + slots + "  blocks forged for epoch  "@ + epoch
}

/// The announcement of a delegation leaving the pool.
pub open spec fn departure_text(ada: Seq<char>, address: Seq<char>, to_pool: Seq<char>) -> Seq<char> {
    "\u{274c}   "@ + ada + " \u{20b3}  Delegation Departing   \u{1f64f}\n    \u{25ab}\u{fe0f}  Stake Address  "@
        + address + "\n    \u{25ab}\u{fe0f}  To  "@ + to_pool
}

/// The announcement of a delegation arriving; it names the pool it came
/// from when there is one.
pub open spec fn arrival_text(ada: Seq<char>, address: Seq<char>, from_pool: Seq<char>) -> Seq<char> {
    let head = "\u{2705}   "@ + ada + " \u{20b3}  Delegation Arriving   \u{1f44f} \n    \u{25ab}\u{fe0f}  Stake Address  "@
        + address;
    if from_pool.len() == 0 {
        head
    } else {
        head + "\n    \u{25ab}\u{fe0f}  From  "@ + from_pool
    }
}

/// The announcement of a significant move of the live stake.
pub open spec fn stake_text(increased: bool, change: Seq<char>) -> Seq<char> {
    if increased {
        "\u{2705}   Live Stake   \u{2b06}\u{fe0f}   "@ + change + " \u{20b3}"@
    } else {
        "\u{274c}   Live Stake   \u{2b07}\u{fe0f}   "@ + change + " \u{20b3}"@
    }
}

/// The answer to the status command.
pub open spec fn status_text(stake: Seq<char>, saturation: Seq<char>, delegates: Seq<char>) -> Seq<char> {
    "\u{2696}\u{fe0f}    BALNC Pool Statistics   \u{1f9d0}\n    \u{25ab}\u{fe0f}  Stake            "@ + stake
        + " \u{20b3}\n    \u{25ab}\u{fe0f}  Saturation    "@ + saturation + " %\n    \u{25ab}\u{fe0f}  Delegates     "@
        + delegates
}

pub fn blocks_message(forged: &str, slots: &str, epoch: &str) -> (r: String)
    ensures
        r@ == blocks_text(forged@, slots@, epoch@),
{
    let mut m = String::from_str("\u{2692}\u{fe0f}   ");
    m.append(forged);
    m.append(" / ");
    m.append(slots);
    m.append("  blocks forged for epoch  ");
    m.append(epoch);
    m
}

pub fn departure_message(ada: &str, address: &str, to_pool: &str) -> (r: String)
    ensures
        r@ == departure_text(ada@, address@, to_pool@),
{
    let mut m = String::from_str("\u{274c}   ");
    m.append(ada);
    m.append(" \u{20b3}  Delegation Departing   \u{1f64f}\n    \u{25ab}\u{fe0f}  Stake Address  ");
    m.append(address);
    m.append("\n    \u{25ab}\u{fe0f}  To  ");
    m.append(to_pool);
    m
}

pub fn arrival_message(ada: &str, address: &str, from_pool: &str) -> (r: String)
    ensures
        r@ == arrival_text(ada@, address@, from_pool@),
{
    let mut m = String::from_str("\u{2705}   ");
    m.append(ada);
    m.append(" \u{20b3}  Delegation Arriving   \u{1f44f} \n    \u{25ab}\u{fe0f}  Stake Address  ");
    m.append(address);
    if from_pool.unicode_len() != 0 {
        m.append("\n    \u{25ab}\u{fe0f}  From  ");
        m.append(from_pool);
    }
    m
}

pub fn stake_message(increased: bool, change: &str) -> (r: String)
    ensures
        r@ == stake_text(increased, change@),
{
    let mut m = if increased {
        String::from_str("\u{2705}   Live Stake   \u{2b06}\u{fe0f}   ")
    } else {
        String::from_str("\u{274c}   Live Stake   \u{2b07}\u{fe0f}   ")
    };
    m.append(change);
    m.append(" \u{20b3}");
    m
}

pub fn status_message(stake: &str, saturation: &str, delegates: &str) -> (r: String)
    ensures
        r@ == status_text(stake@, saturation@, delegates@),
{
    let mut m = String::from_str(
        "\u{2696}\u{fe0f}    BALNC Pool Statistics   \u{1f9d0}\n    \u{25ab}\u{fe0f}  Stake            ",
    );
    m.append(stake);
    m.append(" \u{20b3}\n    \u{25ab}\u{fe0f}  Saturation    ");
    m.append(saturation);
    m.append(" %\n    \u{25ab}\u{fe0f}  Delegates     ");
    m.append(delegates);
    m
}

/// The message for one newly forged row of blocks.
pub fn render_blocks(row: &BlockRow, slots_assigned: &str) -> (r: String)
    ensures
        r@ == blocks_text(int_text(row.blocks_forged as int), slots_assigned@, int_text(row.epoch_no as int)),
{
    let forged = show_integer(row.blocks_forged);
    let epoch = show_integer(row.epoch_no);
    blocks_message(forged.as_str(), slots_assigned, epoch.as_str())
}

/// One message for each newly forged row, in order.
pub fn render_blocks_batch(rows: &Vec<BlockRow>, slots_assigned: &str) -> (r: Vec<String>)
    ensures
        r@.len() == rows@.len(),
        forall|i: int|
            0 <= i < rows@.len() ==> (#[trigger] r@[i])@ == blocks_text(
                int_text(rows@[i].blocks_forged as int),
                slots_assigned@,
                int_text(rows@[i].epoch_no as int),
            ),
{
    let mut out: Vec<String> = Vec::new();
    let mut i: usize = 0;
    while i < rows.len()
        invariant
            i <= rows.len(),
            out@.len() == i,
            forall|j: int|
                0 <= j < i ==> (#[trigger] out@[j])@ == blocks_text(
                    int_text(rows@[j].blocks_forged as int),
                    slots_assigned@,
                    int_text(rows@[j].epoch_no as int),
                ),
        decreases rows.len() - i,
    {
        out.push(render_blocks(&rows[i], slots_assigned));
        i = i + 1;
    }
    out
}

/// The message for a delegation that left.
pub fn render_departure(info: &AddressInfo) -> (r: String)
    requires
        info.ada_value.wf(),
    ensures
        r@ == departure_text(
            amount_shown(info.ada_value),
            short_address(info.stake_address@),
            info.to_pool@,
        ),
{
    let ada = show_amount(&info.ada_value);
    let address = shorten_address(info.stake_address.as_str());
    departure_message(ada.as_str(), address.as_str(), info.to_pool.as_str())
}

/// The message for a delegation that arrived.
pub fn render_arrival(info: &AddressInfo) -> (r: String)
    requires
        info.ada_value.wf(),
    ensures
        r@ == arrival_text(
            amount_shown(info.ada_value),
            short_address(info.stake_address@),
            info.from_pool@,
        ),
{
    let ada = show_amount(&info.ada_value);
    let address = shorten_address(info.stake_address.as_str());
    arrival_message(ada.as_str(), address.as_str(), info.from_pool.as_str())
}

/// The answer to the status command.
pub fn render_status(stats: &PoolStats) -> (r: String)
    requires
        stats.live_stake.wf(),
        stats.live_saturation.wf(),
    ensures
        r@ == status_text(
            amount_shown(stats.live_stake),
            amount_shown(stats.live_saturation),
            int_text(stats.live_delegator_count as int),
        ),
{
    let stake = show_amount(&stats.live_stake);
    let saturation = show_amount(&stats.live_saturation);
    let delegates = show_integer(stats.live_delegator_count);
    status_message(stake.as_str(), saturation.as_str(), delegates.as_str())
}

} // verus!
