use poolwatch::amount::Amount;
use poolwatch::diff::{diff_rows, diff_stake, SetDelta};
use poolwatch::policy::{render_stake, StakeNotice, StakePolicy};
use poolwatch::row::{AddressInfo, BlockRow, DelegatorRow};
use poolwatch::messages::{render_arrival, render_departure};
use poolwatch::store::{
    blocks_cycle, delegators_cycle, stake_cycle, CycleError, FetchError, SnapshotStore,
};

fn amt(mantissa: i128, scale: u32) -> Amount {
    Amount::from_parts(mantissa, scale).unwrap()
}

fn delegator(a: &str) -> DelegatorRow {
    DelegatorRow { address: a.to_string() }
}

fn addresses(rows: &[DelegatorRow]) -> Vec<String> {
    rows.iter().map(|r| r.address.clone()).collect()
}

fn block(epoch_no: i64, blocks_forged: i64) -> BlockRow {
    BlockRow { epoch_no, blocks_forged }
}

#[test]
fn cold_start_set_feed_reports_nothing() {
    let prev: Vec<DelegatorRow> = vec![];
    let cur = vec![delegator("stake1a"), delegator("stake1b")];
    let d: SetDelta<DelegatorRow> = diff_rows(&prev, &cur);
    assert!(d.arrivals.is_empty());
    assert!(d.departures.is_empty());
}

#[test]
fn cold_start_scalar_feed_reports_nothing() {
    assert_eq!(diff_stake(None, amt(100000000, 2)), Ok(None));
}

#[test]
fn cold_start_cycle_takes_fetched_snapshot_as_baseline() {
    let mut baseline: Vec<BlockRow> = vec![];
    let r = blocks_cycle(&mut baseline, Ok(vec![block(500, 3)]));
    assert_eq!(r, Ok(vec![]));
    assert_eq!(baseline, vec![block(500, 3)]);
}

#[test]
fn unchanged_snapshot_reports_nothing() {
    let s = vec![block(500, 3), block(501, 1)];
    let d = diff_rows(&s, &s);
    assert!(d.arrivals.is_empty());
    assert!(d.departures.is_empty());
    assert_eq!(diff_stake(Some(amt(123456, 2)), amt(123456, 2)), Ok(None));
}

#[test]
fn arrivals_and_departures_are_disjoint_and_rebuild_current() {
    let prev = vec![block(500, 3), block(501, 1), block(502, 0)];
    let cur = vec![block(500, 3), block(501, 2), block(502, 0), block(503, 0)];
    let d = diff_rows(&prev, &cur);
    assert_eq!(d.arrivals, vec![block(501, 2), block(503, 0)]);
    assert_eq!(d.departures, vec![block(501, 1)]);
    for a in &d.arrivals {
        assert!(!d.departures.contains(a));
    }
    let mut rebuilt: Vec<BlockRow> =
        prev.iter().filter(|r| !d.departures.contains(r)).cloned().collect();
    rebuilt.extend(d.arrivals.iter().cloned());
    rebuilt.sort_by_key(|r| (r.epoch_no, r.blocks_forged));
    let mut expected = cur.clone();
    expected.sort_by_key(|r| (r.epoch_no, r.blocks_forged));
    assert_eq!(rebuilt, expected);
}

#[test]
fn boundary_of_buffer_is_noise() {
    let p = StakePolicy::standard();
    assert!(!p.is_significant(&amt(10000000, 2)));
    assert!(!p.is_significant(&amt(-10000000, 2)));
    assert!(!p.is_significant(&amt(100000, 0)));
    assert!(p.is_significant(&amt(10000001, 2)));
    assert!(p.is_significant(&amt(-10000001, 2)));
    assert!(p.is_significant(&amt(1000000001, 4)));
}

#[test]
fn roster_change_gives_one_departure_and_one_arrival() {
    let mut baseline = vec![delegator("stake1aaaaaaaaaaaa"), delegator("stake1bbbbbbbbbbbb")];
    let cur = vec![delegator("stake1bbbbbbbbbbbb"), delegator("stake1cccccccccccc")];
    let d = delegators_cycle(&mut baseline, Ok(cur)).unwrap();
    assert_eq!(addresses(&d.departures), vec!["stake1aaaaaaaaaaaa".to_string()]);
    assert_eq!(addresses(&d.arrivals), vec!["stake1cccccccccccc".to_string()]);
    assert_eq!(
        addresses(&baseline),
        vec!["stake1bbbbbbbbbbbb".to_string(), "stake1cccccccccccc".to_string()]
    );

    let left = AddressInfo {
        stake_address: "stake1aaaaaaaaaaaa".to_string(),
        ada_value: amt(123456789, 2),
        from_pool: "".to_string(),
        to_pool: "OTHER".to_string(),
    };
    let came = AddressInfo {
        stake_address: "stake1cccccccccccc".to_string(),
        ada_value: amt(5000, 0),
        from_pool: "".to_string(),
        to_pool: "BALNC".to_string(),
    };
    let messages = vec![render_departure(&left), render_arrival(&came)];
    assert_eq!(messages.len(), 2);
    assert_eq!(
        messages[0],
        "\u{274c}   1,234,567.89 \u{20b3}  Delegation Departing   \u{1f64f}\n    \u{25ab}\u{fe0f}  Stake Address  stake1aaaa\n    \u{25ab}\u{fe0f}  To  OTHER"
    );
    assert_eq!(
        messages[1],
        "\u{2705}   5,000 \u{20b3}  Delegation Arriving   \u{1f44f} \n    \u{25ab}\u{fe0f}  Stake Address  stake1cccc"
    );
}

#[test]
fn small_stake_move_is_noise_and_keeps_baseline() {
    let mut baseline = Some(amt(100000000, 2));
    let r = stake_cycle(&mut baseline, Ok(amt(100005000, 2)), &StakePolicy::standard());
    assert_eq!(r, Ok(None));
    assert_eq!(baseline, Some(amt(100000000, 2)));
}

#[test]
fn large_stake_rise_is_announced_and_moves_baseline() {
    let mut baseline = Some(amt(100000000, 2));
    let r = stake_cycle(&mut baseline, Ok(amt(120000000, 2)), &StakePolicy::standard());
    let notice = r.unwrap().unwrap();
    assert_eq!(notice, StakeNotice { change: amt(20000000, 2) });
    assert_eq!(
        render_stake(&notice),
        "\u{2705}   Live Stake   \u{2b06}\u{fe0f}   200,000.00 \u{20b3}"
    );
    assert_eq!(baseline, Some(amt(120000000, 2)));
}

#[test]
fn large_stake_fall_is_announced() {
    let mut baseline = Some(amt(100000000, 2));
    let r = stake_cycle(&mut baseline, Ok(amt(85000000, 2)), &StakePolicy::standard());
    let notice = r.unwrap().unwrap();
    assert_eq!(
        render_stake(&notice),
        "\u{274c}   Live Stake   \u{2b07}\u{fe0f}   -150,000.00 \u{20b3}"
    );
    assert_eq!(baseline, Some(amt(85000000, 2)));
}

#[test]
fn failed_blocks_fetch_leaves_other_feeds_running() {
    let mut store = SnapshotStore::new();
    store.blocks = vec![block(500, 3)];
    store.delegators = vec![delegator("stake1a")];
    store.stake = Some(amt(100000000, 2));
    let report = store.run_tick(
        Err(FetchError::Connection),
        Ok(vec![delegator("stake1a"), delegator("stake1b")]),
        Ok(amt(120000000, 2)),
        &StakePolicy::standard(),
    );
    assert_eq!(report.blocks, Err(CycleError::Fetch(FetchError::Connection)));
    assert_eq!(store.blocks, vec![block(500, 3)]);
    let d = report.delegators.unwrap();
    assert_eq!(addresses(&d.arrivals), vec!["stake1b".to_string()]);
    assert!(d.departures.is_empty());
    assert_eq!(addresses(&store.delegators), vec!["stake1a".to_string(), "stake1b".to_string()]);
    assert_eq!(report.stake, Ok(Some(StakeNotice { change: amt(20000000, 2) })));
    assert_eq!(store.stake, Some(amt(120000000, 2)));
}

#[test]
fn failed_stake_fetch_keeps_baseline() {
    let mut baseline = Some(amt(100000000, 2));
    let r = stake_cycle(&mut baseline, Err(FetchError::Decode), &StakePolicy::standard());
    assert_eq!(r, Err(CycleError::Fetch(FetchError::Decode)));
    assert_eq!(baseline, Some(amt(100000000, 2)));
}

#[test]
fn out_of_range_stake_change_aborts_cycle() {
    let max = 79228162514264337593543950335i128;
    let mut baseline = Some(amt(-max, 0));
    let r = stake_cycle(&mut baseline, Ok(amt(max, 0)), &StakePolicy::standard());
    assert_eq!(r, Err(CycleError::OutOfRange));
    assert_eq!(baseline, Some(amt(-max, 0)));
}

#[test]
fn unchanged_rows_keep_baseline() {
    let mut baseline = vec![block(500, 3), block(501, 1)];
    let r = blocks_cycle(&mut baseline, Ok(vec![block(501, 1), block(500, 3)]));
    assert_eq!(r, Ok(vec![]));
    assert_eq!(baseline, vec![block(500, 3), block(501, 1)]);
}

#[test]
fn new_block_row_replaces_baseline() {
    let mut baseline = vec![block(500, 3)];
    let r = blocks_cycle(&mut baseline, Ok(vec![block(500, 4)]));
    assert_eq!(r, Ok(vec![block(500, 4)]));
    assert_eq!(baseline, vec![block(500, 4)]);
}
