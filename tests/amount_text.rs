use poolwatch::amount::Amount;
use poolwatch::command::{boo_reply, commands_in, party_reply, Command};
use poolwatch::decode::{
    decode_address_info, decode_block_row, decode_delegator_row, decode_pool_stats, decode_stake,
    find_column, Column, Value,
};
use poolwatch::messages::{render_blocks, render_blocks_batch, render_status};
use poolwatch::policy::StakePolicy;
use poolwatch::row::{BlockRow, PoolStats};
use poolwatch::store::FetchError;
use poolwatch::text::{show_amount, show_integer, shorten_address};

fn amt(mantissa: i128, scale: u32) -> Amount {
    Amount::from_parts(mantissa, scale).unwrap()
}

fn col(name: &str, value: Value) -> Column {
    Column { name: name.to_string(), value }
}

#[test]
fn from_parts_refuses_out_of_range() {
    assert!(Amount::from_parts(79228162514264337593543950335, 28).is_some());
    assert!(Amount::from_parts(79228162514264337593543950336, 0).is_none());
    assert!(Amount::from_parts(-79228162514264337593543950336, 0).is_none());
    assert!(Amount::from_parts(1, 29).is_none());
}

#[test]
fn subtraction_aligns_scales() {
    let d = amt(120000000, 2).checked_sub(&amt(1000000, 0)).unwrap();
    assert_eq!(d, amt(20000000, 2));
    let d = amt(15, 1).checked_sub(&amt(2255, 3)).unwrap();
    assert_eq!(d, amt(-755, 3));
}

#[test]
fn subtraction_beyond_range_is_none() {
    let max = 79228162514264337593543950335i128;
    assert!(amt(max, 0).checked_sub(&amt(-1, 0)).is_none());
    assert!(amt(max, 0).checked_sub(&amt(1, 28)).is_none());
    assert_eq!(amt(max, 0).checked_sub(&amt(1, 0)), Some(amt(max - 1, 0)));
}

#[test]
fn comparison_across_scales() {
    assert!(amt(1, 0).lt(&amt(11, 1)));
    assert!(!amt(11, 1).lt(&amt(1, 0)));
    assert!(!amt(10, 1).lt(&amt(1, 0)));
    assert!(amt(-79228162514264337593543950335, 0).lt(&amt(1, 28)));
    assert!(amt(1, 28).lt(&amt(79228162514264337593543950335, 0)));
    assert!(amt(0, 0).is_zero());
}

#[test]
fn policy_requires_low_below_high() {
    assert!(StakePolicy::new(amt(5, 0), amt(5, 0)).is_none());
    let p = StakePolicy::new(amt(-5, 0), amt(7, 0)).unwrap();
    assert!(p.is_significant(&amt(8, 0)));
    assert!(!p.is_significant(&amt(-5, 0)));
    assert!(p.is_significant(&amt(-51, 1)));
}

#[test]
fn amounts_are_grouped_by_thousands() {
    assert_eq!(show_amount(&amt(123456789, 2)), "1,234,567.89");
    assert_eq!(show_amount(&amt(-15000000, 2)), "-150,000.00");
    assert_eq!(show_amount(&amt(999, 0)), "999");
    assert_eq!(show_amount(&amt(5, 3)), "0.005");
}

#[test]
fn integers_are_written_in_decimal() {
    assert_eq!(show_integer(0), "0");
    assert_eq!(show_integer(-42), "-42");
    assert_eq!(show_integer(1234567), "1234567");
}

#[test]
fn addresses_are_cut_to_ten_characters() {
    assert_eq!(shorten_address("stake1u9abcdefgh"), "stake1u9ab");
    assert_eq!(shorten_address("short"), "short");
    assert_eq!(shorten_address(""), "");
}

#[test]
fn blocks_message_names_counts_and_epoch() {
    let row = BlockRow { epoch_no: 500, blocks_forged: 3 };
    assert_eq!(
        render_blocks(&row, "12"),
        "\u{2692}\u{fe0f}   3 / 12  blocks forged for epoch  500"
    );
    let all = render_blocks_batch(&vec![row, BlockRow { epoch_no: 501, blocks_forged: 1 }], "9");
    assert_eq!(all.len(), 2);
    assert_eq!(all[1], "\u{2692}\u{fe0f}   1 / 9  blocks forged for epoch  501");
}

#[test]
fn status_message_lists_figures() {
    let stats = PoolStats {
        live_stake: amt(1234567890, 2),
        live_saturation: amt(1234, 2),
        live_delegator_count: 321,
    };
    assert_eq!(
        render_status(&stats),
        "\u{2696}\u{fe0f}    BALNC Pool Statistics   \u{1f9d0}\n    \u{25ab}\u{fe0f}  Stake            12,345,678.90 \u{20b3}\n    \u{25ab}\u{fe0f}  Saturation    12.34 %\n    \u{25ab}\u{fe0f}  Delegates     321"
    );
}

#[test]
fn arrival_from_another_pool_names_it() {
    let info = poolwatch::row::AddressInfo {
        stake_address: "stake1xyzxyzxyzxyz".to_string(),
        ada_value: amt(2500000, 0),
        from_pool: "OLDPL".to_string(),
        to_pool: "BALNC".to_string(),
    };
    assert_eq!(
        poolwatch::messages::render_arrival(&info),
        "\u{2705}   2,500,000 \u{20b3}  Delegation Arriving   \u{1f44f} \n    \u{25ab}\u{fe0f}  Stake Address  stake1xyzx\n    \u{25ab}\u{fe0f}  From  OLDPL"
    );
}

#[test]
fn commands_are_found_anywhere() {
    assert_eq!(commands_in("hey !status and !party now"), vec![Command::Party, Command::Status]);
    assert_eq!(commands_in("!boo"), vec![Command::Boo]);
    assert_eq!(commands_in("nothing here ! party"), vec![]);
    assert_eq!(party_reply(), "\u{1f389}\u{1f38a}\u{1f973} let's PARTY!! \u{1f973}\u{1f38a}\u{1f389}");
    assert_eq!(boo_reply(), "\u{1f47b}  Booooo!!  \u{1f47b}");
}

#[test]
fn block_rows_decode_from_integer_columns() {
    let cols = vec![col("epoch_no", Value::Int(500)), col("blocks_forged", Value::Int(3))];
    assert_eq!(decode_block_row(&cols), Ok(BlockRow { epoch_no: 500, blocks_forged: 3 }));
    let missing = vec![col("epoch_no", Value::Int(500))];
    assert_eq!(decode_block_row(&missing), Err(FetchError::Decode));
    let wrong = vec![col("epoch_no", Value::Text("x".to_string())), col("blocks_forged", Value::Int(3))];
    assert_eq!(decode_block_row(&wrong), Err(FetchError::Decode));
}

#[test]
fn first_column_of_a_name_wins() {
    let cols = vec![col("a", Value::Int(1)), col("b", Value::Int(2)), col("a", Value::Int(3))];
    assert_eq!(find_column(&cols, "a"), Some(0));
    assert_eq!(find_column(&cols, "b"), Some(1));
    assert_eq!(find_column(&cols, "c"), None);
}

#[test]
fn delegator_and_stake_rows_decode() {
    let d = decode_delegator_row(&vec![col("addr_view", Value::Text("stake1q".to_string()))]).unwrap();
    assert_eq!(d.address, "stake1q");
    assert!(decode_delegator_row(&vec![col("addr_view", Value::Int(1))]).is_err());
    let rows = vec![vec![col("live_stake", Value::Decimal(amt(100, 2)))]];
    assert_eq!(decode_stake(&rows), Ok(amt(100, 2)));
    assert_eq!(decode_stake(&vec![]), Err(FetchError::Decode));
}

#[test]
fn address_and_stats_rows_decode() {
    let rows = vec![vec![
        col("stake_address", Value::Text("stake1abc".to_string())),
        col("ada_value", Value::Decimal(amt(1000, 0))),
        col("from_pool", Value::Text("".to_string())),
        col("to_pool", Value::Text("BALNC".to_string())),
    ]];
    let info = decode_address_info(&rows).unwrap();
    assert_eq!(info.stake_address, "stake1abc");
    assert_eq!(info.to_pool, "BALNC");
    assert!(decode_address_info(&vec![]).is_err());
    let stats = vec![vec![
        col("live_stake", Value::Decimal(amt(1000, 0))),
        col("live_saturation", Value::Decimal(amt(55, 1))),
        col("live_delegator_count", Value::Int(7)),
    ]];
    let s = decode_pool_stats(&stats).unwrap();
    assert_eq!(s.live_delegator_count, 7);
    assert!(decode_pool_stats(&vec![vec![]]).is_err());
}

#[test]
fn out_of_range_decimal_does_not_decode() {
    let bad = Amount { mantissa: 1, scale: 40 };
    let rows = vec![vec![col("live_stake", Value::Decimal(bad))]];
    assert_eq!(decode_stake(&rows), Err(FetchError::Decode));
}
