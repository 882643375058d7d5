use vstd::prelude::*;
use vstd::string::*;
use crate::amount::Amount;
use crate::row::{AddressInfo, BlockRow, DelegatorRow, PoolStats};
use crate::store::FetchError;

verus! {

/// A value read from a column of the data store.
#[derive(Debug)]
pub enum Value {
    Int(i64),
    Text(String),
    Decimal(Amount),
}

/// A named column of a row as the data store returns it.
#[derive(Debug)]
pub struct Column {
    pub name: String,
    pub value: Value,
}

/// Column `i` is the first one named `name`.
pub open spec fn is_first_named(cols: Seq<Column>, name: Seq<char>, i: int) -> bool {
    &&& 0 <= i < cols.len()
    &&& cols[i].name@ == name
    &&& forall|j: int| 0 <= j < i ==> (#[trigger] cols[j]).name@ != name
}

/// The index of the first column named `name`, if any.
pub open spec fn column_at(cols: Seq<Column>, name: Seq<char>) -> Option<int> {
    if exists|i: int| is_first_named(cols, name, i) {
        Some(choose|i: int| is_first_named(cols, name, i))
    } else {
        None
    }
}

/// The integer in the first column named `name`.
pub open spec fn int_column(cols: Seq<Column>, name: Seq<char>) -> Option<i64> {
    match column_at(cols, name) {
        Some(i) => match cols[i].value {
            Value::Int(n) => Some(n),
            _ => None,
        },
        None => None,
    }
}

/// The text in the first column named `name`.
pub open spec fn text_column(cols: Seq<Column>, name: Seq<char>) -> Option<Seq<char>> {
    match column_at(cols, name) {
        Some(i) => match cols[i].value {
            Value::Text(t) => Some(t@),
            _ => None,
        },
        None => None,
    }
}

/// The decimal in the first column named `name`, when it is in range.
pub open spec fn decimal_column(cols: Seq<Column>, name: Seq<char>) -> Option<Amount> {
    match column_at(cols, name) {
        Some(i) => match cols[i].value {
            Value::Decimal(a) => if a.wf() { Some(a) } else { None },
            _ => None,
        },
        None => None,
    }
}

proof fn lemma_first_is_unique(cols: Seq<Column>, name: Seq<char>, i: int, j: int)
    requires
        is_first_named(cols, name, i),
        is_first_named(cols, name, j),
    ensures
        i == j,
{
    if i < j {
        assert(cols[i].name@ != name);
    } else if j < i {
        assert(cols[j].name@ != name);
    }
}

/// The index of the first column named `name`.
pub fn find_column(cols: &Vec<Column>, name: &str) -> (r: Option<usize>)
    ensures
        match r {
            Some(i) => column_at(cols@, name@) == Some(i as int),
            None => column_at(cols@, name@) is None,
        },
{
    let wanted = String::from_str(name);
    let mut i: usize = 0;
    while i < cols.len()
        invariant
            i <= cols.len(),
            wanted@ == name@,
            forall|j: int| 0 <= j < i ==> (#[trigger] cols@[j]).name@ != name@,
        decreases cols.len() - i,
    {
        if cols[i].name == wanted {
            proof {
                assert(is_first_named(cols@, name@, i as int));
                let k = choose|k: int| is_first_named(cols@, name@, k);
                lemma_first_is_unique(cols@, name@, i as int, k);
            }
            return Some(i);
        }
        i = i + 1;
    }
    proof {
        if exists|k: int| is_first_named(cols@, name@, k) {
            let k = choose|k: int| is_first_named(cols@, name@, k);
            assert(cols@[k].name@ != name@);
        }
    }
    None
}

/// The integer in the first column named `name`.
pub fn get_int(cols: &Vec<Column>, name: &str) -> (r: Option<i64>)
    ensures
        r == int_column(cols@, name@),
{
    match find_column(cols, name) {
        Some(i) => match &cols[i].value {
            Value::Int(n) => Some(*n),
            _ => None,
        },
        None => None,
    }
}

/// The text in the first column named `name`.
pub fn get_text(cols: &Vec<Column>, name: &str) -> (r: Option<String>)
    ensures
        match (r, text_column(cols@, name@)) {
            (Some(t), Some(u)) => t@ == u,
            (None, None) => true,
            _ => false,
        },
{
    match find_column(cols, name) {
        Some(i) => match &cols[i].value {
            Value::Text(t) => Some(t.clone()),
            _ => None,
        },
        None => None,
    }
}

/// The decimal in the first column named `name`, when it is in range.
pub fn get_decimal(cols: &Vec<Column>, name: &str) -> (r: Option<Amount>)
    ensures
        r == decimal_column(cols@, name@),
{
    match find_column(cols, name) {
        Some(i) => match &cols[i].value {
            Value::Decimal(a) => Amount::from_parts(a.mantissa, a.scale),
            _ => None,
        },
        None => None,
    }
}

/// A row of the blocks feed: integer columns `epoch_no` and `blocks_forged`.
pub fn decode_block_row(cols: &Vec<Column>) -> (r: Result<BlockRow, FetchError>)
    ensures
        match (int_column(cols@, "epoch_no"@), int_column(cols@, "blocks_forged"@)) {
            (Some(e), Some(b)) => r == Ok::<BlockRow, FetchError>(BlockRow { epoch_no: e, blocks_forged: b }),
            _ => r == Err::<BlockRow, FetchError>(FetchError::Decode),
        },
{
    match (get_int(cols, "epoch_no"), get_int(cols, "blocks_forged")) {
        (Some(epoch_no), Some(blocks_forged)) => Ok(BlockRow { epoch_no, blocks_forged }),
        _ => Err(FetchError::Decode),
    }
}

/// A row of the delegator feed: the text column `addr_view`.
pub fn decode_delegator_row(cols: &Vec<Column>) -> (r: Result<DelegatorRow, FetchError>)
    ensures
        match text_column(cols@, "addr_view"@) {
            Some(a) => r matches Ok(d) && d.address@ == a,
            None => r == Err::<DelegatorRow, FetchError>(FetchError::Decode),
        },
{
    match get_text(cols, "addr_view") {
        Some(address) => Ok(DelegatorRow { address }),
        None => Err(FetchError::Decode),
    }
}

/// The live stake: the decimal column `live_stake` of the first row.
pub fn decode_stake(rows: &Vec<Vec<Column>>) -> (r: Result<Amount, FetchError>)
    ensures
        match (if rows@.len() == 0 { None } else { decimal_column(rows@[0]@, "live_stake"@) }) {
            Some(a) => r == Ok::<Amount, FetchError>(a),
            None => r == Err::<Amount, FetchError>(FetchError::Decode),
        },
{
    if rows.len() == 0 {
        return Err(FetchError::Decode);
    }
    match get_decimal(&rows[0], "live_stake") {
        Some(a) => Ok(a),
        None => Err(FetchError::Decode),
    }
}

/// What the data store says of one stake address, from the first row:
/// text `stake_address`, decimal `ada_value`, text `from_pool` and `to_pool`.
pub fn decode_address_info(rows: &Vec<Vec<Column>>) -> (r: Result<AddressInfo, FetchError>)
    ensures
        rows@.len() == 0 ==> r == Err::<AddressInfo, FetchError>(FetchError::Decode),
        rows@.len() > 0 ==> match (
            text_column(rows@[0]@, "stake_address"@),
            decimal_column(rows@[0]@, "ada_value"@),
            text_column(rows@[0]@, "from_pool"@),
            text_column(rows@[0]@, "to_pool"@),
        ) {
            (Some(s), Some(v), Some(f), Some(t)) => r matches Ok(info) && info.stake_address@ == s
                && info.ada_value == v && info.from_pool@ == f && info.to_pool@ == t,
            _ => r == Err::<AddressInfo, FetchError>(FetchError::Decode),
        },
{
    if rows.len() == 0 {
        return Err(FetchError::Decode);
    }
    let cols = &rows[0];
    match (
        get_text(cols, "stake_address"),
        get_decimal(cols, "ada_value"),
        get_text(cols, "from_pool"),
        get_text(cols, "to_pool"),
    ) {
        (Some(stake_address), Some(ada_value), Some(from_pool), Some(to_pool)) => Ok(
            AddressInfo { stake_address, ada_value, from_pool, to_pool },
        ),
        _ => Err(FetchError::Decode),
    }
}

/// The pool's figures, from the first row: decimals `live_stake` and
/// `live_saturation`, integer `live_delegator_count`.
pub fn decode_pool_stats(rows: &Vec<Vec<Column>>) -> (r: Result<PoolStats, FetchError>)
    ensures
        rows@.len() == 0 ==> r == Err::<PoolStats, FetchError>(FetchError::Decode),
        rows@.len() > 0 ==> match (
            decimal_column(rows@[0]@, "live_stake"@),
            decimal_column(rows@[0]@, "live_saturation"@),
            int_column(rows@[0]@, "live_delegator_count"@),
        ) {
            (Some(s), Some(t), Some(c)) => r == Ok::<PoolStats, FetchError>(
                PoolStats { live_stake: s, live_saturation: t, live_delegator_count: c },
            ),
            _ => r == Err::<PoolStats, FetchError>(FetchError::Decode),
        },
{
    if rows.len() == 0 {
        return Err(FetchError::Decode);
    }
    let cols = &rows[0];
    match (get_decimal(cols, "live_stake"), get_decimal(cols, "live_saturation"), get_int(cols, "live_delegator_count")) {
        (Some(live_stake), Some(live_saturation), Some(live_delegator_count)) => Ok(
            PoolStats { live_stake, live_saturation, live_delegator_count },
        ),
        _ => Err(FetchError::Decode),
    }
}

} // verus!
