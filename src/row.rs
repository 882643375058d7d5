use vstd::prelude::*;
use crate::amount::Amount;

verus! {

/// A row of a snapshot: rows are told apart by their views alone.
pub trait Row: View + Sized {
    fn same_row(&self, other: &Self) -> (r: bool)
        ensures
            r == (self@ == other@),
    ;

    fn duplicate(&self) -> (r: Self)
        ensures
            r@ == self@,
    ;
}

/// The views of a sequence of rows, in order.
pub open spec fn views<R: View>(rows: Seq<R>) -> Seq<R::V> {
    rows.map_values(|r: R| r@)
}

/// How many blocks the pool has forged in one epoch.
#[derive(Clone, Copy, Debug, PartialEq, Eq, Structural)]
pub struct BlockRow {
    pub epoch_no: i64,
    pub blocks_forged: i64,
}

impl View for BlockRow {
    type V = BlockRow;

    open spec fn view(&self) -> BlockRow {
        *self
    }
}

impl Row for BlockRow {
    fn same_row(&self, other: &Self) -> (r: bool) {
        self.epoch_no == other.epoch_no && self.blocks_forged == other.blocks_forged
    }

    fn duplicate(&self) -> (r: Self) {
        *self
    }
}

/// A stake address delegating to the pool.
#[derive(Debug)]
pub struct DelegatorRow {
    pub address: String,
}

impl View for DelegatorRow {
    type V = Seq<char>;

    open spec fn view(&self) -> Seq<char> {
        self.address@
    }
}

impl Row for DelegatorRow {
    fn same_row(&self, other: &Self) -> (r: bool) {
        self.address == other.address
    }

    fn duplicate(&self) -> (r: Self) {
        DelegatorRow { address: self.address.clone() }
    }
}

/// What the data store knows of one stake address: how much it holds,
/// the pool it came from and the pool it goes to (empty when none).
#[derive(Debug)]
pub struct AddressInfo {
    pub stake_address: String,
    pub ada_value: Amount,
    pub from_pool: String,
    pub to_pool: String,
}

/// The pool's figures that the status command reports.
#[derive(Debug)]
pub struct PoolStats {
    pub live_stake: Amount,
    pub live_saturation: Amount,
    pub live_delegator_count: i64,
}

} // verus!
