//! Fills as the exchange reports them, and the records kept of them.

use vstd::prelude::*;

verus! {

/// What tells one fill from another: the time the exchange reports for it
/// and the order it executed.
#[derive(Clone, Copy, Debug, PartialEq, Eq, Structural)]
pub struct FillId {
    pub time: u64,
    pub oid: u64,
}

/// One trade execution of an account.
///
/// `size` and `price` are decimal text: the adapter that talks to the exchange
/// parses the reported amounts and renders them again, zero for an amount that
/// does not parse.
#[derive(Debug, PartialEq, Eq)]
pub struct Fill {
    /// Milliseconds since the epoch, as reported.
    pub time: u64,
    /// The order that was filled.
    pub oid: u64,
    /// Token symbol.
    pub coin: String,
    /// Direction, as reported: `buy`, `sell`, `long`, `deposit` and so on.
    pub side: String,
    pub size: String,
    pub price: String,
}

impl Fill {
    /// The identifier of this fill.
    pub open spec fn id(&self) -> FillId {
        FillId { time: self.time, oid: self.oid }
    }

    /// The reported time as a signed count of milliseconds.
    pub open spec fn timestamp(&self) -> i64 {
        self.time as i64
    }

    pub fn fill_id(&self) -> (id: FillId)
        ensures
            id == self.id(),
    {
        FillId { time: self.time, oid: self.oid }
    }

    pub fn timestamp_millis(&self) -> (t: i64)
        ensures
            t == self.timestamp(),
    {
        #[verifier::truncate]
        (self.time as i64)
    }
}

impl Clone for Fill {
    fn clone(&self) -> (copy: Self)
        ensures
            copy == *self,
    {
        Fill {
            time: self.time,
            oid: self.oid,
            coin: self.coin.clone(),
            side: self.side.clone(),
            size: self.size.clone(),
            price: self.price.clone(),
        }
    }
}

/// Leverage recorded for every transaction: the exchange reports none.
pub const DEFAULT_LEVERAGE: u32 = 1;

/// A fill as it is kept in the observation log.
#[derive(Debug, PartialEq, Eq)]
pub struct TransactionRecord {
    /// Milliseconds since the epoch, UTC.
    pub timestamp: i64,
    pub token: String,
    pub side: String,
    /// Decimal text, not negative.
    pub size: String,
    /// Whole multiple; always `DEFAULT_LEVERAGE`.
    pub leverage: u32,
    /// Decimal text, not negative.
    pub entry_price: String,
}

impl TransactionRecord {
    /// The record that is kept of `fill`.
    pub open spec fn of(fill: Fill) -> TransactionRecord {
        TransactionRecord {
            timestamp: fill.timestamp(),
            token: fill.coin,
            side: fill.side,
            size: fill.size,
            leverage: DEFAULT_LEVERAGE,
            entry_price: fill.price,
        }
    }

    /// Makes the record of `fill`.
    pub fn from_fill(fill: &Fill) -> (record: TransactionRecord)
        ensures
            record == Self::of(*fill),
    {
        TransactionRecord {
            timestamp: fill.timestamp_millis(),
            token: fill.coin.clone(),
            side: fill.side.clone(),
            size: fill.size.clone(),
            leverage: DEFAULT_LEVERAGE,
            entry_price: fill.price.clone(),
        }
    }
}

impl Clone for TransactionRecord {
    fn clone(&self) -> (copy: Self)
        ensures
            copy == *self,
    {
        TransactionRecord {
            timestamp: self.timestamp,
            token: self.token.clone(),
            side: self.side.clone(),
            size: self.size.clone(),
            leverage: self.leverage,
            entry_price: self.entry_price.clone(),
        }
    }
}

} // verus!
