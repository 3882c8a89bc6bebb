//! From a node's answers, as text, to the values the engine works on.

use crate::fees::RewardSeries;
use crate::history::BlockInfo;
use crate::quantity::{decode_quantity, decode_quantity_u64, quantity_of, QuantityError};
use vstd::prelude::*;

verus! {

/// A block as the node reports it: quantities still in hexadecimal.
#[derive(Debug, Clone, PartialEq, Eq)]
pub struct WireBlock {
    pub number: String,
    pub hash: String,
    pub parent_hash: String,
    pub timestamp: String,
    pub tx_count: usize,
    pub gas_used: String,
    pub gas_limit: String,
    pub base_fee_per_gas: Option<String>,
}

/// What a quantity decodes to as a `u64`.
pub open spec fn u64_of(s: String) -> Result<int, QuantityError> {
    quantity_of(s@, u64::MAX as int)
}

/// What a quantity decodes to as a `u128`.
pub open spec fn u128_of(s: String) -> Result<int, QuantityError> {
    quantity_of(s@, u128::MAX as int)
}

/// The block that a wire block decodes to, or the error of its first field
/// (number, timestamp, gas used, gas limit, base fee) that does not decode.
pub open spec fn block_of(w: WireBlock) -> Result<BlockInfo, QuantityError> {
    if u64_of(w.number) is Err {
        Err(u64_of(w.number)->Err_0)
    } else if u64_of(w.timestamp) is Err {
        Err(u64_of(w.timestamp)->Err_0)
    } else if u64_of(w.gas_used) is Err {
        Err(u64_of(w.gas_used)->Err_0)
    } else if u64_of(w.gas_limit) is Err {
        Err(u64_of(w.gas_limit)->Err_0)
    } else if w.base_fee_per_gas is Some && u128_of(w.base_fee_per_gas.unwrap()) is Err {
        Err(u128_of(w.base_fee_per_gas.unwrap())->Err_0)
    } else {
        Ok(
            BlockInfo {
                number: u64_of(w.number)->Ok_0 as u64,
                hash: w.hash,
                parent_hash: w.parent_hash,
                timestamp: u64_of(w.timestamp)->Ok_0 as u64,
                tx_count: w.tx_count,
                gas_used: u64_of(w.gas_used)->Ok_0 as u64,
                gas_limit: u64_of(w.gas_limit)->Ok_0 as u64,
                base_fee_per_gas: match w.base_fee_per_gas {
                    Some(b) => Some(u128_of(b)->Ok_0 as u128),
                    None => None,
                },
            },
        )
    }
}

/// Decodes a wire block; a field that does not decode fails the block.
pub fn block_from_wire(w: WireBlock) -> (r: Result<BlockInfo, QuantityError>)
    ensures
        r == block_of(w),
{
    let number = match decode_quantity_u64(w.number.as_str()) {
        Ok(v) => v,
        Err(e) => return Err(e),
    };
    let timestamp = match decode_quantity_u64(w.timestamp.as_str()) {
        Ok(v) => v,
        Err(e) => return Err(e),
    };
    let gas_used = match decode_quantity_u64(w.gas_used.as_str()) {
        Ok(v) => v,
        Err(e) => return Err(e),
    };
    let gas_limit = match decode_quantity_u64(w.gas_limit.as_str()) {
        Ok(v) => v,
        Err(e) => return Err(e),
    };
    let base_fee_per_gas = match &w.base_fee_per_gas {
        Some(b) => match decode_quantity(b.as_str()) {
            Ok(v) => Some(v),
            Err(e) => return Err(e),
        },
        None => None,
    };
    Ok(
        BlockInfo {
            number,
            hash: w.hash,
            parent_hash: w.parent_hash,
            timestamp,
            tx_count: w.tx_count,
            gas_used,
            gas_limit,
            base_fee_per_gas,
        },
    )
}

/// Decodes every quantity of a list; the first that does not decode fails
/// the whole list with its error.
pub fn decode_all(values: &Vec<String>) -> (r: Result<Vec<u128>, QuantityError>)
    ensures
        match r {
            Ok(v) => v@.len() == values@.len() && forall|i: int|
                0 <= i < values@.len() ==> u128_of(#[trigger] values@[i]) == Ok::<
                    int,
                    QuantityError,
                >(v@[i] as int),
            Err(e) => exists|i: int|
                0 <= i < values@.len() && u128_of(#[trigger] values@[i]) == Err::<
                    int,
                    QuantityError,
                >(e) && forall|j: int| 0 <= j < i ==> u128_of(#[trigger] values@[j]) is Ok,
        },
{
    let mut out: Vec<u128> = Vec::new();
    let mut i: usize = 0;
    while i < values.len()
        invariant
            i <= values@.len(),
            out@.len() == i,
            forall|k: int|
                0 <= k < i ==> u128_of(#[trigger] values@[k]) == Ok::<int, QuantityError>(
                    out@[k] as int,
                ),
        decreases values@.len() - i,
    {
        match decode_quantity(values[i].as_str()) {
            Ok(v) => out.push(v),
            Err(e) => {
                assert(u128_of(values@[i as int]) == Err::<int, QuantityError>(e));
                return Err(e);
            },
        }
        i += 1;
    }
    Ok(out)
}

/// The values at position `i` of the rows that reach it, in row order.
pub open spec fn column(rows: Seq<Vec<u128>>, i: int) -> Seq<u128>
    decreases rows.len(),
{
    if rows.len() == 0 {
        Seq::empty()
    } else {
        let rest = column(rows.drop_last(), i);
        if i < rows.last()@.len() {
            rest.push(rows.last()@[i])
        } else {
            rest
        }
    }
}

/// The series of position `i`: empty when the last block's row does not
/// reach it, so that a percentile missing from the last block is missing.
pub open spec fn reward_column(rows: Seq<Vec<u128>>, i: int) -> Seq<u128> {
    if rows.len() > 0 && i >= rows.last()@.len() {
        Seq::empty()
    } else {
        column(rows, i)
    }
}

/// Regroups per-block reward rows (one value per requested percentile, in
/// the order of `percentiles`) into one series per percentile. A row too
/// short for a percentile gives that percentile no value for its block, and
/// a percentile that the last row does not reach gets no values at all.
pub fn rewards_by_percentile(percentiles: &Vec<u32>, rows: &Vec<Vec<u128>>) -> (r: Vec<RewardSeries>)
    ensures
        r@.len() == percentiles@.len(),
        forall|i: int|
            0 <= i < percentiles@.len() ==> (#[trigger] r@[i]).percentile == percentiles@[i]
                && r@[i].values@ == reward_column(rows@, i),
{
    let mut out: Vec<RewardSeries> = Vec::new();
    let mut i: usize = 0;
    while i < percentiles.len()
        invariant
            i <= percentiles@.len(),
            out@.len() == i,
            forall|k: int|
                0 <= k < i ==> (#[trigger] out@[k]).percentile == percentiles@[k]
                    && out@[k].values@ == reward_column(rows@, k),
        decreases percentiles@.len() - i,
    {
        let mut values: Vec<u128> = Vec::new();
        let mut b: usize = 0;
        while b < rows.len()
            invariant
                b <= rows@.len(),
                values@ == column(rows@.take(b as int), i as int),
            decreases rows@.len() - b,
        {
            proof {
                assert(rows@.take(b + 1).drop_last() =~= rows@.take(b as int));
                assert(rows@.take(b + 1).last() == rows@[b as int]);
            }
            if i < rows[b].len() {
                values.push(rows[b][i]);
            }
            b += 1;
        }
        assert(rows@.take(rows@.len() as int) =~= rows@);
        let nrows = rows.len();
        if nrows > 0 && i >= rows[nrows - 1].len() {
            values = Vec::new();
        }
        out.push(RewardSeries { percentile: percentiles[i], values });
        i += 1;
    }
    out
}

} // verus!
