//! Bounded, newest-first record of observed blocks, and the plan of which
//! block numbers to fetch to close the gap up to the chain head.

use std::collections::VecDeque;
use vstd::prelude::*;

verus! {

/// One observed block.
#[derive(Debug, Clone, PartialEq, Eq)]
pub struct BlockInfo {
    pub number: u64,
    pub hash: String,
    pub parent_hash: String,
    pub timestamp: u64,
    pub tx_count: usize,
    pub gas_used: u64,
    pub gas_limit: u64,
    pub base_fee_per_gas: Option<u128>,
}

/// Strictly descending by number: newest first, no number twice.
pub open spec fn newest_first(s: Seq<BlockInfo>) -> bool {
    forall|i: int, j: int| 0 <= i < j < s.len() ==> s[i].number > s[j].number
}

/// What a history must always satisfy: ordered, and within its bound.
pub open spec fn history_ok(s: Seq<BlockInfo>, max_len: usize) -> bool {
    newest_first(s) && s.len() <= max_len
}

/// The history with `b` put in its place by number; a history that already
/// holds that number is left as it is.
pub open spec fn with_block(s: Seq<BlockInfo>, b: BlockInfo) -> Seq<BlockInfo>
    decreases s.len(),
{
    if s.len() == 0 {
        seq![b]
    } else if s[0].number < b.number {
        seq![b] + s
    } else if s[0].number == b.number {
        s
    } else {
        seq![s[0]] + with_block(s.drop_first(), b)
    }
}

/// The history cut down to its bound by dropping the oldest entries.
pub open spec fn bounded(s: Seq<BlockInfo>, max_len: usize) -> Seq<BlockInfo> {
    if s.len() > max_len {
        s.take(max_len as int)
    } else {
        s
    }
}

/// Latest timestamp seen once a block stamped `ts` has arrived.
pub open spec fn max_timestamp(current: Option<u64>, ts: u64) -> Option<u64> {
    match current {
        Some(c) => if ts > c {
            Some(ts)
        } else {
            Some(c)
        },
        None => Some(ts),
    }
}

/// The numbers to fetch in one cycle, in the order to fetch them.
///
/// With nothing recorded, only the head. With a gap `[last+1, latest]`, the
/// newest `max_backfill` numbers of it, newest first. Otherwise none.
pub open spec fn backfill_numbers(last_recorded: Option<u64>, latest: u64, max_backfill: u64) -> Seq<u64> {
    match last_recorded {
        None => seq![latest],
        Some(last) => if latest > last {
            let count = if latest - last < max_backfill {
                latest - last
            } else {
                max_backfill as int
            };
            Seq::new(count as nat, |i: int| (latest - i) as u64)
        } else {
            Seq::empty()
        },
    }
}

/// One cycle fetches `min(K, max_backfill)` blocks for a gap of `K` numbers,
/// and they are exactly the newest `max_backfill` numbers of the gap, in
/// descending order.
pub proof fn lemma_backfill_cap(last: u64, latest: u64, max_backfill: u64)
    requires
        latest > last,
    ensures
        ({
            let plan = backfill_numbers(Some(last), latest, max_backfill);
            &&& plan.len() == if latest - last < max_backfill {
                latest - last
            } else {
                max_backfill as int
            }
            &&& forall|i: int, j: int| 0 <= i < j < plan.len() ==> plan[i] > plan[j]
            &&& forall|n: u64|
                plan.contains(n) <==> (last < n <= latest && latest - n < max_backfill)
        }),
{
    let plan = backfill_numbers(Some(last), latest, max_backfill);
    assert forall|n: u64| plan.contains(n) <==> (last < n <= latest && latest - n < max_backfill) by {
        if last < n <= latest && latest - n < max_backfill {
            assert(plan[latest - n] == n);
        }
    }
}

/// Lists the block numbers to fetch this cycle.
pub fn backfill_plan(last_recorded: Option<u64>, latest: u64, max_backfill: u64) -> (r: Vec<u64>)
    ensures
        r@ == backfill_numbers(last_recorded, latest, max_backfill),
{
    match last_recorded {
        None => vec![latest],
        Some(last) => {
            let mut out: Vec<u64> = Vec::new();
            if latest > last {
                let gap: u64 = latest - last;
                let count: u64 = if gap < max_backfill {
                    gap
                } else {
                    max_backfill
                };
                let mut i: u64 = 0;
                while i < count
                    invariant
                        i <= count,
                        count <= gap,
                        gap == latest - last,
                        out@ =~= Seq::new(i as nat, |k: int| (latest - k) as u64),
                    decreases count - i,
                {
                    out.push(latest - i);
                    i += 1;
                }
            }
            assert(out@ =~= backfill_numbers(last_recorded, latest, max_backfill));
            out
        },
    }
}

/// Passing over entries newer than `b` leaves them in front.
proof fn lemma_with_block_after(s: Seq<BlockInfo>, b: BlockInfo, i: int)
    requires
        0 <= i <= s.len(),
        forall|j: int| 0 <= j < i ==> s[j].number > b.number,
    ensures
        with_block(s, b) == s.take(i) + with_block(s.skip(i), b),
    decreases i,
{
    if i > 0 {
        let rest = s.drop_first();
        lemma_with_block_after(rest, b, i - 1);
        assert(rest.skip(i - 1) =~= s.skip(i));
        assert(s.take(i) =~= seq![s[0]] + rest.take(i - 1));
        assert(with_block(s, b) == seq![s[0]] + with_block(rest, b));
        assert((seq![s[0]] + rest.take(i - 1)) + with_block(s.skip(i), b) =~= seq![s[0]] + (
        rest.take(i - 1) + with_block(s.skip(i), b)));
    } else {
        assert(s.take(0) + with_block(s, b) =~= with_block(s, b));
        assert(s.skip(0) =~= s);
    }
}

/// Every number in the result is one of the history's or `b`'s.
proof fn lemma_with_block_below(s: Seq<BlockInfo>, b: BlockInfo, bound: u64)
    requires
        b.number < bound,
        forall|j: int| 0 <= j < s.len() ==> s[j].number < bound,
    ensures
        forall|k: int| 0 <= k < with_block(s, b).len() ==> with_block(s, b)[k].number < bound,
    decreases s.len(),
{
    if s.len() > 0 && s[0].number > b.number {
        let rest = s.drop_first();
        lemma_with_block_below(rest, b, bound);
        let r = with_block(s, b);
        assert forall|k: int| 0 <= k < r.len() implies r[k].number < bound by {
            if k > 0 {
                assert(r[k] == with_block(rest, b)[k - 1]);
            }
        }
    }
}

/// Putting a block in its place keeps the history ordered and grows it by at
/// most one entry.
pub proof fn lemma_with_block_ordered(s: Seq<BlockInfo>, b: BlockInfo)
    requires
        newest_first(s),
    ensures
        newest_first(with_block(s, b)),
        with_block(s, b).len() <= s.len() + 1,
    decreases s.len(),
{
    if s.len() > 0 && s[0].number > b.number {
        let rest = s.drop_first();
        lemma_with_block_ordered(rest, b);
        lemma_with_block_below(rest, b, s[0].number);
        let r = with_block(s, b);
        assert forall|i: int, j: int| 0 <= i < j < r.len() implies r[i].number > r[j].number by {
            assert(r[j] == with_block(rest, b)[j - 1]);
            if i > 0 {
                assert(r[i] == with_block(rest, b)[i - 1]);
            }
        }
    }
}

/// The history after recording the blocks of `batch` one after the other.
pub open spec fn record_all(s: Seq<BlockInfo>, batch: Seq<BlockInfo>, max_len: usize) -> Seq<BlockInfo>
    decreases batch.len(),
{
    if batch.len() == 0 {
        s
    } else {
        record_all(bounded(with_block(s, batch[0]), max_len), batch.drop_first(), max_len)
    }
}

/// A block newer than all of `a` and older than all of `c` goes between them.
proof fn lemma_with_block_between(a: Seq<BlockInfo>, c: Seq<BlockInfo>, b: BlockInfo)
    requires
        forall|j: int| 0 <= j < a.len() ==> a[j].number > b.number,
        forall|j: int| 0 <= j < c.len() ==> c[j].number < b.number,
    ensures
        with_block(a + c, b) == a + seq![b] + c,
{
    let x = a + c;
    assert forall|j: int| 0 <= j < a.len() implies x[j].number > b.number by {
        assert(x[j] == a[j]);
    }
    lemma_with_block_after(x, b, a.len() as int);
    assert(x.take(a.len() as int) =~= a);
    assert(x.skip(a.len() as int) =~= c);
    if c.len() > 0 {
        assert(with_block(c, b) == seq![b] + c);
    }
    assert(a + (seq![b] + c) =~= a + seq![b] + c);
}

/// One more block of the batch, newer than the history and older than the
/// batch's blocks before it, goes right after them.
proof fn lemma_batch_step(d: Seq<BlockInfo>, b: BlockInfo, s: Seq<BlockInfo>, max_len: usize)
    requires
        forall|j: int| 0 <= j < d.len() ==> d[j].number > b.number,
        forall|j: int| 0 <= j < s.len() ==> s[j].number < b.number,
    ensures
        bounded(with_block(bounded(d + s, max_len), b), max_len) == bounded(
            d + seq![b] + s,
            max_len,
        ),
{
    let k = d.len() as int;
    let full = d + s;
    let m = if full.len() > max_len {
        max_len as int
    } else {
        full.len() as int
    };
    let x = bounded(full, max_len);
    assert(x =~= full.take(m));
    let ka = if m < k {
        m
    } else {
        k
    };
    let a = d.take(ka);
    let c = s.take(m - ka);
    assert(x =~= a + c);
    assert forall|j: int| 0 <= j < a.len() implies a[j].number > b.number by {
        assert(a[j] == d[j]);
    }
    assert forall|j: int| 0 <= j < c.len() implies c[j].number < b.number by {
        assert(c[j] == s[j]);
    }
    lemma_with_block_between(a, c, b);
    let y = a + seq![b] + c;
    let target = d + seq![b] + s;
    if m < k {
        assert(bounded(y, max_len) =~= bounded(target, max_len));
    } else if m == max_len {
        assert(bounded(y, max_len) =~= bounded(target, max_len));
    } else {
        assert(c =~= s);
        assert(bounded(y, max_len) =~= bounded(target, max_len));
    }
}

proof fn lemma_batch_from(d: Seq<BlockInfo>, rest: Seq<BlockInfo>, s: Seq<BlockInfo>, max_len: usize)
    requires
        newest_first(d + rest + s),
    ensures
        record_all(bounded(d + s, max_len), rest, max_len) == bounded(d + rest + s, max_len),
    decreases rest.len(),
{
    let all = d + rest + s;
    if rest.len() == 0 {
        assert(d + rest + s =~= d + s);
    } else {
        let b = rest[0];
        let k = d.len() as int;
        assert(all[k] == b);
        assert forall|j: int| 0 <= j < d.len() implies d[j].number > b.number by {
            assert(all[j] == d[j]);
        }
        assert forall|j: int| 0 <= j < s.len() implies s[j].number < b.number by {
            assert(all[k + rest.len() + j] == s[j]);
        }
        lemma_batch_step(d, b, s, max_len);
        let d2 = d + seq![b];
        let rest2 = rest.drop_first();
        assert(d2 + rest2 + s =~= all);
        assert(d + seq![b] + s =~= d2 + s);
        lemma_batch_from(d2, rest2, s, max_len);
    }
}

/// Blocks fetched newest first, all newer than the history, end up in front
/// of it in the order they were fetched; the oldest entries beyond the bound
/// are cut. No number is held twice.
pub proof fn lemma_batch_goes_in_front(s: Seq<BlockInfo>, batch: Seq<BlockInfo>, max_len: usize)
    requires
        history_ok(s, max_len),
        newest_first(batch + s),
    ensures
        record_all(s, batch, max_len) == bounded(batch + s, max_len),
        history_ok(record_all(s, batch, max_len), max_len),
{
    let e = Seq::<BlockInfo>::empty();
    assert(e + batch + s =~= batch + s);
    assert(e + s =~= s);
    assert(bounded(s, max_len) == s);
    lemma_batch_from(e, batch, s, max_len);
    let r = batch + s;
    if r.len() > max_len {
        assert forall|i: int, j: int| 0 <= i < j < r.take(max_len as int).len() implies r.take(
            max_len as int,
        )[i].number > r.take(max_len as int)[j].number by {
            assert(r.take(max_len as int)[i] == r[i]);
            assert(r.take(max_len as int)[j] == r[j]);
        }
    }
}

/// Recording a block into an ordered history of any bound leaves an ordered
/// history within that bound.
pub proof fn lemma_record_keeps_history_ok(s: Seq<BlockInfo>, b: BlockInfo, max_len: usize)
    requires
        newest_first(s),
    ensures
        history_ok(bounded(with_block(s, b), max_len), max_len),
{
    lemma_with_block_ordered(s, b);
}

/// Puts `block` into the newest-first history at its place by number (unless
/// that number is already held), then drops the oldest entries beyond
/// `max_len`.
pub fn record_block(history: &mut VecDeque<BlockInfo>, max_len: usize, block: BlockInfo)
    requires
        newest_first(old(history)@),
    ensures
        final(history)@ == bounded(with_block(old(history)@, block), max_len),
        history_ok(final(history)@, max_len),
{
    let n = history.len();
    let mut i: usize = 0;
    while i < n && history[i].number > block.number
        invariant
            i <= n,
            n == history@.len(),
            history@ == old(history)@,
            forall|j: int| 0 <= j < i ==> history@[j].number > block.number,
        decreases n - i,
    {
        i += 1;
    }
    let ghost s = history@;
    proof {
        lemma_with_block_after(s, block, i as int);
        lemma_with_block_ordered(s, block);
    }
    if i < n && history[i].number == block.number {
        assert(s.take(i as int) + s.skip(i as int) =~= s);
    } else {
        proof {
            if i < n {
                assert(with_block(s.skip(i as int), block) == seq![block] + s.skip(i as int));
            }
            assert(s.take(i as int) + with_block(s.skip(i as int), block) =~= s.insert(
                i as int,
                block,
            ));
        }
        history.insert(i, block);
    }
    history.truncate(max_len);
}

} // verus!
