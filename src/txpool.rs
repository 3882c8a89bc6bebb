//! Pool aggregator: turns the outcomes of the transaction-pool service's
//! calls into one snapshot, keeping partial data when some calls fail.

use vstd::prelude::*;
use vstd::string::StringExecFns;

verus! {

/// Keys under which the service may put its list of items, in the order
/// they are tried.
pub open spec fn item_keys() -> Seq<Seq<char>> {
    seq![
        "items"@,
        "data"@,
        "transactions"@,
        "bundles"@,
        "signedOrders"@,
        "signed_orders"@,
    ]
}

/// One member of a JSON object, as far as counting needs it: its key, and
/// the length of its value when that value is an array.
#[derive(Debug, Clone, PartialEq, Eq)]
pub struct JsonField {
    pub key: String,
    pub array_len: Option<usize>,
}

/// The top level of a JSON body, as far as counting needs it.
#[derive(Debug, Clone, PartialEq, Eq)]
pub enum JsonShape {
    Array(usize),
    Object(Vec<JsonField>),
    Other,
}

/// A transaction as the service lists it; the sender may be missing.
#[derive(Debug, Clone, PartialEq, Eq)]
pub struct TxRecord {
    pub hash: String,
    pub from: Option<String>,
    pub to: Option<String>,
    pub value: String,
    pub nonce: Option<String>,
    pub gas_limit: Option<String>,
    pub max_fee_per_gas: Option<String>,
    pub max_priority_fee_per_gas: Option<String>,
    pub gas_price: Option<String>,
    pub tx_type: Option<u8>,
}

/// A pool transaction kept for display. Identifiers and amounts are the
/// service's own text.
#[derive(Debug, Clone, PartialEq, Eq)]
pub struct TxPoolTx {
    pub hash: String,
    pub from: String,
    pub to: Option<String>,
    pub value: String,
    pub nonce: Option<String>,
    pub gas_limit: Option<String>,
    pub max_fee_per_gas: Option<String>,
    pub max_priority_fee_per_gas: Option<String>,
    pub gas_price: Option<String>,
    pub tx_type: Option<u8>,
}

/// One page of the transaction listing.
#[derive(Debug, Clone, PartialEq, Eq)]
pub struct TxPage {
    pub records: Vec<TxRecord>,
    /// Whether the service handed back a cursor to a further page.
    pub has_cursor: bool,
}

/// Snapshot of the transaction-pool service.
#[derive(Debug, Clone, PartialEq, Eq)]
pub struct TxPoolMetrics {
    pub healthy: bool,
    /// Clock reading of the fetch, in milliseconds.
    pub last_updated: u64,
    pub error: Option<String>,
    pub base_url: String,
    pub transactions_cache: Option<u64>,
    pub bundles_cache: Option<u64>,
    pub signed_orders_cache: Option<u64>,
    pub transactions: Vec<TxPoolTx>,
    pub has_more: bool,
}

/// Length of the array under `key`, from the first member with that key.
pub open spec fn array_under(fields: Seq<JsonField>, key: Seq<char>) -> Option<usize>
    decreases fields.len(),
{
    if fields.len() == 0 {
        None
    } else if fields[0].key@ == key {
        fields[0].array_len
    } else {
        array_under(fields.drop_first(), key)
    }
}

/// The first of the item keys, from the `i`-th on, that holds an array.
pub open spec fn first_array_under(fields: Seq<JsonField>, i: int) -> Option<usize>
    decreases item_keys().len() - i,
{
    if i < 0 || i >= item_keys().len() {
        None
    } else {
        match array_under(fields, item_keys()[i]) {
            Some(n) => Some(n),
            None => first_array_under(fields, i + 1),
        }
    }
}

/// Item count of a body: an array's length, or the length of the array
/// under the first item key that holds one; unknown for other shapes.
pub open spec fn item_count(shape: JsonShape) -> Option<u64> {
    match shape {
        JsonShape::Array(n) => Some(n as u64),
        JsonShape::Object(fields) => match first_array_under(fields@, 0) {
            Some(n) => Some(n as u64),
            None => None,
        },
        JsonShape::Other => None,
    }
}

/// A record made into a row, with its sender.
pub open spec fn row_of(rec: TxRecord, from: String) -> TxPoolTx {
    TxPoolTx {
        hash: rec.hash,
        from: from,
        to: rec.to,
        value: rec.value,
        nonce: rec.nonce,
        gas_limit: rec.gas_limit,
        max_fee_per_gas: rec.max_fee_per_gas,
        max_priority_fee_per_gas: rec.max_priority_fee_per_gas,
        gas_price: rec.gas_price,
        tx_type: rec.tx_type,
    }
}

/// The rows of the records that name a sender, in order.
pub open spec fn kept_rows(records: Seq<TxRecord>) -> Seq<TxPoolTx>
    decreases records.len(),
{
    if records.len() == 0 {
        Seq::empty()
    } else {
        let rest = kept_rows(records.drop_last());
        match records.last().from {
            Some(f) => rest.push(row_of(records.last(), f)),
            None => rest,
        }
    }
}

/// At most the first `max_rows` of `rows`.
pub open spec fn first_rows(rows: Seq<TxPoolTx>, max_rows: usize) -> Seq<TxPoolTx> {
    if rows.len() > max_rows {
        rows.take(max_rows as int)
    } else {
        rows
    }
}

/// `label: cause`.
pub open spec fn labelled(label: Seq<char>, cause: Seq<char>) -> Seq<char> {
    label + ": "@ + cause
}

/// The parts separated by `, `.
pub open spec fn joined(parts: Seq<Seq<char>>) -> Seq<char>
    decreases parts.len(),
{
    if parts.len() == 0 {
        Seq::empty()
    } else if parts.len() == 1 {
        parts[0]
    } else {
        joined(parts.drop_last()) + ", "@ + parts.last()
    }
}

/// The message of a failed call, as a list of zero or one.
pub open spec fn failure_of<T>(label: Seq<char>, outcome: Result<T, String>) -> Seq<Seq<char>> {
    match outcome {
        Ok(_) => Seq::empty(),
        Err(e) => seq![labelled(label, e@)],
    }
}

/// The message of a failed listing call, as a list of zero or one.
pub open spec fn listing_failure(listing: Option<Result<TxPage, String>>) -> Seq<Seq<char>> {
    match listing {
        Some(r) => failure_of("transaction list"@, r),
        None => Seq::empty(),
    }
}

/// The messages of all failed calls, in the order the calls are made.
pub open spec fn failures(
    transactions: Result<Option<u64>, String>,
    bundles: Result<Option<u64>, String>,
    signed_orders: Result<Option<u64>, String>,
    listing: Option<Result<TxPage, String>>,
) -> Seq<Seq<char>> {
    failure_of("transactions"@, transactions) + failure_of("bundles"@, bundles) + failure_of(
        "signed-orders"@,
        signed_orders,
    ) + listing_failure(listing)
}

/// A count that arrived, or unknown.
pub open spec fn count_or_unknown(outcome: Result<Option<u64>, String>) -> Option<u64> {
    match outcome {
        Ok(v) => v,
        Err(_) => None,
    }
}

/// `s` without its trailing slashes.
pub open spec fn trim_end_slashes(s: Seq<char>) -> Seq<char>
    decreases s.len(),
{
    if s.len() > 0 && s.last() == '/' {
        trim_end_slashes(s.drop_last())
    } else {
        s
    }
}

/// `s` without its leading slashes.
pub open spec fn trim_start_slashes(s: Seq<char>) -> Seq<char>
    decreases s.len(),
{
    if s.len() > 0 && s[0] == '/' {
        trim_start_slashes(s.drop_first())
    } else {
        s
    }
}

/// The address of `path` under `base_url`, with exactly one slash between.
pub fn join_url(base_url: &str, path: &str) -> (r: String)
    ensures
        r@ == trim_end_slashes(base_url@) + "/"@ + trim_start_slashes(path@),
{
    let n = base_url.unicode_len();
    let mut k: usize = n;
    assert(base_url@.take(n as int) =~= base_url@);
    while k > 0 && base_url.get_char(k - 1) == '/'
        invariant
            k <= n,
            n == base_url@.len(),
            trim_end_slashes(base_url@) == trim_end_slashes(base_url@.take(k as int)),
        decreases k,
    {
        assert(base_url@.take(k as int).drop_last() =~= base_url@.take(k - 1));
        k -= 1;
    }
    let head = base_url.substring_char(0, k);
    assert(head@ =~= base_url@.take(k as int));
    let m = path.unicode_len();
    let mut j: usize = 0;
    assert(path@.skip(0) =~= path@);
    while j < m && path.get_char(j) == '/'
        invariant
            j <= m,
            m == path@.len(),
            trim_start_slashes(path@) == trim_start_slashes(path@.skip(j as int)),
        decreases m - j,
    {
        assert(path@.skip(j as int).drop_first() =~= path@.skip(j + 1));
        j += 1;
    }
    let tail = path.substring_char(j, m);
    assert(tail@ =~= path@.skip(j as int));
    String::from_str(head).concat("/").concat(tail)
}

impl TxPoolMetrics {
    /// An empty, not yet healthy snapshot of the service at `base_url`.
    pub fn new(base_url: String, now: u64) -> (r: Self)
        ensures
            !r.healthy,
            r.last_updated == now,
            r.error is None,
            r.base_url == base_url,
            r.transactions_cache is None,
            r.bundles_cache is None,
            r.signed_orders_cache is None,
            r.transactions@.len() == 0,
            !r.has_more,
    {
        TxPoolMetrics {
            healthy: false,
            last_updated: now,
            error: None,
            base_url,
            transactions_cache: None,
            bundles_cache: None,
            signed_orders_cache: None,
            transactions: Vec::new(),
            has_more: false,
        }
    }

    /// An unhealthy snapshot that carries only the error `err`.
    pub fn with_error(err: String, now: u64) -> (r: Self)
        ensures
            !r.healthy,
            r.last_updated == now,
            r.error == Some(err),
            r.base_url@.len() == 0,
            r.transactions_cache is None,
            r.bundles_cache is None,
            r.signed_orders_cache is None,
            r.transactions@.len() == 0,
            !r.has_more,
    {
        TxPoolMetrics {
            healthy: false,
            last_updated: now,
            error: Some(err),
            base_url: String::new(),
            transactions_cache: None,
            bundles_cache: None,
            signed_orders_cache: None,
            transactions: Vec::new(),
            has_more: false,
        }
    }

    /// Assembles the snapshot from the outcomes of the three count calls and,
    /// when listing is enabled, of the listing call.
    ///
    /// Healthy exactly when no call failed; data that did arrive is kept
    /// either way, and the error names each failed call.
    pub fn from_fetches(
        base_url: String,
        now: u64,
        transactions: Result<Option<u64>, String>,
        bundles: Result<Option<u64>, String>,
        signed_orders: Result<Option<u64>, String>,
        listing: Option<Result<TxPage, String>>,
        max_rows: usize,
    ) -> (r: Self)
        ensures
            r.base_url == base_url,
            r.last_updated == now,
            r.healthy == (failures(transactions, bundles, signed_orders, listing).len() == 0),
            r.healthy ==> r.error is None,
            !r.healthy ==> r.error is Some && r.error.unwrap()@ == joined(
                failures(transactions, bundles, signed_orders, listing),
            ),
            r.transactions_cache == count_or_unknown(transactions),
            r.bundles_cache == count_or_unknown(bundles),
            r.signed_orders_cache == count_or_unknown(signed_orders),
            r.transactions@ == match listing {
                Some(Ok(page)) => first_rows(kept_rows(page.records@), max_rows),
                _ => Seq::empty(),
            },
            r.has_more == match listing {
                Some(Ok(page)) => page.has_cursor,
                _ => false,
            },
    {
        let mut messages: Vec<String> = Vec::new();
        if let Err(e) = &transactions {
            messages.push(label_cause("transactions", e));
        }
        if let Err(e) = &bundles {
            messages.push(label_cause("bundles", e));
        }
        if let Err(e) = &signed_orders {
            messages.push(label_cause("signed-orders", e));
        }
        let (rows, has_more) = match &listing {
            Some(Ok(page)) => (select_rows(&page.records, max_rows), page.has_cursor),
            Some(Err(e)) => {
                messages.push(label_cause("transaction list", e));
                (Vec::new(), false)
            },
            None => (Vec::new(), false),
        };
        let ghost parts = failures(transactions, bundles, signed_orders, listing);
        assert(messages@.map_values(|m: String| m@) =~= parts);
        let healthy = messages.len() == 0;
        let error = if healthy {
            None
        } else {
            Some(join_messages(&messages))
        };
        TxPoolMetrics {
            healthy,
            last_updated: now,
            error,
            base_url,
            transactions_cache: match transactions {
                Ok(v) => v,
                Err(_) => None,
            },
            bundles_cache: match bundles {
                Ok(v) => v,
                Err(_) => None,
            },
            signed_orders_cache: match signed_orders {
                Ok(v) => v,
                Err(_) => None,
            },
            transactions: rows,
            has_more,
        }
    }
}

/// `label: cause` as a new string.
pub fn label_cause(label: &str, cause: &String) -> (r: String)
    ensures
        r@ == labelled(label@, cause@),
{
    String::from_str(label).concat(": ").concat(cause.as_str())
}

/// The messages separated by `, `.
pub fn join_messages(messages: &Vec<String>) -> (r: String)
    ensures
        r@ == joined(messages@.map_values(|m: String| m@)),
{
    let ghost parts = messages@.map_values(|m: String| m@);
    let mut out = String::new();
    let mut i: usize = 0;
    while i < messages.len()
        invariant
            i <= messages@.len(),
            parts == messages@.map_values(|m: String| m@),
            out@ == joined(parts.take(i as int)),
        decreases messages@.len() - i,
    {
        proof {
            assert(parts.take(i + 1).drop_last() =~= parts.take(i as int));
        }
        if i > 0 {
            out.append(", ");
        }
        out.append(messages[i].as_str());
        proof {
            if i == 0 {
                assert(out@ =~= parts.take(1)[0]);
            }
        }
        i += 1;
    }
    assert(parts.take(messages@.len() as int) =~= parts);
    out
}

fn clone_text(v: &Option<String>) -> (r: Option<String>)
    ensures
        r == *v,
{
    match v {
        Some(s) => Some(s.clone()),
        None => None,
    }
}

/// The listed records that name a sender, as rows, at most `max_rows` of
/// them; records without a sender are dropped one by one.
pub fn select_rows(records: &Vec<TxRecord>, max_rows: usize) -> (r: Vec<TxPoolTx>)
    ensures
        r@ == first_rows(kept_rows(records@), max_rows),
{
    let mut out: Vec<TxPoolTx> = Vec::new();
    let mut i: usize = 0;
    while i < records.len()
        invariant
            i <= records@.len(),
            out@ == first_rows(kept_rows(records@.take(i as int)), max_rows),
        decreases records@.len() - i,
    {
        let rec = &records[i];
        proof {
            assert(records@.take(i + 1).drop_last() =~= records@.take(i as int));
            assert(records@.take(i + 1).last() == records@[i as int]);
        }
        if let Some(from) = &rec.from {
            if out.len() < max_rows {
                let row = TxPoolTx {
                    hash: rec.hash.clone(),
                    from: from.clone(),
                    to: clone_text(&rec.to),
                    value: rec.value.clone(),
                    nonce: clone_text(&rec.nonce),
                    gas_limit: clone_text(&rec.gas_limit),
                    max_fee_per_gas: clone_text(&rec.max_fee_per_gas),
                    max_priority_fee_per_gas: clone_text(&rec.max_priority_fee_per_gas),
                    gas_price: clone_text(&rec.gas_price),
                    tx_type: rec.tx_type,
                };
                out.push(row);
            } else {
                proof {
                    let k = kept_rows(records@.take(i as int));
                    assert(k.push(row_of(records@[i as int], *from)).take(max_rows as int) =~= k.take(
                        max_rows as int,
                    ));
                }
            }
        }
        i += 1;
    }
    assert(records@.take(records@.len() as int) =~= records@);
    out
}

/// Length of the array under `key`, from the first member with that key.
pub fn array_len_under(fields: &Vec<JsonField>, key: &str) -> (r: Option<usize>)
    ensures
        r == array_under(fields@, key@),
{
    let wanted = String::from_str(key);
    let n = fields.len();
    let mut i: usize = 0;
    assert(fields@.skip(0) =~= fields@);
    while i < n
        invariant
            i <= n,
            n == fields@.len(),
            wanted@ == key@,
            array_under(fields@, key@) == array_under(fields@.skip(i as int), key@),
        decreases n - i,
    {
        assert(fields@.skip(i as int)[0] == fields@[i as int]);
        assert(fields@.skip(i as int).drop_first() =~= fields@.skip(i + 1));
        if fields[i].key == wanted {
            return fields[i].array_len;
        }
        i += 1;
    }
    None
}

/// Counts the items of a service response body.
pub fn count_items(shape: &JsonShape) -> (r: Option<u64>)
    ensures
        r == item_count(*shape),
{
    match shape {
        JsonShape::Array(n) => Some(*n as u64),
        JsonShape::Object(fields) => {
            let keys: [&str; 6] = [
                "items",
                "data",
                "transactions",
                "bundles",
                "signedOrders",
                "signed_orders",
            ];
            let mut i: usize = 0;
            while i < 6
                invariant
                    i <= 6,
                    *shape == JsonShape::Object(*fields),
                    forall|j: int| 0 <= j < 6 ==> keys@[j]@ == item_keys()[j],
                    first_array_under(fields@, 0) == first_array_under(fields@, i as int),
                decreases 6 - i,
            {
                let key = keys[i];
                assert(key@ == item_keys()[i as int]);
                assert(item_keys().len() == 6);
                if let Some(n) = array_len_under(fields, key) {
                    assert(first_array_under(fields@, i as int) == Some(n));
                    return Some(n as u64);
                }
                i += 1;
            }
            None
        },
        JsonShape::Other => None,
    }
}

} // verus!
