//! Metrics aggregator: the decisions of one poll cycle, as a state machine.
//!
//! The caller asks `next_call` which node call to make, makes it, and hands
//! the outcome to `apply`, until the answer is `Finish`; then it calls
//! `finish_poll`. Status is decided by a strict pipeline: the chain id probe
//! sets it, and each later stage can only downgrade it to an error.

use crate::config::{
    default_percentiles, DEFAULT_REFRESH_SECS, DEFAULT_TXPOOL_URL, FEE_HISTORY_BLOCKS,
    MAX_BACKFILL_PER_CYCLE, POOL_MAX_ROWS, STALE_AFTER_MS, SUGGESTION_RAMP_PCT,
};
use crate::fees::{estimate_fees, estimate_of, FeeHistory, Ratio, SuggestedFees};
use crate::history::{
    backfill_numbers, backfill_plan, bounded, history_ok, max_timestamp, record_block,
    with_block, BlockInfo,
};
use crate::status::{becomes_stale, status_after_check, ConnectionStatus};
use crate::txpool::{label_cause, labelled, TxPoolMetrics};
use std::collections::VecDeque;
use vstd::prelude::*;
use vstd::string::StringExecFns;

verus! {

/// Tunables of one monitored endpoint.
#[derive(Debug, Clone)]
pub struct Config {
    pub rpc_url: String,
    /// Seconds without a new block before the delay alert shows.
    pub block_delay_threshold: u64,
    pub max_block_history: usize,
    pub max_backfill_per_cycle: u64,
    pub stale_after_ms: u64,
    pub refresh_interval_secs: u64,
    pub fee_history_blocks: u64,
    pub fee_history_percentiles: Vec<u32>,
    /// Headroom on the priority fee in a suggested max fee, in percent.
    pub ramp_pct: u32,
    pub pool_max_rows: usize,
    pub pool_list_enabled: bool,
}

impl Config {
    /// A configuration with the given endpoint, alert threshold and history
    /// length, and the defaults for the rest.
    pub fn new(rpc_url: String, block_delay_threshold: u64, max_block_history: usize) -> (r: Self)
        ensures
            r.rpc_url == rpc_url,
            r.block_delay_threshold == block_delay_threshold,
            r.max_block_history == max_block_history,
            r.max_backfill_per_cycle == MAX_BACKFILL_PER_CYCLE,
            r.stale_after_ms == STALE_AFTER_MS,
            r.refresh_interval_secs == DEFAULT_REFRESH_SECS,
            r.fee_history_blocks == FEE_HISTORY_BLOCKS,
            r.fee_history_percentiles@ == seq![10u32, 25u32, 50u32, 75u32, 90u32],
            r.ramp_pct == SUGGESTION_RAMP_PCT,
            r.pool_max_rows == POOL_MAX_ROWS,
            r.pool_list_enabled,
    {
        Config {
            rpc_url,
            block_delay_threshold,
            max_block_history,
            max_backfill_per_cycle: MAX_BACKFILL_PER_CYCLE,
            stale_after_ms: STALE_AFTER_MS,
            refresh_interval_secs: DEFAULT_REFRESH_SECS,
            fee_history_blocks: FEE_HISTORY_BLOCKS,
            fee_history_percentiles: default_percentiles(),
            ramp_pct: SUGGESTION_RAMP_PCT,
            pool_max_rows: POOL_MAX_ROWS,
            pool_list_enabled: true,
        }
    }
}

/// Display state of one monitored endpoint. Clock readings are milliseconds
/// on the caller's monotonic clock; block timestamps are unix seconds.
#[derive(Debug)]
pub struct SignetMetrics {
    pub block_number: Option<u64>,
    pub gas_price: Option<u128>,
    pub chain_id: Option<u64>,
    pub last_updated: u64,
    pub last_successful: Option<u64>,
    pub rpc_url: String,
    pub connection_status: ConnectionStatus,
    /// Newest first.
    pub block_history: VecDeque<BlockInfo>,
    pub max_block_history: usize,
    /// Largest block timestamp ever observed.
    pub latest_block_timestamp: Option<u64>,
    pub block_delay_threshold: u64,
    pub txpool: Option<TxPoolMetrics>,
    pub base_fee_per_gas: Option<u128>,
    pub next_base_fee_per_gas: Option<u128>,
    pub max_priority_fee_suggested: Option<u128>,
    pub suggested_fees: Option<SuggestedFees>,
    pub fee_history: Option<FeeHistory>,
    pub gas_utilization_pct: Option<Ratio>,
    pub base_fee_to_mean: Option<Ratio>,
}

impl SignetMetrics {
    /// Fresh state for the endpoint of `config`, with nothing observed yet.
    pub fn new(config: &Config, now: u64) -> (r: Self)
        ensures
            r.rpc_url == config.rpc_url,
            r.max_block_history == config.max_block_history,
            r.block_delay_threshold == config.block_delay_threshold,
            r.connection_status is Disconnected,
            r.last_updated == now,
            r.last_successful is None,
            r.block_history@.len() == 0,
            r.block_number is None,
            r.gas_price is None,
            r.chain_id is None,
            r.latest_block_timestamp is None,
            r.txpool is None,
            r.base_fee_per_gas is None,
            r.next_base_fee_per_gas is None,
            r.max_priority_fee_suggested is None,
            r.suggested_fees is None,
            r.fee_history is None,
            r.gas_utilization_pct is None,
            r.base_fee_to_mean is None,
    {
        SignetMetrics {
            block_number: None,
            gas_price: None,
            chain_id: None,
            last_updated: now,
            last_successful: None,
            rpc_url: config.rpc_url.clone(),
            connection_status: ConnectionStatus::Disconnected,
            block_history: VecDeque::new(),
            max_block_history: config.max_block_history,
            latest_block_timestamp: None,
            block_delay_threshold: config.block_delay_threshold,
            txpool: None,
            base_fee_per_gas: None,
            next_base_fee_per_gas: None,
            max_priority_fee_suggested: None,
            suggested_fees: None,
            fee_history: None,
            gas_utilization_pct: None,
            base_fee_to_mean: None,
        }
    }
}

/// Where a poll cycle stands.
#[derive(Debug, Clone, Copy, PartialEq, Eq, Structural)]
pub enum PollStage {
    Idle,
    ChainId,
    BlockNumber,
    Blocks,
    GasPrice,
    FeeHistory,
    PriorityFee,
    Done,
}

/// The node call to make next.
#[derive(Debug, Clone, Copy, PartialEq, Eq, Structural)]
pub enum RpcCall {
    ChainId,
    BlockNumber,
    BlockByNumber(u64),
    GasPrice,
    FeeHistory,
    MaxPriorityFee,
    /// No call is left in this cycle: call `finish_poll`.
    Finish,
}

/// The outcome of a node call, with the cause of a failure as text.
#[derive(Debug)]
pub enum RpcReply {
    ChainId(Result<u64, String>),
    BlockNumber(Result<u64, String>),
    Block(Result<BlockInfo, String>),
    GasPrice(Result<u128, String>),
    FeeHistory(Result<FeeHistory, String>),
    MaxPriorityFee(Result<u128, String>),
}

/// Owns the display state of one endpoint and decides each poll cycle.
pub struct MetricsCollector {
    config: Config,
    metrics: SignetMetrics,
    txpool_url: Option<String>,
    stage: PollStage,
    cycle_status: ConnectionStatus,
    pending: Vec<u64>,
    cursor: usize,
}

/// Number of the newest recorded block.
pub open spec fn newest_number(history: Seq<BlockInfo>) -> Option<u64> {
    if history.len() > 0 {
        Some(history[0].number)
    } else {
        None
    }
}

/// Stages that are only reached while the chain id probe holds.
pub open spec fn probing(stage: PollStage) -> bool {
    match stage {
        PollStage::BlockNumber | PollStage::Blocks | PollStage::GasPrice | PollStage::FeeHistory
        | PollStage::PriorityFee => true,
        _ => false,
    }
}

/// The call that a stage asks for.
pub open spec fn call_for(stage: PollStage, pending: Seq<u64>, cursor: int) -> RpcCall {
    match stage {
        PollStage::ChainId => RpcCall::ChainId,
        PollStage::BlockNumber => RpcCall::BlockNumber,
        PollStage::Blocks => RpcCall::BlockByNumber(pending[cursor]),
        PollStage::GasPrice => RpcCall::GasPrice,
        PollStage::FeeHistory => RpcCall::FeeHistory,
        PollStage::PriorityFee => RpcCall::MaxPriorityFee,
        _ => RpcCall::Finish,
    }
}

/// Whether `reply` answers the call that `stage` asks for.
pub open spec fn expects(stage: PollStage, reply: RpcReply) -> bool {
    match reply {
        RpcReply::ChainId(_) => stage is ChainId,
        RpcReply::BlockNumber(_) => stage is BlockNumber,
        RpcReply::Block(_) => stage is Blocks,
        RpcReply::GasPrice(_) => stage is GasPrice,
        RpcReply::FeeHistory(_) => stage is FeeHistory,
        RpcReply::MaxPriorityFee(_) => stage is PriorityFee,
    }
}

/// `status` is the error `label: cause`.
pub open spec fn error_named(status: ConnectionStatus, label: Seq<char>, cause: String) -> bool {
    match status {
        ConnectionStatus::Error(m) => m@ == labelled(label, cause@),
        _ => false,
    }
}

/// The cycle's status after an expected reply: the chain id sets it; a failed
/// block number or gas price makes it an error naming that stage; nothing
/// else touches it.
pub open spec fn status_follows(before: ConnectionStatus, reply: RpcReply, after: ConnectionStatus) -> bool {
    match reply {
        RpcReply::ChainId(Ok(_)) => after is Connected,
        RpcReply::ChainId(Err(e)) => error_named(after, "Chain ID"@, e),
        RpcReply::BlockNumber(Err(e)) => error_named(after, "Block number"@, e),
        RpcReply::GasPrice(Err(e)) => error_named(after, "Gas price"@, e),
        _ => after == before,
    }
}

/// The display state with every field derived from the fee history set
/// from the estimate of `history`, or cleared when there is none.
pub open spec fn with_fees(m: SignetMetrics, history: Option<FeeHistory>, ramp_pct: u32) -> SignetMetrics {
    match history {
        Some(h) => {
            let e = estimate_of(h, ramp_pct);
            SignetMetrics {
                base_fee_per_gas: e.base_fee_per_gas,
                next_base_fee_per_gas: e.next_base_fee_per_gas,
                suggested_fees: Some(e.suggested_fees),
                fee_history: Some(h),
                gas_utilization_pct: e.gas_utilization_pct,
                base_fee_to_mean: e.base_fee_to_mean,
                ..m
            }
        },
        None => SignetMetrics {
            base_fee_per_gas: None,
            next_base_fee_per_gas: None,
            suggested_fees: None,
            fee_history: None,
            gas_utilization_pct: None,
            base_fee_to_mean: None,
            ..m
        },
    }
}

/// What `apply` does: a reply that the current stage does not ask for
/// changes nothing; an expected one updates the cycle's status, the display
/// state and the stage as follows.
pub open spec fn applied(before: MetricsCollector, reply: RpcReply, after: MetricsCollector) -> bool {
    let m0 = before.metrics_view();
    let m1 = after.metrics_view();
    let cfg = before.config_view();
    if !expects(before.stage(), reply) {
        after == before
    } else {
        &&& after.config_view() == cfg
        &&& after.txpool_url_view() == before.txpool_url_view()
        &&& status_follows(before.cycle_status(), reply, after.cycle_status())
        &&& match reply {
            RpcReply::ChainId(Ok(id)) => {
                &&& m1 == SignetMetrics { chain_id: Some(id), ..m0 }
                &&& after.stage() is BlockNumber
            },
            RpcReply::ChainId(Err(_)) => m1 == m0 && after.stage() is Done,
            RpcReply::BlockNumber(Ok(n)) => {
                &&& m1 == SignetMetrics { block_number: Some(n), ..m0 }
                &&& after.pending() == backfill_numbers(
                    newest_number(m0.block_history@),
                    n,
                    cfg.max_backfill_per_cycle,
                )
                &&& after.cursor() == 0
                &&& after.stage() == if after.pending().len() == 0 {
                    PollStage::GasPrice
                } else {
                    PollStage::Blocks
                }
            },
            RpcReply::BlockNumber(Err(_)) => m1 == m0 && after.stage() is Done,
            RpcReply::Block(r) => {
                let wanted = before.pending()[before.cursor()];
                &&& m1 == SignetMetrics {
                    block_history: m1.block_history,
                    latest_block_timestamp: m1.latest_block_timestamp,
                    ..m0
                }
                &&& if r is Ok && r->Ok_0.number == wanted {
                    &&& m1.block_history@ == bounded(
                        with_block(m0.block_history@, r->Ok_0),
                        m0.max_block_history,
                    )
                    &&& m1.latest_block_timestamp == max_timestamp(
                        m0.latest_block_timestamp,
                        r->Ok_0.timestamp,
                    )
                } else {
                    &&& m1.block_history@ == m0.block_history@
                    &&& m1.latest_block_timestamp == m0.latest_block_timestamp
                }
                &&& after.pending() == before.pending()
                &&& after.cursor() == before.cursor() + 1
                &&& after.stage() == if after.cursor() == after.pending().len() {
                    PollStage::GasPrice
                } else {
                    PollStage::Blocks
                }
            },
            RpcReply::GasPrice(Ok(g)) => {
                &&& m1 == SignetMetrics { gas_price: Some(g), ..m0 }
                &&& after.stage() is FeeHistory
            },
            RpcReply::GasPrice(Err(_)) => m1 == m0 && after.stage() is Done,
            RpcReply::FeeHistory(r) => {
                &&& m1 == with_fees(
                    m0,
                    match r {
                        Ok(h) => Some(h),
                        Err(_) => None,
                    },
                    cfg.ramp_pct,
                )
                &&& after.stage() is PriorityFee
            },
            RpcReply::MaxPriorityFee(r) => {
                &&& m1 == SignetMetrics {
                    max_priority_fee_suggested: match r {
                        Ok(p) => Some(p),
                        Err(_) => None,
                    },
                    ..m0
                }
                &&& after.stage() is Done
            },
        }
    }
}

/// Within a poll cycle, once the chain id probe has answered, each reply
/// either leaves the cycle's status as it is or moves it from `Connected` to
/// an error; it never moves back towards `Connected`.
pub proof fn lemma_status_only_degrades(before: MetricsCollector, reply: RpcReply, after: MetricsCollector)
    requires
        before.wf(),
        !(before.stage() is ChainId),
        applied(before, reply, after),
    ensures
        after.cycle_status() == before.cycle_status() || (before.cycle_status() is Connected
            && after.cycle_status() is Error),
{
}

/// An error ends the cycle: once the cycle's status is an error, no further
/// node call is asked for, and no reply changes anything.
pub proof fn lemma_error_ends_cycle(c: MetricsCollector, reply: RpcReply, after: MetricsCollector)
    requires
        c.wf(),
        c.cycle_status() is Error,
        applied(c, reply, after),
    ensures
        call_for(c.stage(), c.pending(), c.cursor()) == RpcCall::Finish,
        after == c,
{
}

/// `cs[i + 1]` is what `apply` makes of `cs[i]` and `rs[i]`, for each `i`.
pub open spec fn is_run(cs: Seq<MetricsCollector>, rs: Seq<RpcReply>) -> bool {
    &&& cs.len() == rs.len() + 1
    &&& forall|i: int| 0 <= i < rs.len() ==> applied(#[trigger] cs[i], rs[i], cs[i + 1])
}

/// An asked-for chain id that came back.
pub open spec fn probe_succeeded(stage: PollStage, reply: RpcReply) -> bool {
    expects(stage, reply) && reply is ChainId && reply->ChainId_0 is Ok
}

/// An asked-for chain id, block number or gas price that failed.
pub open spec fn liveness_failed(stage: PollStage, reply: RpcReply) -> bool {
    &&& expects(stage, reply)
    &&& match reply {
        RpcReply::ChainId(Err(_)) | RpcReply::BlockNumber(Err(_)) | RpcReply::GasPrice(Err(_)) => true,
        _ => false,
    }
}

/// Some reply before the `n`-th is a successful probe.
pub open spec fn probed_before(cs: Seq<MetricsCollector>, rs: Seq<RpcReply>, n: int) -> bool {
    exists|i: int| 0 <= i < n && probe_succeeded(cs[i].stage(), #[trigger] rs[i])
}

/// Some reply before the `n`-th is a failed liveness call.
pub open spec fn failed_before(cs: Seq<MetricsCollector>, rs: Seq<RpcReply>, n: int) -> bool {
    exists|i: int| 0 <= i < n && liveness_failed(cs[i].stage(), #[trigger] rs[i])
}

/// The error `status` names the failed liveness call of some reply before the `n`-th.
pub open spec fn error_from_before(cs: Seq<MetricsCollector>, rs: Seq<RpcReply>, n: int, status: ConnectionStatus) -> bool {
    exists|i: int|
        0 <= i < n && liveness_failed(cs[i].stage(), #[trigger] rs[i]) && status_follows(
            cs[i].cycle_status(),
            rs[i],
            status,
        )
}

proof fn lemma_run_prefix(cs: Seq<MetricsCollector>, rs: Seq<RpcReply>, n: int)
    requires
        is_run(cs, rs),
        forall|i: int| 0 <= i < cs.len() ==> (#[trigger] cs[i]).wf(),
        cs[0].stage() is ChainId,
        cs[0].cycle_status() is Disconnected,
        0 <= n <= rs.len(),
    ensures
        (cs[n].stage() is ChainId) == (!probed_before(cs, rs, n) && !failed_before(cs, rs, n)),
        cs[n].stage() is ChainId ==> cs[n].cycle_status() is Disconnected,
        (cs[n].cycle_status() is Connected) == (probed_before(cs, rs, n) && !failed_before(
            cs,
            rs,
            n,
        )),
        failed_before(cs, rs, n) ==> cs[n].cycle_status() is Error,
        cs[n].cycle_status() is Error ==> error_from_before(cs, rs, n, cs[n].cycle_status()),
        !(cs[n].cycle_status() is Stale),
    decreases n,
{
    if n > 0 {
        let k = n - 1;
        lemma_run_prefix(cs, rs, k);
        let c = cs[k];
        let r = rs[k];
        let d = cs[n];
        assert(applied(c, r, d));
        assert(c.wf());
        if !expects(c.stage(), r) {
            assert(d == c);
            assert(!probe_succeeded(c.stage(), r));
            assert(!liveness_failed(c.stage(), r));
            assert(probed_before(cs, rs, n) == probed_before(cs, rs, k));
            assert(failed_before(cs, rs, n) == failed_before(cs, rs, k));
            if d.cycle_status() is Error {
                let i = choose|i: int|
                    0 <= i < k && liveness_failed(cs[i].stage(), #[trigger] rs[i])
                        && status_follows(cs[i].cycle_status(), rs[i], c.cycle_status());
                assert(error_from_before(cs, rs, n, d.cycle_status()));
            }
        } else if c.stage() is ChainId {
            assert(!probed_before(cs, rs, k) && !failed_before(cs, rs, k));
            if probe_succeeded(c.stage(), r) {
                assert(probed_before(cs, rs, n));
                assert(!failed_before(cs, rs, n));
            } else {
                assert(liveness_failed(c.stage(), r));
                assert(failed_before(cs, rs, n));
                assert(error_from_before(cs, rs, n, d.cycle_status()));
            }
        } else {
            assert(probing(c.stage()));
            assert(c.cycle_status() is Connected);
            assert(!probe_succeeded(c.stage(), r));
            assert(probed_before(cs, rs, n));
            if liveness_failed(c.stage(), r) {
                assert(failed_before(cs, rs, n));
                assert(error_from_before(cs, rs, n, d.cycle_status()));
            } else {
                assert(d.cycle_status() == c.cycle_status());
                assert(failed_before(cs, rs, n) == failed_before(cs, rs, k));
            }
        }
    } else {
        assert(!probed_before(cs, rs, 0));
        assert(!failed_before(cs, rs, 0));
    }
}

/// Over a whole cycle started by `begin_poll`, whatever replies come: the
/// cycle ends `Connected` exactly when the chain id came back and none of
/// the chain id, block number and gas price calls failed; an error names
/// the call that failed; the cycle never ends `Stale`.
pub proof fn lemma_cycle_status(cs: Seq<MetricsCollector>, rs: Seq<RpcReply>)
    requires
        is_run(cs, rs),
        forall|i: int| 0 <= i < cs.len() ==> (#[trigger] cs[i]).wf(),
        cs[0].stage() is ChainId,
        cs[0].cycle_status() is Disconnected,
    ensures
        (cs.last().cycle_status() is Connected) == (probed_before(cs, rs, rs.len() as int)
            && !failed_before(cs, rs, rs.len() as int)),
        cs.last().cycle_status() is Error ==> error_from_before(
            cs,
            rs,
            rs.len() as int,
            cs.last().cycle_status(),
        ),
        !(cs.last().cycle_status() is Stale),
{
    lemma_run_prefix(cs, rs, rs.len() as int);
}

/// The chain id probe leaves the cycle either `Connected` or in an error.
pub proof fn lemma_probe_decides_status(before: MetricsCollector, reply: RpcReply, after: MetricsCollector)
    requires
        before.stage() is ChainId,
        reply is ChainId,
        applied(before, reply, after),
    ensures
        after.cycle_status() is Connected || after.cycle_status() is Error,
{
}

/// In every state of a collector the block history is strictly descending
/// by number (newest first, no number twice) and holds at most
/// `max_block_history` entries.
pub proof fn lemma_history_ordered_and_bounded(c: MetricsCollector)
    requires
        c.wf(),
    ensures
        c.metrics_view().block_history@.len() <= c.metrics_view().max_block_history,
        forall|i: int|
            0 <= i < c.metrics_view().block_history@.len() - 1
                ==> #[trigger] c.metrics_view().block_history@[i].number
                > c.metrics_view().block_history@[i + 1].number,
{
}

/// Any reply, a fetched block included, leaves the history ordered and
/// within its bound.
pub proof fn lemma_reply_keeps_history(before: MetricsCollector, reply: RpcReply, after: MetricsCollector)
    requires
        before.wf(),
        applied(before, reply, after),
    ensures
        history_ok(after.metrics_view().block_history@, after.metrics_view().max_block_history),
{
    let m0 = before.metrics_view();
    if expects(before.stage(), reply) {
        if let RpcReply::Block(Ok(b)) = reply {
            crate::history::lemma_record_keeps_history_ok(m0.block_history@, b, m0.max_block_history);
        }
    }
}

impl MetricsCollector {
    pub closed spec fn config_view(&self) -> Config {
        self.config
    }

    pub closed spec fn metrics_view(&self) -> SignetMetrics {
        self.metrics
    }

    pub closed spec fn txpool_url_view(&self) -> Option<String> {
        self.txpool_url
    }

    pub closed spec fn stage(&self) -> PollStage {
        self.stage
    }

    /// The status that the running cycle has reached so far.
    pub closed spec fn cycle_status(&self) -> ConnectionStatus {
        self.cycle_status
    }

    /// The block numbers that this cycle fetches.
    pub closed spec fn pending(&self) -> Seq<u64> {
        self.pending@
    }

    /// How many of the pending block numbers have been answered.
    pub closed spec fn cursor(&self) -> int {
        self.cursor as int
    }

    /// The collector's invariant: the history is ordered and bounded, a
    /// block fetch has a number to fetch, the probing stages are only
    /// reached while the link is up, and an error ends the cycle.
    pub closed spec fn wf(&self) -> bool {
        &&& history_ok(self.metrics.block_history@, self.metrics.max_block_history)
        &&& self.metrics.max_block_history == self.config.max_block_history
        &&& (self.stage is Blocks ==> self.cursor < self.pending@.len())
        &&& (probing(self.stage) ==> self.cycle_status is Connected)
        &&& (self.cycle_status is Error ==> self.stage is Done)
    }

    /// A collector for `config`, with no cycle running.
    pub fn new(config: Config, now: u64) -> (r: Self)
        ensures
            r.wf(),
            r.config_view() == config,
            r.stage() is Idle,
            r.txpool_url_view() is None,
            r.metrics_view().rpc_url == config.rpc_url,
            r.metrics_view().max_block_history == config.max_block_history,
            r.metrics_view().block_delay_threshold == config.block_delay_threshold,
            r.metrics_view().connection_status is Disconnected,
            r.metrics_view().last_updated == now,
            r.metrics_view().last_successful is None,
            r.metrics_view().block_history@.len() == 0,
            r.metrics_view().chain_id is None,
            r.metrics_view().block_number is None,
            r.metrics_view().gas_price is None,
            r.metrics_view().latest_block_timestamp is None,
            r.metrics_view().txpool is None,
            r.metrics_view().base_fee_per_gas is None,
            r.metrics_view().next_base_fee_per_gas is None,
            r.metrics_view().max_priority_fee_suggested is None,
            r.metrics_view().suggested_fees is None,
            r.metrics_view().fee_history is None,
            r.metrics_view().gas_utilization_pct is None,
            r.metrics_view().base_fee_to_mean is None,
            r.cycle_status() is Disconnected,
    {
        let metrics = SignetMetrics::new(&config, now);
        MetricsCollector {
            config,
            metrics,
            txpool_url: None,
            stage: PollStage::Idle,
            cycle_status: ConnectionStatus::Disconnected,
            pending: Vec::new(),
            cursor: 0,
        }
    }

    /// A collector that also watches a pool service: the one at
    /// `txpool_url`, or the default one.
    pub fn new_with_txpool(config: Config, txpool_url: Option<String>, now: u64) -> (r: Self)
        ensures
            r.wf(),
            r.config_view() == config,
            r.stage() is Idle,
            r.cycle_status() is Disconnected,
            r.metrics_view().rpc_url == config.rpc_url,
            r.metrics_view().max_block_history == config.max_block_history,
            r.metrics_view().block_delay_threshold == config.block_delay_threshold,
            r.metrics_view().block_history@.len() == 0,
            r.metrics_view().connection_status is Disconnected,
            r.metrics_view().last_updated == now,
            r.metrics_view().last_successful is None,
            r.metrics_view().txpool is None,
            r.metrics_view().chain_id is None,
            r.metrics_view().block_number is None,
            r.metrics_view().gas_price is None,
            r.metrics_view().latest_block_timestamp is None,
            r.metrics_view().base_fee_per_gas is None,
            r.metrics_view().next_base_fee_per_gas is None,
            r.metrics_view().max_priority_fee_suggested is None,
            r.metrics_view().suggested_fees is None,
            r.metrics_view().fee_history is None,
            r.metrics_view().gas_utilization_pct is None,
            r.metrics_view().base_fee_to_mean is None,
            r.txpool_url_view() is Some,
            txpool_url is Some ==> r.txpool_url_view() == txpool_url,
            txpool_url is None ==> r.txpool_url_view().unwrap()@ == DEFAULT_TXPOOL_URL@,
    {
        let mut s = Self::new(config, now);
        s.txpool_url = match txpool_url {
            Some(url) => Some(url),
            None => Some(String::from_str(DEFAULT_TXPOOL_URL)),
        };
        s
    }

    /// The configuration this collector runs with.
    pub fn config(&self) -> (r: &Config)
        ensures
            *r == self.config_view(),
    {
        &self.config
    }

    /// The pool service this collector watches, if any.
    pub fn txpool_url(&self) -> (r: &Option<String>)
        ensures
            *r == self.txpool_url_view(),
    {
        &self.txpool_url
    }

    /// The current display state. Its history is always newest first,
    /// strictly descending, and within its bound.
    pub fn get_metrics(&self) -> (r: &SignetMetrics)
        requires
            self.wf(),
        ensures
            *r == self.metrics_view(),
            history_ok(r.block_history@, r.max_block_history),
    {
        &self.metrics
    }

    /// Starts a poll cycle: the chain id probe comes first.
    pub fn begin_poll(&mut self)
        requires
            old(self).wf(),
        ensures
            final(self).wf(),
            final(self).stage() is ChainId,
            final(self).cycle_status() is Disconnected,
            final(self).metrics_view() == old(self).metrics_view(),
            final(self).config_view() == old(self).config_view(),
            final(self).txpool_url_view() == old(self).txpool_url_view(),
    {
        self.stage = PollStage::ChainId;
        self.cycle_status = ConnectionStatus::Disconnected;
        self.pending = Vec::new();
        self.cursor = 0;
    }

    /// The node call to make next, or `Finish` when the cycle has none left.
    pub fn next_call(&self) -> (r: RpcCall)
        requires
            self.wf(),
        ensures
            r == call_for(self.stage(), self.pending(), self.cursor()),
    {
        match self.stage {
            PollStage::ChainId => RpcCall::ChainId,
            PollStage::BlockNumber => RpcCall::BlockNumber,
            PollStage::Blocks => RpcCall::BlockByNumber(self.pending[self.cursor]),
            PollStage::GasPrice => RpcCall::GasPrice,
            PollStage::FeeHistory => RpcCall::FeeHistory,
            PollStage::PriorityFee => RpcCall::MaxPriorityFee,
            _ => RpcCall::Finish,
        }
    }

    /// Records the outcome of the call that `next_call` asked for. A reply
    /// to a call that was not asked for changes nothing, and a block whose
    /// number is not the one asked for counts as a failed fetch.
    pub fn apply(&mut self, reply: RpcReply)
        requires
            old(self).wf(),
        ensures
            final(self).wf(),
            applied(*old(self), reply, *final(self)),
    {
        match reply {
            RpcReply::ChainId(r) => {
                if self.stage != PollStage::ChainId {
                    return ;
                }
                match r {
                    Ok(id) => {
                        self.metrics.chain_id = Some(id);
                        self.cycle_status = ConnectionStatus::Connected;
                        self.stage = PollStage::BlockNumber;
                    },
                    Err(e) => {
                        self.cycle_status = ConnectionStatus::Error(label_cause("Chain ID", &e));
                        self.stage = PollStage::Done;
                    },
                }
            },
            RpcReply::BlockNumber(r) => {
                if self.stage != PollStage::BlockNumber {
                    return ;
                }
                match r {
                    Ok(n) => {
                        self.metrics.block_number = Some(n);
                        let newest = if self.metrics.block_history.len() > 0 {
                            Some(self.metrics.block_history[0].number)
                        } else {
                            None
                        };
                        self.pending = backfill_plan(newest, n, self.config.max_backfill_per_cycle);
                        self.cursor = 0;
                        self.stage = if self.pending.len() == 0 {
                            PollStage::GasPrice
                        } else {
                            PollStage::Blocks
                        };
                    },
                    Err(e) => {
                        self.cycle_status = ConnectionStatus::Error(
                            label_cause("Block number", &e),
                        );
                        self.stage = PollStage::Done;
                    },
                }
            },
            RpcReply::Block(r) => {
                if self.stage != PollStage::Blocks {
                    return ;
                }
                let count = self.pending.len();
                assert(self.cursor < count);
                let wanted = self.pending[self.cursor];
                match r {
                    Ok(block) => {
                        if block.number == wanted {
                            let ts = block.timestamp;
                            record_block(
                                &mut self.metrics.block_history,
                                self.metrics.max_block_history,
                                block,
                            );
                            self.metrics.latest_block_timestamp =
                                match self.metrics.latest_block_timestamp {
                                Some(cur) => if ts > cur {
                                    Some(ts)
                                } else {
                                    Some(cur)
                                },
                                None => Some(ts),
                            };
                        }
                    },
                    Err(_) => {},
                }
                self.cursor = self.cursor + 1;
                if self.cursor == count {
                    self.stage = PollStage::GasPrice;
                }
            },
            RpcReply::GasPrice(r) => {
                if self.stage != PollStage::GasPrice {
                    return ;
                }
                match r {
                    Ok(g) => {
                        self.metrics.gas_price = Some(g);
                        self.stage = PollStage::FeeHistory;
                    },
                    Err(e) => {
                        self.cycle_status = ConnectionStatus::Error(label_cause("Gas price", &e));
                        self.stage = PollStage::Done;
                    },
                }
            },
            RpcReply::FeeHistory(r) => {
                if self.stage != PollStage::FeeHistory {
                    return ;
                }
                match r {
                    Ok(h) => {
                        let e = estimate_fees(&h, self.config.ramp_pct);
                        self.metrics.base_fee_per_gas = e.base_fee_per_gas;
                        self.metrics.next_base_fee_per_gas = e.next_base_fee_per_gas;
                        self.metrics.suggested_fees = Some(e.suggested_fees);
                        self.metrics.fee_history = Some(h);
                        self.metrics.gas_utilization_pct = e.gas_utilization_pct;
                        self.metrics.base_fee_to_mean = e.base_fee_to_mean;
                    },
                    Err(_) => {
                        self.metrics.base_fee_per_gas = None;
                        self.metrics.next_base_fee_per_gas = None;
                        self.metrics.suggested_fees = None;
                        self.metrics.fee_history = None;
                        self.metrics.gas_utilization_pct = None;
                        self.metrics.base_fee_to_mean = None;
                    },
                }
                self.stage = PollStage::PriorityFee;
            },
            RpcReply::MaxPriorityFee(r) => {
                if self.stage != PollStage::PriorityFee {
                    return ;
                }
                self.metrics.max_priority_fee_suggested = match r {
                    Ok(p) => Some(p),
                    Err(_) => None,
                };
                self.stage = PollStage::Done;
            },
        }
    }

    /// Ends the cycle: publishes its status and stamps the update time, and
    /// the success time when the link is up.
    pub fn finish_poll(&mut self, now: u64)
        requires
            old(self).wf(),
        ensures
            final(self).wf(),
            final(self).stage() is Idle,
            final(self).config_view() == old(self).config_view(),
            final(self).txpool_url_view() == old(self).txpool_url_view(),
            final(self).metrics_view() == (SignetMetrics {
                connection_status: old(self).cycle_status(),
                last_updated: now,
                last_successful: if old(self).cycle_status() is Connected {
                    Some(now)
                } else {
                    old(self).metrics_view().last_successful
                },
                ..old(self).metrics_view()
            }),
    {
        let connected = self.cycle_status.is_connected();
        let mut status = ConnectionStatus::Disconnected;
        std::mem::swap(&mut status, &mut self.cycle_status);
        self.metrics.connection_status = status;
        self.metrics.last_updated = now;
        if connected {
            self.metrics.last_successful = Some(now);
        }
        self.stage = PollStage::Idle;
    }

    /// Stores the latest pool snapshot; pool outcomes never touch the status.
    pub fn record_txpool(&mut self, snapshot: TxPoolMetrics)
        requires
            old(self).wf(),
        ensures
            final(self).wf(),
            final(self).metrics_view() == (SignetMetrics {
                txpool: Some(snapshot),
                ..old(self).metrics_view()
            }),
            final(self).stage() == old(self).stage(),
            final(self).cycle_status() == old(self).cycle_status(),
            final(self).config_view() == old(self).config_view(),
            final(self).txpool_url_view() == old(self).txpool_url_view(),
            final(self).pending() == old(self).pending(),
            final(self).cursor() == old(self).cursor(),
    {
        self.metrics.txpool = Some(snapshot);
    }

    /// Downgrades a live link to `Stale` when its last success is older than
    /// the configured threshold at time `now`; never restores `Connected`.
    pub fn check_staleness(&mut self, now: u64)
        requires
            old(self).wf(),
        ensures
            final(self).wf(),
            final(self).metrics_view() == (SignetMetrics {
                connection_status: status_after_check(
                    old(self).metrics_view().connection_status,
                    old(self).metrics_view().last_successful,
                    now,
                    old(self).config_view().stale_after_ms,
                ),
                ..old(self).metrics_view()
            }),
            final(self).stage() == old(self).stage(),
            final(self).cycle_status() == old(self).cycle_status(),
            final(self).config_view() == old(self).config_view(),
            final(self).txpool_url_view() == old(self).txpool_url_view(),
            final(self).pending() == old(self).pending(),
            final(self).cursor() == old(self).cursor(),
    {
        if becomes_stale(
            &self.metrics.connection_status,
            self.metrics.last_successful,
            now,
            self.config.stale_after_ms,
        ) {
            self.metrics.connection_status = ConnectionStatus::Stale;
        }
    }
}

} // verus!
