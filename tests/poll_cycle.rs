use futuresight::collector::{Config, MetricsCollector, RpcCall, RpcReply};
use futuresight::fees::{FeeHistory, RewardSeries};
use futuresight::history::BlockInfo;
use futuresight::status::ConnectionStatus;

fn block(number: u64, timestamp: u64) -> BlockInfo {
    BlockInfo {
        number,
        hash: format!("0x{:064x}", number),
        parent_hash: format!("0x{:064x}", number.saturating_sub(1)),
        timestamp,
        tx_count: 3,
        gas_used: 15_000_000,
        gas_limit: 30_000_000,
        base_fee_per_gas: Some(7),
    }
}

fn sample_fee_history() -> FeeHistory {
    FeeHistory {
        oldest_block: 98,
        base_fees: vec![100, 200, 300],
        gas_used_ppm: vec![500_000, 1_000_000],
        rewards: vec![RewardSeries { percentile: 50, values: vec![4, 6] }],
    }
}

/// Runs one full cycle against a node that answers everything, with blocks
/// stamped `1000 + number`; returns the block numbers that were fetched.
fn run_cycle(c: &mut MetricsCollector, chain_id: u64, head: u64, now: u64) -> Vec<u64> {
    let mut fetched = Vec::new();
    c.begin_poll();
    loop {
        let reply = match c.next_call() {
            RpcCall::ChainId => RpcReply::ChainId(Ok(chain_id)),
            RpcCall::BlockNumber => RpcReply::BlockNumber(Ok(head)),
            RpcCall::BlockByNumber(n) => {
                fetched.push(n);
                RpcReply::Block(Ok(block(n, 1000 + n)))
            }
            RpcCall::GasPrice => RpcReply::GasPrice(Ok(42)),
            RpcCall::FeeHistory => RpcReply::FeeHistory(Ok(sample_fee_history())),
            RpcCall::MaxPriorityFee => RpcReply::MaxPriorityFee(Ok(2)),
            RpcCall::Finish => break,
        };
        c.apply(reply);
    }
    c.finish_poll(now);
    fetched
}

fn numbers(c: &MetricsCollector) -> Vec<u64> {
    c.get_metrics().block_history.iter().map(|b| b.number).collect()
}

fn collector(max_history: usize) -> MetricsCollector {
    MetricsCollector::new(Config::new("http://localhost:8545".to_string(), 60, max_history), 0)
}

#[test]
fn first_poll_records_head_block() {
    let mut c = collector(20);
    let fetched = run_cycle(&mut c, 1, 100, 10);
    let m = c.get_metrics();
    assert_eq!(fetched, vec![100]);
    assert_eq!(numbers(&c), vec![100]);
    assert_eq!(m.latest_block_timestamp, Some(1100));
    assert_eq!(m.chain_id, Some(1));
    assert_eq!(m.block_number, Some(100));
    assert_eq!(m.gas_price, Some(42));
    assert_eq!(m.connection_status, ConnectionStatus::Connected);
    assert_eq!(m.last_updated, 10);
    assert_eq!(m.last_successful, Some(10));
}

#[test]
fn gap_backfills_only_newest_numbers() {
    let mut c = collector(20);
    run_cycle(&mut c, 1, 103, 1);
    run_cycle(&mut c, 1, 105, 2);
    assert_eq!(numbers(&c), vec![105, 104, 103]);
    let fetched = run_cycle(&mut c, 1, 112, 3);
    assert_eq!(fetched, vec![112, 111, 110, 109, 108, 107]);
    assert_eq!(numbers(&c), vec![112, 111, 110, 109, 108, 107, 105, 104, 103]);
}

#[test]
fn gap_backfill_is_cut_to_history_bound() {
    let mut c = collector(5);
    run_cycle(&mut c, 1, 103, 1);
    run_cycle(&mut c, 1, 105, 2);
    run_cycle(&mut c, 1, 112, 3);
    assert_eq!(numbers(&c), vec![112, 111, 110, 109, 108]);
}

#[test]
fn history_never_exceeds_bound_over_many_polls() {
    let mut c = collector(4);
    for (i, head) in [10u64, 11, 15, 16, 30, 31, 31, 40].iter().enumerate() {
        run_cycle(&mut c, 1, *head, i as u64);
        let ns = numbers(&c);
        assert!(ns.len() <= 4);
        for w in ns.windows(2) {
            assert!(w[0] > w[1]);
        }
    }
}

#[test]
fn no_new_block_fetches_nothing() {
    let mut c = collector(20);
    run_cycle(&mut c, 1, 50, 1);
    let fetched = run_cycle(&mut c, 1, 50, 2);
    assert!(fetched.is_empty());
    assert_eq!(numbers(&c), vec![50]);
}

#[test]
fn latest_timestamp_is_maximum_seen() {
    let mut c = collector(20);
    run_cycle(&mut c, 1, 10, 1);
    c.begin_poll();
    c.apply(RpcReply::ChainId(Ok(1)));
    c.apply(RpcReply::BlockNumber(Ok(12)));
    assert_eq!(c.next_call(), RpcCall::BlockByNumber(12));
    c.apply(RpcReply::Block(Ok(block(12, 5000))));
    assert_eq!(c.next_call(), RpcCall::BlockByNumber(11));
    c.apply(RpcReply::Block(Ok(block(11, 900))));
    assert_eq!(c.get_metrics().latest_block_timestamp, Some(5000));
    assert_eq!(numbers(&c), vec![12, 11, 10]);
}

#[test]
fn failed_block_fetch_is_skipped() {
    let mut c = collector(20);
    run_cycle(&mut c, 1, 10, 1);
    c.begin_poll();
    c.apply(RpcReply::ChainId(Ok(1)));
    c.apply(RpcReply::BlockNumber(Ok(12)));
    c.apply(RpcReply::Block(Err("timeout".to_string())));
    c.apply(RpcReply::Block(Ok(block(11, 1011))));
    assert_eq!(c.next_call(), RpcCall::GasPrice);
    c.apply(RpcReply::GasPrice(Ok(1)));
    c.apply(RpcReply::FeeHistory(Ok(sample_fee_history())));
    c.apply(RpcReply::MaxPriorityFee(Ok(1)));
    c.finish_poll(2);
    assert_eq!(numbers(&c), vec![11, 10]);
    assert_eq!(c.get_metrics().connection_status, ConnectionStatus::Connected);
}

#[test]
fn block_with_other_number_is_ignored() {
    let mut c = collector(20);
    c.begin_poll();
    c.apply(RpcReply::ChainId(Ok(1)));
    c.apply(RpcReply::BlockNumber(Ok(100)));
    c.apply(RpcReply::Block(Ok(block(77, 1))));
    assert!(numbers(&c).is_empty());
    assert_eq!(c.next_call(), RpcCall::GasPrice);
}

#[test]
fn chain_id_failure_skips_the_rest() {
    let mut c = collector(20);
    c.begin_poll();
    c.apply(RpcReply::ChainId(Err("connection refused".to_string())));
    assert_eq!(c.next_call(), RpcCall::Finish);
    c.apply(RpcReply::BlockNumber(Ok(5)));
    c.finish_poll(7);
    let m = c.get_metrics();
    assert_eq!(m.block_number, None);
    assert_eq!(
        m.connection_status,
        ConnectionStatus::Error("Chain ID: connection refused".to_string())
    );
    assert_eq!(m.last_updated, 7);
    assert_eq!(m.last_successful, None);
}

#[test]
fn block_number_failure_names_its_stage() {
    let mut c = collector(20);
    run_cycle(&mut c, 1, 10, 1);
    c.begin_poll();
    c.apply(RpcReply::ChainId(Ok(1)));
    c.apply(RpcReply::BlockNumber(Err("bad hex".to_string())));
    assert_eq!(c.next_call(), RpcCall::Finish);
    c.finish_poll(9);
    let m = c.get_metrics();
    assert_eq!(m.connection_status, ConnectionStatus::Error("Block number: bad hex".to_string()));
    assert_eq!(numbers(&c), vec![10]);
    assert_eq!(m.last_successful, Some(1));
}

#[test]
fn gas_price_failure_keeps_new_blocks() {
    let mut c = collector(20);
    run_cycle(&mut c, 1, 10, 1);
    c.begin_poll();
    c.apply(RpcReply::ChainId(Ok(1)));
    c.apply(RpcReply::BlockNumber(Ok(11)));
    c.apply(RpcReply::Block(Ok(block(11, 1011))));
    c.apply(RpcReply::GasPrice(Err("rate limited".to_string())));
    assert_eq!(c.next_call(), RpcCall::Finish);
    c.finish_poll(2);
    let m = c.get_metrics();
    assert_eq!(m.connection_status, ConnectionStatus::Error("Gas price: rate limited".to_string()));
    assert_eq!(numbers(&c), vec![11, 10]);
    assert_eq!(m.gas_price, Some(42));
}

#[test]
fn fee_history_failure_clears_fee_fields_only() {
    let mut c = collector(20);
    run_cycle(&mut c, 1, 10, 1);
    assert!(c.get_metrics().suggested_fees.is_some());
    c.begin_poll();
    c.apply(RpcReply::ChainId(Ok(1)));
    c.apply(RpcReply::BlockNumber(Ok(10)));
    c.apply(RpcReply::GasPrice(Ok(50)));
    c.apply(RpcReply::FeeHistory(Err("method not found".to_string())));
    c.apply(RpcReply::MaxPriorityFee(Ok(3)));
    c.finish_poll(2);
    let m = c.get_metrics();
    assert_eq!(m.suggested_fees, None);
    assert_eq!(m.fee_history, None);
    assert_eq!(m.gas_utilization_pct, None);
    assert_eq!(m.base_fee_to_mean, None);
    assert_eq!(m.base_fee_per_gas, None);
    assert_eq!(m.next_base_fee_per_gas, None);
    assert_eq!(m.max_priority_fee_suggested, Some(3));
    assert_eq!(m.gas_price, Some(50));
    assert_eq!(m.connection_status, ConnectionStatus::Connected);
}

#[test]
fn priority_fee_failure_clears_only_that_field() {
    let mut c = collector(20);
    run_cycle(&mut c, 1, 10, 1);
    c.begin_poll();
    c.apply(RpcReply::ChainId(Ok(1)));
    c.apply(RpcReply::BlockNumber(Ok(10)));
    c.apply(RpcReply::GasPrice(Ok(50)));
    c.apply(RpcReply::FeeHistory(Ok(sample_fee_history())));
    c.apply(RpcReply::MaxPriorityFee(Err("unsupported".to_string())));
    c.finish_poll(2);
    let m = c.get_metrics();
    assert_eq!(m.max_priority_fee_suggested, None);
    assert!(m.suggested_fees.is_some());
    assert_eq!(m.base_fee_per_gas, Some(200));
    assert_eq!(m.next_base_fee_per_gas, Some(300));
    assert_eq!(m.connection_status, ConnectionStatus::Connected);
}

#[test]
fn status_only_degrades_within_cycle() {
    let mut c = collector(20);
    c.begin_poll();
    c.apply(RpcReply::ChainId(Ok(1)));
    c.apply(RpcReply::BlockNumber(Err("boom".to_string())));
    // Later replies of the cycle are not asked for and change nothing.
    c.apply(RpcReply::GasPrice(Ok(1)));
    c.apply(RpcReply::ChainId(Ok(1)));
    c.finish_poll(1);
    assert_eq!(c.get_metrics().connection_status, ConnectionStatus::Error("Block number: boom".to_string()));
    assert_eq!(c.get_metrics().gas_price, None);
}

#[test]
fn unexpected_reply_changes_nothing() {
    let mut c = collector(20);
    c.apply(RpcReply::ChainId(Ok(9)));
    assert_eq!(c.get_metrics().chain_id, None);
    assert_eq!(c.next_call(), RpcCall::Finish);
}

#[test]
fn recovery_happens_only_in_a_poll() {
    let mut c = collector(20);
    run_cycle(&mut c, 1, 10, 1_000);
    c.check_staleness(30_000);
    assert_eq!(c.get_metrics().connection_status, ConnectionStatus::Stale);
    c.check_staleness(1_500);
    assert_eq!(c.get_metrics().connection_status, ConnectionStatus::Stale);
    run_cycle(&mut c, 1, 10, 40_000);
    assert_eq!(c.get_metrics().connection_status, ConnectionStatus::Connected);
}

#[test]
fn staleness_threshold_is_strict() {
    let mut c = collector(20);
    run_cycle(&mut c, 1, 10, 1_000);
    c.check_staleness(21_000);
    assert_eq!(c.get_metrics().connection_status, ConnectionStatus::Connected);
    c.check_staleness(21_001);
    assert_eq!(c.get_metrics().connection_status, ConnectionStatus::Stale);
}

#[test]
fn staleness_leaves_errors_alone() {
    let mut c = collector(20);
    c.begin_poll();
    c.apply(RpcReply::ChainId(Err("down".to_string())));
    c.finish_poll(1);
    c.check_staleness(1_000_000);
    assert_eq!(c.get_metrics().connection_status, ConnectionStatus::Error("Chain ID: down".to_string()));
    let mut d = collector(20);
    d.check_staleness(1_000_000);
    assert_eq!(d.get_metrics().connection_status, ConnectionStatus::Disconnected);
}

#[test]
fn new_collector_starts_disconnected() {
    let c = collector(7);
    let m = c.get_metrics();
    assert_eq!(m.connection_status, ConnectionStatus::Disconnected);
    assert_eq!(m.max_block_history, 7);
    assert_eq!(m.rpc_url, "http://localhost:8545");
    assert_eq!(m.block_delay_threshold, 60);
    assert!(m.block_history.is_empty());
    assert!(c.txpool_url().is_none());
}

#[test]
fn txpool_url_defaults_when_missing() {
    let cfg = Config::new("http://rpc".to_string(), 60, 20);
    let c = MetricsCollector::new_with_txpool(cfg, None, 0);
    assert_eq!(c.txpool_url().as_deref(), Some("https://transactions.pecorino.signet.sh/"));
    let cfg = Config::new("http://rpc".to_string(), 60, 20);
    let c = MetricsCollector::new_with_txpool(cfg, Some("http://localhost:8080".to_string()), 0);
    assert_eq!(c.txpool_url().as_deref(), Some("http://localhost:8080"));
    assert_eq!(c.config().max_backfill_per_cycle, 6);
    assert_eq!(c.config().max_block_history, 20);
}

#[test]
fn staleness_check_mid_cycle_keeps_the_plan() {
    let mut c = collector(20);
    run_cycle(&mut c, 1, 10, 1_000);
    c.begin_poll();
    c.apply(RpcReply::ChainId(Ok(1)));
    c.apply(RpcReply::BlockNumber(Ok(13)));
    c.check_staleness(50_000);
    c.check_staleness(50_000);
    assert_eq!(c.get_metrics().connection_status, ConnectionStatus::Stale);
    assert_eq!(c.next_call(), RpcCall::BlockByNumber(13));
    c.apply(RpcReply::Block(Ok(block(13, 1013))));
    assert_eq!(c.next_call(), RpcCall::BlockByNumber(12));
}

#[test]
fn new_with_txpool_starts_empty() {
    let c = MetricsCollector::new_with_txpool(Config::new("http://rpc".to_string(), 60, 20), None, 3);
    let m = c.get_metrics();
    assert_eq!(m.chain_id, None);
    assert_eq!(m.gas_price, None);
    assert_eq!(m.suggested_fees, None);
    assert_eq!(m.last_updated, 3);
    assert!(m.block_history.is_empty());
}
