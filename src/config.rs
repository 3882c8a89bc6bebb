//! Defaults of the tunables that each monitored endpoint is configured with.

use vstd::prelude::*;

verus! {

/// How long after the last successful poll a link counts as stale, in ms.
pub const STALE_AFTER_MS: u64 = 20_000;

/// Number of blocks of history to keep in memory.
pub const DEFAULT_MAX_BLOCK_HISTORY: usize = 20;

/// Largest number of missing blocks to fetch in one poll cycle.
pub const MAX_BACKFILL_PER_CYCLE: u64 = 6;

/// Seconds without a new block before the delay alert shows.
pub const BLOCK_DELAY_DEFAULT: u64 = 60;

/// Seconds between two poll cycles.
pub const DEFAULT_REFRESH_SECS: u64 = 5;

/// Number of blocks asked for in one fee-history request.
pub const FEE_HISTORY_BLOCKS: u64 = 20;

/// Headroom applied to the priority fee in a suggested max fee, in percent
/// (200 doubles it).
pub const SUGGESTION_RAMP_PCT: u32 = 200;

/// Base fee, in gwei, from which the display warns of high gas.
pub const GAS_ALERT_HIGH_GWEI: u64 = 100;

/// Ratio of the latest base fee to the sample mean, in percent, from which
/// the display calls the trend a spike.
pub const GAS_SPIKE_MULTIPLIER_PCT: u64 = 200;

/// Largest number of pool transactions kept per snapshot.
pub const POOL_MAX_ROWS: usize = 10;

/// Pool service watched when none is configured.
pub const DEFAULT_TXPOOL_URL: &'static str = "https://transactions.pecorino.signet.sh/";

/// The percentiles asked for in fee-history requests.
pub fn default_percentiles() -> (r: Vec<u32>)
    ensures
        r@ == seq![10u32, 25u32, 50u32, 75u32, 90u32],
{
    vec![10, 25, 50, 75, 90]
}

} // verus!
