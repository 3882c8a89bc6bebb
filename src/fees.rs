//! Fee estimator: derived signals over one fee-history sample.
//!
//! Fractions are kept exact, as a numerator and a denominator, so that no
//! rounding happens here; a display turns them into decimals.

use vstd::prelude::*;

verus! {

/// Percentile looked up first for the safe tier.
pub const SAFE_PERCENTILE: u32 = 25;

/// Percentile tried when the safe one is missing.
pub const SAFE_FALLBACK_PERCENTILE: u32 = 10;

/// Percentile of the standard tier.
pub const STANDARD_PERCENTILE: u32 = 50;

/// Percentile looked up first for the fast tier.
pub const FAST_PERCENTILE: u32 = 75;

/// Percentile tried when the fast one is missing.
pub const FAST_FALLBACK_PERCENTILE: u32 = 90;

/// Priority-fee rewards reported for one percentile, one value per block,
/// oldest block first. Thin blocks may leave the list short or empty.
#[derive(Debug, Clone, PartialEq, Eq)]
pub struct RewardSeries {
    pub percentile: u32,
    pub values: Vec<u128>,
}

/// One fee-history sample of `N` blocks.
#[derive(Debug, Clone, PartialEq, Eq)]
pub struct FeeHistory {
    pub oldest_block: u64,
    /// `N + 1` base fees in wei: one per block, then the next block's.
    pub base_fees: Vec<u128>,
    /// `N` gas-used ratios, in parts per million of the gas limit.
    pub gas_used_ppm: Vec<u64>,
    pub rewards: Vec<RewardSeries>,
}

/// A fee suggestion in wei; all zero where it could not be computed.
#[derive(Debug, Clone, Copy, PartialEq, Eq)]
pub struct FeeTier {
    pub max_fee_per_gas: u128,
    pub max_priority_fee_per_gas: u128,
}

/// The three suggested fee tiers.
#[derive(Debug, Clone, Copy, PartialEq, Eq)]
pub struct SuggestedFees {
    pub safe: FeeTier,
    pub standard: FeeTier,
    pub fast: FeeTier,
}

/// The exact fraction `num / den`.
#[derive(Debug, Clone, Copy, PartialEq, Eq)]
pub struct Ratio {
    pub num: u128,
    pub den: u128,
}

/// Everything derived from one fee-history sample.
#[derive(Debug, Clone, Copy, PartialEq, Eq)]
pub struct FeeEstimate {
    pub base_fee_per_gas: Option<u128>,
    pub next_base_fee_per_gas: Option<u128>,
    pub suggested_fees: SuggestedFees,
    /// Mean gas utilization of the sample, in percent.
    pub gas_utilization_pct: Option<Ratio>,
    /// Latest base fee of the sample over the sample's mean (the next
    /// block's estimate left out); the volatility is this minus one.
    pub base_fee_to_mean: Option<Ratio>,
}

/// The tier with nothing known.
pub open spec fn no_tier() -> FeeTier {
    FeeTier { max_fee_per_gas: 0, max_priority_fee_per_gas: 0 }
}

/// Base fee of the current block: the second-to-last entry, or the only one.
pub open spec fn current_base_fee(base_fees: Seq<u128>) -> Option<u128> {
    if base_fees.len() >= 2 {
        Some(base_fees[base_fees.len() - 2])
    } else if base_fees.len() == 1 {
        Some(base_fees[0])
    } else {
        None
    }
}

/// Base fee of the next block: the last entry, when there are two or more.
pub open spec fn next_base_fee(base_fees: Seq<u128>) -> Option<u128> {
    if base_fees.len() >= 2 {
        Some(base_fees[base_fees.len() - 1])
    } else {
        None
    }
}

/// Sum of gas-used ratios.
pub open spec fn sum_ppm(s: Seq<u64>) -> int
    decreases s.len(),
{
    if s.len() == 0 {
        0
    } else {
        sum_ppm(s.drop_last()) + s.last()
    }
}

/// Sum of fees.
pub open spec fn sum_wei(s: Seq<u128>) -> int
    decreases s.len(),
{
    if s.len() == 0 {
        0
    } else {
        sum_wei(s.drop_last()) + s.last()
    }
}

/// Mean of the ratios times one hundred: `sum / (n * 10_000)` percent.
pub open spec fn utilization_pct(ratios_ppm: Seq<u64>) -> Option<Ratio> {
    if ratios_ppm.len() == 0 {
        None
    } else {
        Some(Ratio { num: sum_ppm(ratios_ppm) as u128, den: (ratios_ppm.len() * 10_000) as u128 })
    }
}

/// For the sample without its last entry (`n` fees): `n * latest / sum`,
/// that is the latest fee over the mean. Absent with fewer than two base
/// fees, a zero mean, or a term that does not fit in 128 bits.
pub open spec fn base_fee_to_mean(base_fees: Seq<u128>) -> Option<Ratio> {
    if base_fees.len() >= 2 {
        let sample = base_fees.drop_last();
        let total = sum_wei(sample);
        let scaled = sample.len() * sample.last();
        if total == 0 || total > u128::MAX || scaled > u128::MAX {
            None
        } else {
            Some(Ratio { num: scaled as u128, den: total as u128 })
        }
    } else {
        None
    }
}

/// The last block's reward at `percentile`, from the first series of that
/// percentile that has any value.
pub open spec fn reward_at(rewards: Seq<RewardSeries>, percentile: u32) -> Option<u128>
    decreases rewards.len(),
{
    if rewards.len() == 0 {
        None
    } else if rewards[0].percentile == percentile && rewards[0].values@.len() > 0 {
        Some(rewards[0].values@.last())
    } else {
        reward_at(rewards.drop_first(), percentile)
    }
}

/// The first of two lookups that found something.
pub open spec fn or_else(first: Option<u128>, second: Option<u128>) -> Option<u128> {
    match first {
        Some(v) => Some(v),
        None => second,
    }
}

/// Safe tier: 25th, else 10th, else 50th percentile.
pub open spec fn safe_priority(rewards: Seq<RewardSeries>) -> Option<u128> {
    or_else(
        reward_at(rewards, SAFE_PERCENTILE),
        or_else(reward_at(rewards, SAFE_FALLBACK_PERCENTILE), reward_at(rewards, STANDARD_PERCENTILE)),
    )
}

/// Standard tier: 50th percentile, else the safe tier's.
pub open spec fn standard_priority(rewards: Seq<RewardSeries>) -> Option<u128> {
    or_else(reward_at(rewards, STANDARD_PERCENTILE), safe_priority(rewards))
}

/// Fast tier: 75th, else 90th percentile, else the standard tier's.
pub open spec fn fast_priority(rewards: Seq<RewardSeries>) -> Option<u128> {
    or_else(
        reward_at(rewards, FAST_PERCENTILE),
        or_else(reward_at(rewards, FAST_FALLBACK_PERCENTILE), standard_priority(rewards)),
    )
}

/// `priority * ramp_pct / 100`, rounded half up.
pub open spec fn ramped(priority: u128, ramp_pct: u32) -> int {
    (priority * ramp_pct + 50) / 100
}

/// `next + ramped(priority)`, held at the largest `u128`.
pub open spec fn tier_max_fee(next: u128, priority: u128, ramp_pct: u32) -> u128 {
    let total = next + ramped(priority, ramp_pct);
    if total > u128::MAX {
        u128::MAX
    } else {
        total as u128
    }
}

/// A tier is known only when both the next base fee and its priority fee are.
pub open spec fn tier_for(next: Option<u128>, priority: Option<u128>, ramp_pct: u32) -> FeeTier {
    match (next, priority) {
        (Some(n), Some(p)) => FeeTier {
            max_fee_per_gas: tier_max_fee(n, p, ramp_pct),
            max_priority_fee_per_gas: p,
        },
        _ => no_tier(),
    }
}

pub open spec fn suggested_for(rewards: Seq<RewardSeries>, next: Option<u128>, ramp_pct: u32) -> SuggestedFees {
    SuggestedFees {
        safe: tier_for(next, safe_priority(rewards), ramp_pct),
        standard: tier_for(next, standard_priority(rewards), ramp_pct),
        fast: tier_for(next, fast_priority(rewards), ramp_pct),
    }
}

/// What the estimator derives from a sample, field by field.
pub open spec fn estimate_of(history: FeeHistory, ramp_pct: u32) -> FeeEstimate {
    FeeEstimate {
        base_fee_per_gas: current_base_fee(history.base_fees@),
        next_base_fee_per_gas: next_base_fee(history.base_fees@),
        suggested_fees: suggested_for(history.rewards@, next_base_fee(history.base_fees@), ramp_pct),
        gas_utilization_pct: utilization_pct(history.gas_used_ppm@),
        base_fee_to_mean: base_fee_to_mean(history.base_fees@),
    }
}

proof fn lemma_sum_ppm_bound(s: Seq<u64>)
    ensures
        0 <= sum_ppm(s) <= s.len() * (u64::MAX as int),
    decreases s.len(),
{
    if s.len() > 0 {
        lemma_sum_ppm_bound(s.drop_last());
    }
}

proof fn lemma_sum_wei_nonneg(s: Seq<u128>)
    ensures
        sum_wei(s) >= 0,
    decreases s.len(),
{
    if s.len() > 0 {
        lemma_sum_wei_nonneg(s.drop_last());
    }
}

proof fn lemma_sum_wei_prefix(s: Seq<u128>, i: int, j: int)
    requires
        0 <= i <= j <= s.len(),
    ensures
        0 <= sum_wei(s.take(i)) <= sum_wei(s.take(j)),
    decreases j - i,
{
    if i < j {
        lemma_sum_wei_prefix(s, i, j - 1);
        assert(s.take(j).drop_last() =~= s.take(j - 1));
    } else {
        lemma_sum_wei_nonneg(s.take(i));
    }
}

proof fn lemma_reward_absent(rewards: Seq<RewardSeries>, percentile: u32)
    requires
        forall|i: int|
            0 <= i < rewards.len() && rewards[i].percentile == percentile
                ==> rewards[i].values@.len() == 0,
    ensures
        reward_at(rewards, percentile) is None,
    decreases rewards.len(),
{
    if rewards.len() > 0 {
        assert forall|i: int|
            0 <= i < rewards.drop_first().len() && rewards.drop_first()[i].percentile == percentile
                implies rewards.drop_first()[i].values@.len() == 0 by {
            assert(rewards.drop_first()[i] == rewards[i + 1]);
        }
        lemma_reward_absent(rewards.drop_first(), percentile);
    }
}

proof fn lemma_reward_present(rewards: Seq<RewardSeries>, percentile: u32, i: int)
    requires
        0 <= i < rewards.len(),
        rewards[i].percentile == percentile,
        rewards[i].values@.len() > 0,
    ensures
        reward_at(rewards, percentile) is Some,
    decreases i,
{
    if i > 0 && !(rewards[0].percentile == percentile && rewards[0].values@.len() > 0) {
        assert(rewards.drop_first()[i - 1] == rewards[i]);
        lemma_reward_present(rewards.drop_first(), percentile, i - 1);
    }
}

/// When only the 50th percentile has rewards, the safe, standard and fast
/// tiers all take that same priority fee, and so come out equal.
pub proof fn lemma_median_only_fallback(rewards: Seq<RewardSeries>, next: Option<u128>, ramp_pct: u32)
    requires
        forall|i: int|
            0 <= i < rewards.len() && rewards[i].percentile != STANDARD_PERCENTILE
                ==> rewards[i].values@.len() == 0,
        exists|i: int|
            0 <= i < rewards.len() && rewards[i].percentile == STANDARD_PERCENTILE
                && rewards[i].values@.len() > 0,
    ensures
        reward_at(rewards, STANDARD_PERCENTILE) is Some,
        safe_priority(rewards) == reward_at(rewards, STANDARD_PERCENTILE),
        standard_priority(rewards) == reward_at(rewards, STANDARD_PERCENTILE),
        fast_priority(rewards) == reward_at(rewards, STANDARD_PERCENTILE),
        suggested_for(rewards, next, ramp_pct).safe == suggested_for(rewards, next, ramp_pct).standard,
        suggested_for(rewards, next, ramp_pct).fast == suggested_for(rewards, next, ramp_pct).standard,
{
    let i = choose|i: int|
        0 <= i < rewards.len() && rewards[i].percentile == STANDARD_PERCENTILE
            && rewards[i].values@.len() > 0;
    lemma_reward_present(rewards, STANDARD_PERCENTILE, i);
    lemma_reward_absent(rewards, SAFE_PERCENTILE);
    lemma_reward_absent(rewards, SAFE_FALLBACK_PERCENTILE);
    lemma_reward_absent(rewards, FAST_PERCENTILE);
    lemma_reward_absent(rewards, FAST_FALLBACK_PERCENTILE);
}

/// Looks up the last block's reward at `percentile`.
pub fn reward_for(rewards: &Vec<RewardSeries>, percentile: u32) -> (r: Option<u128>)
    ensures
        r == reward_at(rewards@, percentile),
{
    let n = rewards.len();
    let mut i: usize = 0;
    assert(rewards@.skip(0) =~= rewards@);
    while i < n
        invariant
            i <= n,
            n == rewards@.len(),
            reward_at(rewards@, percentile) == reward_at(rewards@.skip(i as int), percentile),
        decreases n - i,
    {
        let series = &rewards[i];
        assert(rewards@.skip(i as int)[0] == rewards@[i as int]);
        assert(rewards@.skip(i as int).drop_first() =~= rewards@.skip(i + 1));
        if series.percentile == percentile && series.values.len() > 0 {
            return Some(series.values[series.values.len() - 1]);
        }
        i += 1;
    }
    None
}

/// `next + round(priority * ramp_pct / 100)`, held at the largest `u128`.
pub fn max_fee_for(next: u128, priority: u128, ramp_pct: u32) -> (r: u128)
    ensures
        r == tier_max_fee(next, priority, ramp_pct),
{
    let k = ramp_pct as u128;
    let q = priority / 100;
    let rem = priority % 100;
    assert(rem * k <= 100 * (u32::MAX as int)) by (nonlinear_arith)
        requires
            rem < 100,
            k <= u32::MAX,
    ;
    let small = (rem * k + 50) / 100;
    proof {
        let x = q * k;
        assert(priority * k == 100 * x + rem * k) by (nonlinear_arith)
            requires
                priority == 100 * q + rem,
                x == q * k,
        ;
        assert((100 * x + rem * k + 50) / 100 == x + (rem * k + 50) / 100);
    }
    match q.checked_mul(k) {
        None => u128::MAX,
        Some(big) => match big.checked_add(small) {
            None => u128::MAX,
            Some(ramp) => next.saturating_add(ramp),
        },
    }
}

/// The fee tier for the given next base fee and priority fee.
pub fn tier(next: Option<u128>, priority: Option<u128>, ramp_pct: u32) -> (r: FeeTier)
    ensures
        r == tier_for(next, priority, ramp_pct),
{
    match (next, priority) {
        (Some(n), Some(p)) => FeeTier {
            max_fee_per_gas: max_fee_for(n, p, ramp_pct),
            max_priority_fee_per_gas: p,
        },
        _ => FeeTier { max_fee_per_gas: 0, max_priority_fee_per_gas: 0 },
    }
}

/// The three fee tiers, each with its fallback chain of percentiles.
pub fn suggest_fees(rewards: &Vec<RewardSeries>, next: Option<u128>, ramp_pct: u32) -> (r: SuggestedFees)
    ensures
        r == suggested_for(rewards@, next, ramp_pct),
{
    let safe = match reward_for(rewards, SAFE_PERCENTILE) {
        Some(v) => Some(v),
        None => match reward_for(rewards, SAFE_FALLBACK_PERCENTILE) {
            Some(v) => Some(v),
            None => reward_for(rewards, STANDARD_PERCENTILE),
        },
    };
    let standard = match reward_for(rewards, STANDARD_PERCENTILE) {
        Some(v) => Some(v),
        None => safe,
    };
    let fast = match reward_for(rewards, FAST_PERCENTILE) {
        Some(v) => Some(v),
        None => match reward_for(rewards, FAST_FALLBACK_PERCENTILE) {
            Some(v) => Some(v),
            None => standard,
        },
    };
    SuggestedFees {
        safe: tier(next, safe, ramp_pct),
        standard: tier(next, standard, ramp_pct),
        fast: tier(next, fast, ramp_pct),
    }
}

/// Mean gas utilization of the sample in percent; absent for no ratios.
pub fn utilization_of(ratios_ppm: &Vec<u64>) -> (r: Option<Ratio>)
    ensures
        r == utilization_pct(ratios_ppm@),
{
    let n = ratios_ppm.len();
    if n == 0 {
        return None;
    }
    let mut total: u128 = 0;
    let mut i: usize = 0;
    while i < n
        invariant
            i <= n,
            n == ratios_ppm@.len(),
            total == sum_ppm(ratios_ppm@.take(i as int)),
        decreases n - i,
    {
        proof {
            let s = ratios_ppm@.take(i + 1);
            assert(s.drop_last() =~= ratios_ppm@.take(i as int));
            lemma_sum_ppm_bound(s);
            assert(s.len() * (u64::MAX as int) <= (u64::MAX as int) * (u64::MAX as int))
                by (nonlinear_arith)
                requires
                    s.len() <= u64::MAX,
            ;
        }
        total = total + ratios_ppm[i] as u128;
        i += 1;
    }
    assert(ratios_ppm@.take(n as int) =~= ratios_ppm@);
    Some(Ratio { num: total, den: n as u128 * 10_000 })
}

/// The latest base fee of the sample over the sample's mean, exact.
pub fn base_fee_ratio_of(base_fees: &Vec<u128>) -> (r: Option<Ratio>)
    ensures
        r == base_fee_to_mean(base_fees@),
{
    let len = base_fees.len();
    if len < 2 {
        return None;
    }
    let n = len - 1;
    let ghost sample = base_fees@.drop_last();
    let mut total: u128 = 0;
    let mut i: usize = 0;
    while i < n
        invariant
            i <= n,
            len == base_fees@.len(),
            len >= 2,
            n == len - 1,
            n == sample.len(),
            sample == base_fees@.drop_last(),
            total == sum_wei(sample.take(i as int)),
        decreases n - i,
    {
        let ghost s = sample.take(i + 1);
        proof {
            assert(s.drop_last() =~= sample.take(i as int));
            assert(s.last() == base_fees@[i as int]);
        }
        match total.checked_add(base_fees[i]) {
            Some(t) => total = t,
            None => {
                proof {
                    lemma_sum_wei_prefix(sample, i + 1, n as int);
                    assert(sample.take(n as int) =~= sample);
                }
                return None;
            },
        }
        i += 1;
    }
    assert(sample.take(n as int) =~= sample);
    if total == 0 {
        return None;
    }
    match (n as u128).checked_mul(base_fees[n - 1]) {
        Some(scaled) => Some(Ratio { num: scaled, den: total }),
        None => None,
    }
}

/// Derives every fee signal of one sample from scratch.
pub fn estimate_fees(history: &FeeHistory, ramp_pct: u32) -> (r: FeeEstimate)
    ensures
        r == estimate_of(*history, ramp_pct),
{
    let len = history.base_fees.len();
    let (current, next) = if len >= 2 {
        (Some(history.base_fees[len - 2]), Some(history.base_fees[len - 1]))
    } else if len == 1 {
        (Some(history.base_fees[0]), None)
    } else {
        (None, None)
    };
    FeeEstimate {
        base_fee_per_gas: current,
        next_base_fee_per_gas: next,
        suggested_fees: suggest_fees(&history.rewards, next, ramp_pct),
        gas_utilization_pct: utilization_of(&history.gas_used_ppm),
        base_fee_to_mean: base_fee_ratio_of(&history.base_fees),
    }
}

} // verus!
