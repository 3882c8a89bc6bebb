use futuresight::fees::{
    estimate_fees, max_fee_for, reward_for, suggest_fees, tier, utilization_of, base_fee_ratio_of,
    FeeHistory, FeeTier, Ratio, RewardSeries,
};

fn series(percentile: u32, values: &[u128]) -> RewardSeries {
    RewardSeries { percentile, values: values.to_vec() }
}

#[test]
fn median_only_rewards_fill_every_tier() {
    let rewards = vec![
        series(10, &[]),
        series(25, &[]),
        series(50, &[3, 8]),
        series(75, &[]),
        series(90, &[]),
    ];
    let s = suggest_fees(&rewards, Some(100), 200);
    assert_eq!(s.safe.max_priority_fee_per_gas, 8);
    assert_eq!(s.safe, s.standard);
    assert_eq!(s.fast, s.standard);
    assert_eq!(s.standard, FeeTier { max_fee_per_gas: 116, max_priority_fee_per_gas: 8 });
}

#[test]
fn tiers_follow_their_fallback_chains() {
    let rewards = vec![
        series(10, &[1]),
        series(25, &[]),
        series(50, &[]),
        series(75, &[]),
        series(90, &[9]),
    ];
    let s = suggest_fees(&rewards, Some(10), 100);
    assert_eq!(s.safe.max_priority_fee_per_gas, 1);
    assert_eq!(s.standard.max_priority_fee_per_gas, 1);
    assert_eq!(s.fast.max_priority_fee_per_gas, 9);
    assert_eq!(s.fast.max_fee_per_gas, 19);
}

#[test]
fn tiers_are_zero_without_next_base_fee() {
    let rewards = vec![series(50, &[5])];
    let s = suggest_fees(&rewards, None, 200);
    assert_eq!(s.safe, FeeTier { max_fee_per_gas: 0, max_priority_fee_per_gas: 0 });
    assert_eq!(s.fast, s.safe);
}

#[test]
fn tiers_are_zero_without_rewards() {
    let s = suggest_fees(&Vec::new(), Some(100), 200);
    assert_eq!(s.standard, FeeTier { max_fee_per_gas: 0, max_priority_fee_per_gas: 0 });
}

#[test]
fn reward_takes_last_block_value() {
    let rewards = vec![series(25, &[]), series(25, &[4, 5, 6]), series(50, &[1])];
    assert_eq!(reward_for(&rewards, 25), Some(6));
    assert_eq!(reward_for(&rewards, 50), Some(1));
    assert_eq!(reward_for(&rewards, 75), None);
}

#[test]
fn ramp_rounds_half_up() {
    assert_eq!(max_fee_for(100, 3, 150), 105);
    assert_eq!(max_fee_for(100, 1, 149), 101);
    assert_eq!(max_fee_for(0, 7, 200), 14);
    assert_eq!(max_fee_for(10, 1_000_000_000, 250), 2_500_000_010);
}

#[test]
fn max_fee_saturates() {
    assert_eq!(max_fee_for(u128::MAX, 1, 200), u128::MAX);
    assert_eq!(max_fee_for(0, u128::MAX, 200), u128::MAX);
    assert_eq!(tier(Some(u128::MAX - 1), Some(1), 100).max_fee_per_gas, u128::MAX);
}

#[test]
fn utilization_is_mean_percent() {
    let u = utilization_of(&vec![500_000, 1_000_000]).unwrap();
    assert_eq!(u, Ratio { num: 1_500_000, den: 20_000 });
    assert_eq!(u.num / u.den, 75);
    assert_eq!(utilization_of(&Vec::new()), None);
}

#[test]
fn base_fee_ratio_excludes_next_block() {
    // Sample without the next entry: [100, 200], mean 150, latest 200.
    let r = base_fee_ratio_of(&vec![100, 200, 900]).unwrap();
    assert_eq!(r, Ratio { num: 400, den: 300 });
    assert_eq!(base_fee_ratio_of(&vec![100]), None);
    assert_eq!(base_fee_ratio_of(&vec![0, 0, 5]), None);
    assert_eq!(base_fee_ratio_of(&vec![u128::MAX, u128::MAX, 1]), None);
}

#[test]
fn estimate_derives_every_field() {
    let h = FeeHistory {
        oldest_block: 1,
        base_fees: vec![100, 200, 300],
        gas_used_ppm: vec![250_000, 750_000],
        rewards: vec![series(25, &[2]), series(50, &[5]), series(75, &[9])],
    };
    let e = estimate_fees(&h, 200);
    assert_eq!(e.base_fee_per_gas, Some(200));
    assert_eq!(e.next_base_fee_per_gas, Some(300));
    assert_eq!(e.suggested_fees.safe, FeeTier { max_fee_per_gas: 304, max_priority_fee_per_gas: 2 });
    assert_eq!(e.suggested_fees.standard, FeeTier { max_fee_per_gas: 310, max_priority_fee_per_gas: 5 });
    assert_eq!(e.suggested_fees.fast, FeeTier { max_fee_per_gas: 318, max_priority_fee_per_gas: 9 });
    assert_eq!(e.gas_utilization_pct, Some(Ratio { num: 1_000_000, den: 20_000 }));
    assert_eq!(e.base_fee_to_mean, Some(Ratio { num: 400, den: 300 }));
}

#[test]
fn single_base_fee_has_no_next() {
    let h = FeeHistory {
        oldest_block: 1,
        base_fees: vec![70],
        gas_used_ppm: vec![],
        rewards: vec![series(50, &[5])],
    };
    let e = estimate_fees(&h, 200);
    assert_eq!(e.base_fee_per_gas, Some(70));
    assert_eq!(e.next_base_fee_per_gas, None);
    assert_eq!(e.suggested_fees.standard.max_fee_per_gas, 0);
    assert_eq!(e.gas_utilization_pct, None);
    assert_eq!(e.base_fee_to_mean, None);
}

#[test]
fn empty_sample_has_no_base_fee() {
    let h = FeeHistory { oldest_block: 0, base_fees: vec![], gas_used_ppm: vec![], rewards: vec![] };
    let e = estimate_fees(&h, 200);
    assert_eq!(e.base_fee_per_gas, None);
    assert_eq!(e.next_base_fee_per_gas, None);
}
