use external_service::config::FilterResult;
use external_service::node_manager::{
    ArithmeticError, NodeInfo, Perbill, RewardPeriodInfo, StakeInfo, UnstakeRestriction,
};
use external_service::timer::Timer;

#[test]
fn perbill_rounds_to_nearest_with_halves_down() {
    let half = Perbill::from_parts(500_000_000);
    assert_eq!(half.mul_balance(3), 1);
    assert_eq!(half.mul_balance(5), 2);
    assert_eq!(Perbill::from_parts(300_000_000).mul_balance(10), 3);
    assert_eq!(Perbill::from_parts(600_000_000).mul_balance(3), 2);
    assert_eq!(Perbill::from_parts(2_000_000_000).deconstruct(), 1_000_000_000);
    assert_eq!(Perbill::from_parts(1_000_000_000).mul_balance(u128::MAX), u128::MAX);
}

#[test]
fn reward_period_rolls_over_after_its_length() {
    let p = RewardPeriodInfo::new(3, 100, 20, 5);
    assert!(!p.should_update(119));
    assert!(p.should_update(120));
    assert!(!p.should_update(50));
    let next = p.update(120, 9);
    assert_eq!(next, RewardPeriodInfo::new(4, 120, 20, 9));
    let d = RewardPeriodInfo::default();
    assert_eq!(d, RewardPeriodInfo::new(0, 0, 20, u32::MAX));
}

fn node(amount: u128, restriction: UnstakeRestriction, next: Option<u64>, unlocked: u128) -> NodeInfo {
    NodeInfo::new([1; 32], [2; 32], 1, 1000, StakeInfo::new(amount, unlocked, next, restriction))
}

#[test]
fn snapshot_sets_periodic_allowance_at_expiry() {
    let mut n = node(10_000, UnstakeRestriction::Locked, None, 0);
    n.try_snapshot_stake(999, Perbill::from_parts(100_000_000), 5000);
    assert_eq!(n.stake.restriction, UnstakeRestriction::Locked);
    n.try_snapshot_stake(1000, Perbill::from_parts(100_000_000), 5000);
    assert_eq!(
        n.stake.restriction,
        UnstakeRestriction::Periodic { per_period_allowance: 1000, expires_sec: 6000 }
    );
    assert_eq!(n.stake.restriction.per_period_allowance(), Some(1000));
    let mut empty = node(0, UnstakeRestriction::Locked, None, 0);
    empty.try_snapshot_stake(1000, Perbill::from_parts(100_000_000), 5000);
    assert_eq!(empty.stake.restriction, UnstakeRestriction::Free);
    assert!(empty.can_unstake(1000) && !empty.can_unstake(999));
}

#[test]
fn periodic_allowance_accumulates_per_period() {
    let r = UnstakeRestriction::Periodic { per_period_allowance: 500, expires_sec: 100_000 };
    let n = node(10_000, r, None, 0);
    assert_eq!(n.available_to_unstake(999, 100), Ok((0, Some(1000))));
    assert_eq!(n.available_to_unstake(1000, 100), Ok((500, Some(1100))));
    assert_eq!(n.available_to_unstake(1250, 100), Ok((1500, Some(1300))));
    assert_eq!(n.available_to_unstake(100_000, 100), Ok((10_000, None)));
    assert_eq!(n.available_to_unstake(1250, 0), Ok((0, None)));
    let locked = node(10_000, UnstakeRestriction::Locked, None, 0);
    assert_eq!(locked.available_to_unstake(5000, 100), Ok((0, None)));
    let free = node(10_000, UnstakeRestriction::Free, None, 0);
    assert_eq!(free.available_to_unstake(5000, 100), Ok((10_000, None)));
    let full = node(10_000, r, Some(1000), u128::MAX);
    assert_eq!(full.available_to_unstake(1000, 100), Err(ArithmeticError::Overflow));
}

#[test]
fn only_allowed_extrinsics_pass_the_filter() {
    assert!(!FilterResult::Allowed.is_banned());
    assert!(FilterResult::Banned.is_banned());
}

#[test]
fn timer_keeps_its_label() {
    let t = Timer::new("evm client initialisation");
    assert_eq!(t.label(), "evm client initialisation");
    let _ = t.elapsed();
}
