//! Records kept by the node manager: reward periods, uptime, node stakes and
//! the rules that release a node's stake over time.

use vstd::prelude::*;

use crate::bytes::ChainHash;

verus! {

/// Scales a single heartbeat so that precision is kept when the reward
/// weight is applied.
pub const HEARTBEAT_BASE_WEIGHT: u128 = 100_000_000;

/// Parts in a whole, for `Perbill`.
pub const BILLION: u32 = 1_000_000_000;

pub type RewardPeriodIndex = u64;

/// Seconds.
pub type Duration = u64;

pub type BlockNumber = u32;

pub type Balance = u128;

pub type AccountId = ChainHash;

pub type SignerId = ChainHash;

/// A fraction in billionths, from zero to one.
#[derive(Clone, Copy, Debug, PartialEq, Eq)]
pub struct Perbill {
    parts: u32,
}

/// `b * parts / 1e9`, rounded to the nearest integer, halves rounded down.
pub open spec fn perbill_of(parts: nat, b: nat) -> nat {
    (b * parts + 499_999_999) / 1_000_000_000
}

impl Perbill {
    pub closed spec fn spec_parts(&self) -> nat {
        self.parts as nat
    }

    pub closed spec fn wf(&self) -> bool {
        self.parts <= BILLION
    }

    /// The fraction `parts / 1e9`, capped at one.
    pub fn from_parts(parts: u32) -> (r: Self)
        ensures
            r.wf(),
            r.spec_parts() == if parts <= BILLION {
                parts as nat
            } else {
                BILLION as nat
            },
    {
        if parts <= BILLION {
            Perbill { parts }
        } else {
            Perbill { parts: BILLION }
        }
    }

    pub fn deconstruct(&self) -> (r: u32)
        ensures
            r as nat == self.spec_parts(),
    {
        self.parts
    }

    /// This fraction of `b`, rounded to the nearest integer, halves down.
    pub fn mul_balance(&self, b: Balance) -> (r: Balance)
        requires
            self.wf(),
        ensures
            r as nat == perbill_of(self.spec_parts(), b as nat),
            r <= b,
    {
        let p = self.parts as u128;
        let q = b / 1_000_000_000;
        let rem = b % 1_000_000_000;
        assert(q * p <= b && rem * p < 1_000_000_000_000_000_000) by (nonlinear_arith)
            requires
                p <= 1_000_000_000,
                q == b / 1_000_000_000,
                rem == b % 1_000_000_000,
        ;
        let low = (rem * p + 499_999_999) / 1_000_000_000;
        assert(q * p + low == (b * p + 499_999_999) / 1_000_000_000 && q * p + low <= b)
            by (nonlinear_arith)
            requires
                p <= 1_000_000_000,
                q == b / 1_000_000_000,
                rem == b % 1_000_000_000,
                low == (rem * p + 499_999_999) / 1_000_000_000,
        ;
        q * p + low
    }
}

/// The current reward period and when the next one begins.
#[derive(Clone, Copy, Debug, PartialEq, Eq)]
pub struct RewardPeriodInfo {
    /// Index of the current period.
    pub current: RewardPeriodIndex,
    /// First block of the current period.
    pub first: BlockNumber,
    /// Length of a period, in blocks.
    pub length: u32,
    /// Uptime reports needed for the full reward.
    pub uptime_threshold: u32,
}

impl RewardPeriodInfo {
    pub fn new(
        current: RewardPeriodIndex,
        first: BlockNumber,
        length: u32,
        uptime_threshold: u32,
    ) -> (r: Self)
        ensures
            r == (RewardPeriodInfo { current, first, length, uptime_threshold }),
    {
        RewardPeriodInfo { current, first, length, uptime_threshold }
    }

    /// Whether at block `now` the current period has run its length.
    pub fn should_update(&self, now: BlockNumber) -> (r: bool)
        ensures
            r == ((if now >= self.first {
                now - self.first
            } else {
                0
            }) >= self.length),
    {
        let elapsed: u32 = if now >= self.first {
            now - self.first
        } else {
            0
        };
        elapsed >= self.length
    }

    /// The next period, starting at block `now`.
    pub fn update(&self, now: BlockNumber, uptime_threshold: u32) -> (r: Self)
        ensures
            r.current == if self.current == u64::MAX {
                u64::MAX
            } else {
                (self.current + 1) as u64
            },
            r.first == now,
            r.length == self.length,
            r.uptime_threshold == uptime_threshold,
    {
        let current = if self.current == u64::MAX {
            u64::MAX
        } else {
            self.current + 1
        };
        RewardPeriodInfo { current, first: now, length: self.length, uptime_threshold }
    }
}

impl Default for RewardPeriodInfo {
    fn default() -> (r: Self)
        ensures
            r == (RewardPeriodInfo {
                current: 0,
                first: 0,
                length: 20,
                uptime_threshold: u32::MAX,
            }),
    {
        RewardPeriodInfo::new(0, 0, 20, u32::MAX)
    }
}

#[derive(Clone, Copy, Debug, PartialEq, Eq)]
pub struct RewardPotInfo {
    /// The total reward to pay out.
    pub total_reward: Balance,
    /// Uptime reports needed for the full reward.
    pub uptime_threshold: u32,
    /// The last timestamp of the previous reward period.
    pub reward_end_time: Duration,
}

impl RewardPotInfo {
    pub fn new(total_reward: Balance, uptime_threshold: u32, reward_end_time: Duration) -> (r: Self)
        ensures
            r == (RewardPotInfo { total_reward, uptime_threshold, reward_end_time }),
    {
        RewardPotInfo { total_reward, uptime_threshold, reward_end_time }
    }
}

#[derive(Clone, Copy, Debug, PartialEq, Eq, Default)]
pub struct UptimeInfo {
    /// Number of uptime reports.
    pub count: u64,
    /// The weight of the node, bonuses included.
    pub weight: u128,
    /// Block of the last report.
    pub last_reported: BlockNumber,
}

impl UptimeInfo {
    pub fn new(count: u64, weight: u128, last_reported: BlockNumber) -> (r: Self)
        ensures
            r == (UptimeInfo { count, weight, last_reported }),
    {
        UptimeInfo { count, weight, last_reported }
    }
}

/// Where the payout of a reward period has got to.
#[derive(Clone, Copy, Debug, PartialEq, Eq, Default)]
pub struct PaymentPointer {
    pub period_index: RewardPeriodIndex,
    pub node: AccountId,
}

/// How much of a node's stake may be withdrawn.
#[derive(Clone, Copy, Debug, PartialEq, Eq, Default)]
pub enum UnstakeRestriction {
    /// Unstaking is not permitted.
    #[default]
    Locked,
    /// No restriction.
    Free,
    /// `per_period_allowance` unlocks each unstake period until `expires_sec`,
    /// after which the stake is free.
    Periodic { per_period_allowance: Balance, expires_sec: Duration },
}

impl UnstakeRestriction {
    pub fn per_period_allowance(&self) -> (r: Option<Balance>)
        ensures
            r == match *self {
                UnstakeRestriction::Periodic { per_period_allowance, .. } => Some(
                    per_period_allowance,
                ),
                _ => None,
            },
    {
        match self {
            UnstakeRestriction::Periodic { per_period_allowance, .. } => Some(
                *per_period_allowance,
            ),
            _ => None,
        }
    }
}

#[derive(Clone, Copy, Debug, PartialEq, Eq, Default)]
pub struct StakeInfo {
    /// The amount staked.
    pub amount: Balance,
    /// Allowance carried over: what may be withdrawn right now.
    pub unlocked_stake: Balance,
    /// When the next unstake period begins, in seconds.
    pub next_unstake_time_sec: Option<Duration>,
    pub restriction: UnstakeRestriction,
}

impl StakeInfo {
    pub fn new(
        amount: Balance,
        unlocked_stake: Balance,
        next_unstake_time_sec: Option<Duration>,
        restriction: UnstakeRestriction,
    ) -> (r: Self)
        ensures
            r == (StakeInfo { amount, unlocked_stake, next_unstake_time_sec, restriction }),
    {
        StakeInfo { amount, unlocked_stake, next_unstake_time_sec, restriction }
    }
}

/// Arithmetic that a stake computation could not carry out.
#[derive(Clone, Copy, Debug, PartialEq, Eq)]
pub enum ArithmeticError {
    Underflow,
    Overflow,
    DivisionByZero,
}

#[derive(Clone, Copy, Debug, PartialEq, Eq, Default)]
pub struct NodeInfo {
    pub owner: AccountId,
    pub signing_key: SignerId,
    pub serial_number: u32,
    /// When automatic staking ends, in seconds.
    pub auto_stake_expiry: Duration,
    pub stake: StakeInfo,
}

/// What `available_to_unstake` returns: the amount that may be withdrawn at
/// `now_sec`, and when the next unstake period begins.
pub open spec fn spec_available(node: NodeInfo, now_sec: u64, unstake_period: u64) -> Result<
    (Balance, Option<Duration>),
    ArithmeticError,
> {
    let s = node.stake;
    if s.amount == 0 || unstake_period == 0 {
        Ok((0, s.next_unstake_time_sec))
    } else {
        match s.restriction {
            UnstakeRestriction::Locked => Ok((0, None)),
            UnstakeRestriction::Free => Ok((s.amount, None)),
            UnstakeRestriction::Periodic { per_period_allowance, expires_sec } => {
                let next_unstake = match s.next_unstake_time_sec {
                    Some(t) => t,
                    None => node.auto_stake_expiry,
                };
                if now_sec >= expires_sec {
                    Ok((s.amount, None))
                } else if now_sec < next_unstake {
                    Ok((min_balance(s.unlocked_stake, s.amount), Some(next_unstake)))
                } else {
                    let periods = saturate_u64(1 + (now_sec - next_unstake) / unstake_period as int);
                    let newly = saturate_u128(per_period_allowance * (periods % 0x1_0000_0000));
                    let next = next_unstake + saturate_u64(periods * unstake_period);
                    if s.unlocked_stake + newly > u128::MAX || next > u64::MAX {
                        Err(ArithmeticError::Overflow)
                    } else {
                        Ok(
                            (
                                min_balance((s.unlocked_stake + newly) as u128, s.amount),
                                Some(next as u64),
                            ),
                        )
                    }
                }
            },
        }
    }
}

pub open spec fn min_balance(a: Balance, b: Balance) -> Balance {
    if a <= b {
        a
    } else {
        b
    }
}

pub open spec fn saturate_u64(v: int) -> int {
    if v > u64::MAX {
        u64::MAX as int
    } else {
        v
    }
}

pub open spec fn saturate_u128(v: int) -> int {
    if v > u128::MAX {
        u128::MAX as int
    } else {
        v
    }
}

impl NodeInfo {
    pub fn new(
        owner: AccountId,
        signing_key: SignerId,
        serial_number: u32,
        auto_stake_expiry: Duration,
        stake: StakeInfo,
    ) -> (r: Self)
        ensures
            r == (NodeInfo { owner, signing_key, serial_number, auto_stake_expiry, stake }),
    {
        NodeInfo { owner, signing_key, serial_number, auto_stake_expiry, stake }
    }

    /// Whether automatic staking has ended at `now_sec`.
    pub fn can_unstake(&self, now_sec: Duration) -> (r: bool)
        ensures
            r == (now_sec >= self.auto_stake_expiry),
    {
        now_sec >= self.auto_stake_expiry
    }

    /// Once automatic staking has ended, resolves a locked stake: with
    /// nothing staked it becomes free; otherwise `max_pct` of the stake
    /// unlocks each period until `restriction_duration` after the expiry.
    pub fn try_snapshot_stake(
        &mut self,
        now_sec: Duration,
        max_pct: Perbill,
        restriction_duration: Duration,
    )
        requires
            max_pct.wf(),
        ensures
            final(self).owner == old(self).owner,
            final(self).signing_key == old(self).signing_key,
            final(self).serial_number == old(self).serial_number,
            final(self).auto_stake_expiry == old(self).auto_stake_expiry,
            final(self).stake.amount == old(self).stake.amount,
            final(self).stake.unlocked_stake == old(self).stake.unlocked_stake,
            final(self).stake.next_unstake_time_sec == old(self).stake.next_unstake_time_sec,
            final(self).stake.restriction == if !(old(self).stake.restriction
                is Locked) || now_sec < old(self).auto_stake_expiry {
                old(self).stake.restriction
            } else if old(self).stake.amount == 0 {
                UnstakeRestriction::Free
            } else {
                UnstakeRestriction::Periodic {
                    per_period_allowance: perbill_of(
                        max_pct.spec_parts(),
                        old(self).stake.amount as nat,
                    ) as u128,
                    expires_sec: saturate_u64(
                        old(self).auto_stake_expiry + restriction_duration,
                    ) as u64,
                }
            },
    {
        if !matches!(self.stake.restriction, UnstakeRestriction::Locked) {
            return;
        }
        if now_sec < self.auto_stake_expiry {
            return;
        }
        self.stake.restriction = if self.stake.amount == 0 {
            UnstakeRestriction::Free
        } else {
            let expires_sec = if self.auto_stake_expiry > u64::MAX - restriction_duration {
                u64::MAX
            } else {
                self.auto_stake_expiry + restriction_duration
            };
            UnstakeRestriction::Periodic {
                per_period_allowance: max_pct.mul_balance(self.stake.amount),
                expires_sec,
            }
        };
    }

    /// The amount that may be withdrawn at `now_sec`, and when the next
    /// unstake period begins.
    pub fn available_to_unstake(&self, now_sec: Duration, unstake_period: Duration) -> (r: Result<
        (Balance, Option<Duration>),
        ArithmeticError,
    >)
        ensures
            r == spec_available(*self, now_sec, unstake_period),
    {
        if self.stake.amount == 0 || unstake_period == 0 {
            return Ok((0, self.stake.next_unstake_time_sec));
        }
        match self.stake.restriction {
            UnstakeRestriction::Locked => Ok((0, None)),
            UnstakeRestriction::Free => Ok((self.stake.amount, None)),
            UnstakeRestriction::Periodic { per_period_allowance, expires_sec } => {
                if now_sec >= expires_sec {
                    return Ok((self.stake.amount, None));
                }
                let next_unstake = match self.stake.next_unstake_time_sec {
                    Some(t) => t,
                    None => self.auto_stake_expiry,
                };
                if now_sec < next_unstake {
                    let free = if self.stake.unlocked_stake <= self.stake.amount {
                        self.stake.unlocked_stake
                    } else {
                        self.stake.amount
                    };
                    return Ok((free, Some(next_unstake)));
                }
                let elapsed = now_sec - next_unstake;
                let steps = elapsed / unstake_period;
                let periods: u64 = if steps == u64::MAX {
                    u64::MAX
                } else {
                    steps + 1
                };
                let multiplier = (periods % 0x1_0000_0000) as u128;
                let newly = if multiplier != 0 && per_period_allowance > u128::MAX / multiplier {
                    assert(per_period_allowance * multiplier > u128::MAX) by (nonlinear_arith)
                        requires
                            multiplier > 0,
                            per_period_allowance > u128::MAX / multiplier,
                    ;
                    u128::MAX
                } else {
                    assert(per_period_allowance * multiplier <= u128::MAX) by (nonlinear_arith)
                        requires
                            multiplier == 0 || per_period_allowance <= u128::MAX / multiplier,
                    ;
                    per_period_allowance * multiplier
                };
                if self.stake.unlocked_stake > u128::MAX - newly {
                    return Err(ArithmeticError::Overflow);
                }
                let total = self.stake.unlocked_stake + newly;
                let available = if total <= self.stake.amount {
                    total
                } else {
                    self.stake.amount
                };
                let wait = if periods > u64::MAX / unstake_period {
                    assert(periods * unstake_period > u64::MAX) by (nonlinear_arith)
                        requires
                            unstake_period > 0,
                            periods > u64::MAX / unstake_period,
                    ;
                    u64::MAX
                } else {
                    assert(periods * unstake_period <= u64::MAX) by (nonlinear_arith)
                        requires
                            unstake_period > 0,
                            periods <= u64::MAX / unstake_period,
                    ;
                    periods * unstake_period
                };
                if next_unstake > u64::MAX - wait {
                    return Err(ArithmeticError::Overflow);
                }
                Ok((available, Some(next_unstake + wait)))
            },
        }
    }
}

/// Settings an administrator can change.
#[derive(Clone, Copy, Debug, PartialEq, Eq)]
pub enum AdminConfig {
    NodeRegistrar(AccountId),
    RewardPeriod(u32),
    BatchSize(u32),
    Heartbeat(u32),
    RewardAmount(Balance),
    RewardToggle(bool),
    MinUptimeThreshold(Perbill),
    AutoStakeDuration(Duration),
    MaxUnstakePercentage(Perbill),
    UnstakePeriod(Duration),
    RestrictedUnstakeDuration(Duration),
    AppChainFee(Perbill),
}

#[derive(Clone, Copy, Debug, PartialEq, Eq, Default)]
pub struct TotalUptimeInfo {
    /// Uptime reports in the reward period.
    pub total_heartbeats: u64,
    /// Their total weight.
    pub total_weight: u128,
}

impl TotalUptimeInfo {
    pub fn new(total_heartbeats: u64, total_weight: u128) -> (r: Self)
        ensures
            r == (TotalUptimeInfo { total_heartbeats, total_weight }),
    {
        TotalUptimeInfo { total_heartbeats, total_weight }
    }
}

#[derive(Clone, Copy, Debug, PartialEq, Eq)]
pub enum StakeOperation {
    Add,
    Remove,
}

} // verus!
