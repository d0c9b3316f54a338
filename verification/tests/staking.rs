use hypernode::identity::Pubkey;
use hypernode::staking::config::{initialize_config, StakingConfig, TierThresholds};
use hypernode::staking::error::StakingError;
use hypernode::staking::instructions::{stake, unstake};
use hypernode::staking::ledger::StakeLedger;
use hypernode::staking::stake_account::{StakeAccount, StakeTier};

const MONTH: i64 = 30 * 24 * 60 * 60;
const YEAR: i64 = 365 * 24 * 60 * 60;
const DAY: i64 = 24 * 60 * 60;
const TOKEN: u64 = 1_000_000_000;

fn key(n: u8) -> Pubkey {
    Pubkey::new([n; 32])
}

fn fresh_config(authority: Pubkey, bump: u8) -> StakingConfig {
    initialize_config(None, authority, bump).unwrap()
}

#[test]
fn default_config_has_documented_bounds() {
    let (min_stake, max_stake, min_duration, max_duration, tiers) = StakingConfig::default_config();
    assert_eq!(min_stake, 1_000_000_000);
    assert_eq!(max_stake, 1_000_000_000_000_000);
    assert_eq!(min_duration, 86_400);
    assert_eq!(max_duration, 2 * 365 * 86_400);
    assert_eq!(
        tiers,
        TierThresholds { bronze: 1_000, silver: 10_000, gold: 50_000, diamond: 100_000 }
    );
}

#[test]
fn initialize_config_starts_enabled_with_zero_totals() {
    let config = fresh_config(key(1), 254);
    assert_eq!(config.authority, key(1));
    assert_eq!(config.min_stake_amount, TOKEN);
    assert_eq!(config.max_stake_amount, 1_000_000 * TOKEN);
    assert_eq!(config.min_duration, DAY);
    assert_eq!(config.max_duration, 2 * YEAR);
    assert!(config.staking_enabled);
    assert_eq!(config.total_staked, 0);
    assert_eq!(config.total_xnos, 0);
    assert_eq!(config.total_stakers, 0);
    assert_eq!(config.bump, 254);
}

#[test]
fn initialize_config_fails_when_a_config_exists() {
    let existing = fresh_config(key(1), 254);
    assert_eq!(
        initialize_config(Some(&existing), key(2), 1),
        Err(StakingError::AlreadyInitialized)
    );
    assert_eq!(initialize_config(None, key(2), 1), Ok(StakingConfig::new(key(2), 1)));
}

#[test]
fn multiplier_below_one_month_is_100() {
    assert_eq!(StakeAccount::calculate_xnos(1_001, 0), Ok((1_001, 100)));
    assert_eq!(StakeAccount::calculate_xnos(1_001, MONTH - 1), Ok((1_001, 100)));
    assert_eq!(StakeAccount::calculate_xnos(1_001, -5), Ok((1_001, 100)));
    assert_eq!(StakeAccount::calculate_xnos(1_001, i64::MIN), Ok((1_001, 100)));
}

#[test]
fn multiplier_from_one_month_is_150() {
    assert_eq!(StakeAccount::calculate_xnos(1_001, MONTH), Ok((1_501, 150)));
    assert_eq!(StakeAccount::calculate_xnos(1_001, 3 * MONTH - 1), Ok((1_501, 150)));
}

#[test]
fn multiplier_from_three_months_is_200() {
    assert_eq!(StakeAccount::calculate_xnos(1_001, 3 * MONTH), Ok((2_002, 200)));
    assert_eq!(StakeAccount::calculate_xnos(1_001, 6 * MONTH - 1), Ok((2_002, 200)));
}

#[test]
fn multiplier_from_six_months_is_300() {
    assert_eq!(StakeAccount::calculate_xnos(1_001, 6 * MONTH), Ok((3_003, 300)));
    assert_eq!(StakeAccount::calculate_xnos(1_001, YEAR - 1), Ok((3_003, 300)));
}

#[test]
fn multiplier_from_one_year_is_400() {
    assert_eq!(StakeAccount::calculate_xnos(1_001, YEAR), Ok((4_004, 400)));
    assert_eq!(StakeAccount::calculate_xnos(1_001, i64::MAX), Ok((4_004, 400)));
}

#[test]
fn weight_is_rounded_down() {
    assert_eq!(StakeAccount::calculate_xnos(1, MONTH), Ok((1, 150)));
    assert_eq!(StakeAccount::calculate_xnos(3, MONTH), Ok((4, 150)));
    assert_eq!(StakeAccount::calculate_xnos(0, YEAR), Ok((0, 400)));
}

#[test]
fn weight_that_does_not_fit_is_an_overflow() {
    assert_eq!(StakeAccount::calculate_xnos(u64::MAX, 0), Ok((u64::MAX, 100)));
    assert_eq!(
        StakeAccount::calculate_xnos(u64::MAX, YEAR),
        Err(StakingError::CalculationOverflow)
    );
    assert_eq!(
        StakeAccount::calculate_xnos(u64::MAX / 4, YEAR),
        Ok((u64::MAX / 4 * 4, 400))
    );
    assert_eq!(
        StakeAccount::calculate_xnos(u64::MAX / 4 + 1, YEAR),
        Err(StakingError::CalculationOverflow)
    );
    // 150 percent of this amount is one more than the largest 64-bit value.
    assert_eq!(
        StakeAccount::calculate_xnos(12_297_829_382_473_034_411, MONTH),
        Err(StakingError::CalculationOverflow)
    );
    assert_eq!(
        StakeAccount::calculate_xnos(12_297_829_382_473_034_410, MONTH),
        Ok((u64::MAX, 150))
    );
}

#[test]
fn tiers_begin_at_their_thresholds() {
    assert_eq!(StakeAccount::calculate_tier(0), StakeTier::Starter);
    assert_eq!(StakeAccount::calculate_tier(999), StakeTier::Starter);
    assert_eq!(StakeAccount::calculate_tier(1_000), StakeTier::Bronze);
    assert_eq!(StakeAccount::calculate_tier(9_999), StakeTier::Bronze);
    assert_eq!(StakeAccount::calculate_tier(10_000), StakeTier::Silver);
    assert_eq!(StakeAccount::calculate_tier(49_999), StakeTier::Silver);
    assert_eq!(StakeAccount::calculate_tier(50_000), StakeTier::Gold);
    assert_eq!(StakeAccount::calculate_tier(99_999), StakeTier::Gold);
    assert_eq!(StakeAccount::calculate_tier(100_000), StakeTier::Diamond);
    assert_eq!(StakeAccount::calculate_tier(u64::MAX), StakeTier::Diamond);
}

#[test]
fn stake_creates_record_and_updates_totals() {
    let mut config = fresh_config(key(1), 1);
    let record = stake(&mut config, key(2), 5 * TOKEN, 3 * MONTH, 1_000, 9).unwrap();
    assert_eq!(
        record,
        StakeAccount {
            authority: key(2),
            staked_amount: 5 * TOKEN,
            stake_duration: 3 * MONTH,
            staked_at: 1_000,
            unlock_at: 1_000 + 3 * MONTH,
            xnos: 10 * TOKEN,
            multiplier_bps: 200,
            tier: StakeTier::Diamond,
            withdrawn: false,
            bump: 9,
        }
    );
    assert_eq!(config.total_staked, 5 * TOKEN);
    assert_eq!(config.total_xnos, 10 * TOKEN);
    assert_eq!(config.total_stakers, 1);
    assert_eq!(record.voting_weight(), 10 * TOKEN);
}

#[test]
fn stake_rejects_when_disabled() {
    let mut config = fresh_config(key(1), 1);
    config.staking_enabled = false;
    let before = config;
    assert_eq!(
        stake(&mut config, key(2), 0, 0, 0, 0),
        Err(StakingError::StakingDisabled)
    );
    assert_eq!(config, before);
}

#[test]
fn stake_rejects_zero_amount() {
    let mut config = fresh_config(key(1), 1);
    let before = config;
    assert_eq!(stake(&mut config, key(2), 0, MONTH, 0, 0), Err(StakingError::InvalidAmount));
    assert_eq!(config, before);
}

#[test]
fn stake_rejects_amount_below_minimum() {
    let mut config = fresh_config(key(1), 1);
    assert_eq!(
        stake(&mut config, key(2), TOKEN - 1, MONTH, 0, 0),
        Err(StakingError::BelowMinimum)
    );
    assert!(stake(&mut config, key(2), TOKEN, MONTH, 0, 0).is_ok());
}

#[test]
fn stake_rejects_amount_above_maximum() {
    let mut config = fresh_config(key(1), 1);
    assert_eq!(
        stake(&mut config, key(2), 1_000_000 * TOKEN + 1, MONTH, 0, 0),
        Err(StakingError::AboveMaximum)
    );
    assert!(stake(&mut config, key(2), 1_000_000 * TOKEN, MONTH, 0, 0).is_ok());
}

#[test]
fn stake_rejects_duration_out_of_bounds() {
    let mut config = fresh_config(key(1), 1);
    let before = config;
    assert_eq!(
        stake(&mut config, key(2), TOKEN, DAY - 1, 0, 0),
        Err(StakingError::DurationTooShort)
    );
    assert_eq!(
        stake(&mut config, key(2), TOKEN, 2 * YEAR + 1, 0, 0),
        Err(StakingError::DurationTooLong)
    );
    assert_eq!(config, before);
    assert!(stake(&mut config, key(2), TOKEN, DAY, 0, 0).is_ok());
    assert!(stake(&mut config, key(2), TOKEN, 2 * YEAR, 0, 0).is_ok());
}

#[test]
fn stake_checks_in_order() {
    let mut config = fresh_config(key(1), 1);
    // A zero amount is reported before it is compared with the minimum.
    assert_eq!(stake(&mut config, key(2), 0, 0, 0, 0), Err(StakingError::InvalidAmount));
    // The amount is checked before the duration.
    assert_eq!(stake(&mut config, key(2), 1, 0, 0, 0), Err(StakingError::BelowMinimum));
}

#[test]
fn stake_rejects_overflow_of_weight() {
    let mut config = fresh_config(key(1), 1);
    config.max_stake_amount = u64::MAX;
    let before = config;
    assert_eq!(
        stake(&mut config, key(2), u64::MAX / 2, YEAR, 0, 0),
        Err(StakingError::CalculationOverflow)
    );
    assert_eq!(config, before);
}

#[test]
fn stake_rejects_overflow_of_unlock_time() {
    let mut config = fresh_config(key(1), 1);
    let before = config;
    assert_eq!(
        stake(&mut config, key(2), TOKEN, DAY, i64::MAX - DAY + 1, 0),
        Err(StakingError::CalculationOverflow)
    );
    assert_eq!(config, before);
    let record = stake(&mut config, key(2), TOKEN, DAY, i64::MAX - DAY, 0).unwrap();
    assert_eq!(record.unlock_at, i64::MAX);
}

#[test]
fn stake_rejects_overflow_of_totals() {
    let mut config = fresh_config(key(1), 1);
    config.total_staked = u64::MAX - TOKEN + 1;
    let before = config;
    assert_eq!(
        stake(&mut config, key(2), TOKEN, DAY, 0, 0),
        Err(StakingError::CalculationOverflow)
    );
    assert_eq!(config, before);

    let mut config = fresh_config(key(1), 1);
    config.total_xnos = u64::MAX - 4 * TOKEN + 1;
    let before = config;
    assert_eq!(
        stake(&mut config, key(2), TOKEN, YEAR, 0, 0),
        Err(StakingError::CalculationOverflow)
    );
    assert_eq!(config, before);

    let mut config = fresh_config(key(1), 1);
    config.total_stakers = u64::MAX;
    let before = config;
    assert_eq!(
        stake(&mut config, key(2), TOKEN, YEAR, 0, 0),
        Err(StakingError::CalculationOverflow)
    );
    assert_eq!(config, before);
}

#[test]
fn unstake_before_unlock_is_locked() {
    let mut config = fresh_config(key(1), 1);
    let mut record = stake(&mut config, key(2), TOKEN, DAY, 100, 0).unwrap();
    let config_before = config;
    let record_before = record;
    assert_eq!(
        unstake(&mut config, &mut record, key(2), 100 + DAY - 1),
        Err(StakingError::StakeLocked)
    );
    assert_eq!(config, config_before);
    assert_eq!(record, record_before);
}

#[test]
fn unstake_at_unlock_returns_amount() {
    let mut config = fresh_config(key(1), 1);
    let mut record = stake(&mut config, key(2), 3 * TOKEN, MONTH, 100, 0).unwrap();
    let mut other = stake(&mut config, key(3), TOKEN, DAY, 100, 0).unwrap();
    assert_eq!(config.total_staked, 4 * TOKEN);
    assert_eq!(config.total_xnos, 4_500_000_000 + TOKEN);
    assert_eq!(unstake(&mut config, &mut record, key(2), 100 + MONTH), Ok(3 * TOKEN));
    assert!(record.withdrawn);
    assert_eq!(record.xnos, 4_500_000_000);
    assert_eq!(record.voting_weight(), 0);
    assert_eq!(config.total_staked, TOKEN);
    assert_eq!(config.total_xnos, TOKEN);
    assert_eq!(config.total_stakers, 1);
    assert_eq!(unstake(&mut config, &mut other, key(3), 100 + DAY), Ok(TOKEN));
    assert_eq!(config.total_staked, 0);
    assert_eq!(config.total_xnos, 0);
    assert_eq!(config.total_stakers, 0);
}

#[test]
fn unstake_twice_is_already_withdrawn() {
    let mut config = fresh_config(key(1), 1);
    let mut record = stake(&mut config, key(2), TOKEN, DAY, 0, 0).unwrap();
    assert_eq!(unstake(&mut config, &mut record, key(2), DAY), Ok(TOKEN));
    let config_before = config;
    let record_before = record;
    assert_eq!(
        unstake(&mut config, &mut record, key(2), DAY + 1),
        Err(StakingError::AlreadyWithdrawn)
    );
    assert_eq!(config, config_before);
    assert_eq!(record, record_before);
}

#[test]
fn unstake_by_stranger_is_unauthorized() {
    let mut config = fresh_config(key(1), 1);
    let mut record = stake(&mut config, key(2), TOKEN, DAY, 0, 0).unwrap();
    // The owner is checked before the lock.
    assert_eq!(unstake(&mut config, &mut record, key(3), 0), Err(StakingError::Unauthorized));
    assert_eq!(unstake(&mut config, &mut record, key(3), DAY), Err(StakingError::Unauthorized));
    assert!(!record.withdrawn);
}

#[test]
fn unstake_against_stale_totals_is_an_overflow() {
    let mut config = fresh_config(key(1), 1);
    let mut record = stake(&mut config, key(2), TOKEN, DAY, 0, 0).unwrap();
    config.total_xnos = TOKEN - 1;
    let config_before = config;
    assert_eq!(
        unstake(&mut config, &mut record, key(2), DAY),
        Err(StakingError::CalculationOverflow)
    );
    assert_eq!(config, config_before);
    assert!(!record.withdrawn);
    config.total_xnos = TOKEN;
    config.total_staked = 0;
    assert_eq!(
        unstake(&mut config, &mut record, key(2), DAY),
        Err(StakingError::CalculationOverflow)
    );
    assert!(!record.withdrawn);
}

#[test]
fn unstake_saturates_staker_count() {
    let mut config = fresh_config(key(1), 1);
    let mut record = stake(&mut config, key(2), TOKEN, DAY, 0, 0).unwrap();
    config.total_stakers = 0;
    assert_eq!(unstake(&mut config, &mut record, key(2), DAY), Ok(TOKEN));
    assert_eq!(config.total_stakers, 0);
}

fn sum_active_weight(ledger: &StakeLedger) -> u64 {
    ledger.records.iter().filter(|r| !r.withdrawn).map(|r| r.xnos).sum()
}

fn sum_active_amount(ledger: &StakeLedger) -> u64 {
    ledger.records.iter().filter(|r| !r.withdrawn).map(|r| r.staked_amount).sum()
}

fn count_active(ledger: &StakeLedger) -> u64 {
    ledger.records.iter().filter(|r| !r.withdrawn).count() as u64
}

#[test]
fn ledger_totals_equal_sums_over_active_records() {
    let mut ledger = StakeLedger::new(key(1), 7);
    assert_eq!(ledger.config, fresh_config(key(1), 7));
    assert!(ledger.records.is_empty());
    let durations = [DAY, MONTH, 3 * MONTH, 6 * MONTH, YEAR, 2 * YEAR];
    let mut seed: u64 = 0x2545_f491_4f6c_dd1d;
    let mut now: i64 = 1_700_000_000;
    for step in 0..400u64 {
        seed ^= seed << 13;
        seed ^= seed >> 7;
        seed ^= seed << 17;
        now += (seed % 1_000_000) as i64;
        if seed % 3 != 0 || ledger.records.is_empty() {
            let amount = TOKEN / 2 + seed % (50 * TOKEN);
            let duration = durations[(seed >> 20) as usize % durations.len()];
            let owner = key((step % 200) as u8);
            let before = ledger.records.len();
            match ledger.stake(owner, amount, duration, now, 0) {
                Ok(index) => {
                    assert_eq!(index, before);
                    assert_eq!(ledger.records.len(), before + 1);
                }
                Err(e) => {
                    assert_eq!(e, StakingError::BelowMinimum);
                    assert_eq!(ledger.records.len(), before);
                }
            }
        } else {
            let index = (seed >> 24) as usize % ledger.records.len();
            let owner = ledger.records[index].authority;
            let caller = if seed % 7 == 0 { key(255) } else { owner };
            let expected = if caller != owner {
                Err(StakingError::Unauthorized)
            } else if now < ledger.records[index].unlock_at {
                Err(StakingError::StakeLocked)
            } else if ledger.records[index].withdrawn {
                Err(StakingError::AlreadyWithdrawn)
            } else {
                Ok(ledger.records[index].staked_amount)
            };
            assert_eq!(ledger.unstake(index, caller, now), expected);
        }
        assert_eq!(ledger.config.total_xnos, sum_active_weight(&ledger));
        assert_eq!(ledger.config.total_staked, sum_active_amount(&ledger));
        assert_eq!(ledger.config.total_stakers, count_active(&ledger));
    }
    // Far in the future every stake can be withdrawn, and the totals return to zero.
    for index in 0..ledger.records.len() {
        let owner = ledger.records[index].authority;
        let _ = ledger.unstake(index, owner, i64::MAX);
    }
    assert_eq!(ledger.config.total_xnos, 0);
    assert_eq!(ledger.config.total_staked, 0);
    assert_eq!(ledger.config.total_stakers, 0);
    assert!(ledger.records.iter().all(|r| r.withdrawn));
}

#[test]
fn ledger_stake_failure_leaves_ledger_unchanged() {
    let mut ledger = StakeLedger::new(key(1), 7);
    ledger.stake(key(2), TOKEN, DAY, 0, 0).unwrap();
    let config = ledger.config;
    let records = ledger.records.clone();
    assert_eq!(ledger.stake(key(3), 0, DAY, 0, 0), Err(StakingError::InvalidAmount));
    assert_eq!(ledger.config, config);
    assert_eq!(ledger.records, records);
}

#[test]
fn one_year_stake_end_to_end() {
    let mut ledger = StakeLedger::new(key(1), 0);
    ledger.stake(key(9), 2 * TOKEN, MONTH, 500, 0).unwrap();
    let index = ledger.stake(key(2), 1_000_000_000, 31_536_000, 1_000, 0).unwrap();
    let record = ledger.records[index];
    assert_eq!(record.xnos, 4_000_000_000);
    assert_eq!(record.multiplier_bps, 400);
    assert_eq!(record.tier, StakeTier::Diamond);
    assert_eq!(record.unlock_at, 1_000 + 31_536_000);
    let weight_before = ledger.config.total_xnos;
    assert_eq!(weight_before, 3_000_000_000 + 4_000_000_000);
    assert_eq!(
        ledger.unstake(index, key(2), record.unlock_at - 1),
        Err(StakingError::StakeLocked)
    );
    assert_eq!(ledger.config.total_xnos, weight_before);
    assert_eq!(ledger.unstake(index, key(2), record.unlock_at), Ok(1_000_000_000));
    assert_eq!(weight_before - ledger.config.total_xnos, 4_000_000_000);
    assert!(ledger.records[index].withdrawn);
}
