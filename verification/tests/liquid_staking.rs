use stayer::pool::{Error, LiquidStaking, WithdrawalStatus};
use stayer::registry::{ValidatorRegistry, ValidatorUpdateData};

const OWNER: u64 = 0;
const REGISTRY_ADDR: u64 = 1;
const YSCSPR_ADDR: u64 = 2;
const KEEPER: u64 = 3;
const AUCTION_ADDR: u64 = 4;
const USER: u64 = 5;
const VALIDATOR: u64 = 7;

const MOTES: u128 = 1_000_000_000;

fn setup() -> LiquidStaking {
    LiquidStaking::init(OWNER, REGISTRY_ADDR, YSCSPR_ADDR, AUCTION_ADDR, KEEPER)
}

/// A registry whose one validator scores exactly the network average, so
/// the stake-to-mint multiplier sits at par.
fn registry_at_par() -> ValidatorRegistry {
    let mut registry = ValidatorRegistry::init(OWNER, KEEPER);
    let validators = vec![ValidatorUpdateData {
        pubkey: VALIDATOR,
        fee: 15,
        is_active: true,
        decay_factor: 100,
    }];
    // p_score = (100 - 15) * 100 * 100 / 10000 = 85 == p_avg.
    registry.update_validators(KEEPER, validators, 85, 1).unwrap();
    registry
}

#[test]
fn liquid_staking_test_initialization() {
    let liquid_staking = setup();

    assert_eq!(liquid_staking.get_total_staked(), 0);
}

#[test]
fn test_basic_state() {
    let liquid_staking = setup();

    assert_eq!(liquid_staking.get_total_staked(), 0);
}

#[test]
fn test_stake_at_par_mints_one_to_one() {
    let registry = registry_at_par();
    let mut pool = setup();

    assert_eq!(pool.get_exchange_rate(0), Ok(MOTES));

    let staked = pool.stake(&registry, USER, VALIDATOR, 100 * MOTES, 1).unwrap();
    assert_eq!(staked.multiplier, 10000);
    assert_eq!(staked.yscspr_minted, 100 * MOTES);
    assert_eq!(staked.cspr_amount, 100 * MOTES);

    assert_eq!(pool.get_total_staked(), 100 * MOTES);
    assert_eq!(pool.get_user_stake(USER, VALIDATOR), 100 * MOTES);
    // With the minted supply outstanding, the rate is still exactly 1:1.
    assert_eq!(pool.get_exchange_rate(100 * MOTES), Ok(MOTES));
}

#[test]
fn test_stake_amount_bounds() {
    let registry = registry_at_par();
    let mut pool = setup();

    assert_eq!(
        pool.stake(&registry, USER, VALIDATOR, 100 * MOTES - 1, 1),
        Err(Error::StakeTooLow)
    );
    assert_eq!(
        pool.stake(&registry, USER, VALIDATOR, 100_000 * MOTES + 1, 1),
        Err(Error::StakeTooHigh)
    );
    assert_eq!(pool.get_total_staked(), 0);
}

#[test]
fn test_stake_rejects_unknown_or_stale_validator() {
    let registry = registry_at_par();
    let mut pool = setup();

    assert_eq!(
        pool.stake(&registry, USER, 99, 100 * MOTES, 1),
        Err(Error::InvalidValidator)
    );
    // One missed keeper refresh past the staleness window invalidates all.
    assert_eq!(
        pool.stake(&registry, USER, VALIDATOR, 100 * MOTES, 5),
        Err(Error::InvalidValidator)
    );
    assert!(pool.stake(&registry, USER, VALIDATOR, 100 * MOTES, 4).is_ok());
}

#[test]
fn test_multiplier_clamping() {
    let mut registry = ValidatorRegistry::init(OWNER, KEEPER);
    let validators = vec![
        // p_score = (100 - 99) * 100 * 100 / 10000 = 1: far below average.
        ValidatorUpdateData { pubkey: 11, fee: 99, is_active: true, decay_factor: 100 },
        // p_score = 95: far above an average of 10.
        ValidatorUpdateData { pubkey: 12, fee: 5, is_active: true, decay_factor: 100 },
    ];
    registry.update_validators(KEEPER, validators, 10, 1).unwrap();

    let mut pool = setup();
    let low = pool.stake(&registry, USER, 11, 100 * MOTES, 1).unwrap();
    assert_eq!(low.multiplier, 5000);
    assert_eq!(low.yscspr_minted, 50 * MOTES);

    let high = pool.stake(&registry, USER, 12, 100 * MOTES, 1).unwrap();
    assert_eq!(high.multiplier, 15000);
    assert_eq!(high.yscspr_minted, 150 * MOTES);
}

#[test]
fn test_unstake_and_claim_lifecycle() {
    let registry = registry_at_par();
    let mut pool = setup();
    pool.stake(&registry, USER, VALIDATOR, 1000 * MOTES, 1).unwrap();
    let supply = 1000 * MOTES;

    let unstaked = pool.unstake(USER, VALIDATOR, 100 * MOTES, 2, supply).unwrap();
    assert_eq!(unstaked.request_id, 1);
    assert_eq!(unstaked.cspr_amount, 100 * MOTES);
    assert_eq!(unstaked.unlock_era, 9);
    assert_eq!(pool.get_total_staked(), 900 * MOTES);
    assert_eq!(pool.get_user_stake(USER, VALIDATOR), 900 * MOTES);

    let pending = pool.get_pending_withdrawals(USER);
    assert_eq!(pending.len(), 1);
    assert_eq!(pending[0].amount, 100 * MOTES);
    assert_eq!(pending[0].unlock_era, 9);
    assert_eq!(pending[0].status, WithdrawalStatus::Pending);

    // Claiming before the unlock era pays nothing.
    assert_eq!(pool.claim(USER, 8), Err(Error::NoMaturedWithdrawals));

    // At the unlock era the request pays exactly once.
    let claimed = pool.claim(USER, 9).unwrap();
    assert_eq!(claimed.amount, 100 * MOTES);
    assert_eq!(claimed.request_ids, vec![1]);

    // A second attempt finds nothing left to pay.
    assert_eq!(pool.claim(USER, 9), Err(Error::NoMaturedWithdrawals));

    // A caller who never unstaked has no pending index at all.
    assert_eq!(pool.claim(9, 9), Err(Error::NoPendingWithdrawals));
}

#[test]
fn test_claim_pays_only_matured_requests() {
    let registry = registry_at_par();
    let mut pool = setup();
    pool.stake(&registry, USER, VALIDATOR, 10_000 * MOTES, 1).unwrap();
    let supply = 10_000 * MOTES;

    pool.unstake(USER, VALIDATOR, 100 * MOTES, 2, supply).unwrap(); // unlocks at 9
    // The first unstake burned 100 units of supply, keeping the rate at par.
    pool.unstake(USER, VALIDATOR, 200 * MOTES, 4, supply - 100 * MOTES).unwrap(); // unlocks at 11

    let claimed = pool.claim(USER, 9).unwrap();
    assert_eq!(claimed.amount, 100 * MOTES);
    assert_eq!(claimed.request_ids, vec![1]);

    // The unmatured request stays indexed and pays later.
    let pending = pool.get_pending_withdrawals(USER);
    assert_eq!(pending.len(), 1);
    assert_eq!(pending[0].amount, 200 * MOTES);
    let claimed = pool.claim(USER, 11).unwrap();
    assert_eq!(claimed.amount, 200 * MOTES);
    assert_eq!(claimed.request_ids, vec![2]);
}

#[test]
fn test_unstake_validation() {
    let registry = registry_at_par();
    let mut pool = setup();
    pool.stake(&registry, USER, VALIDATOR, 1000 * MOTES, 1).unwrap();
    let supply = 1000 * MOTES;

    assert_eq!(pool.unstake(USER, VALIDATOR, 0, 2, supply), Err(Error::InvalidAmount));
    // A stranger has no recorded stake with this validator.
    assert_eq!(
        pool.unstake(9, VALIDATOR, MOTES, 2, supply),
        Err(Error::InsufficientStake)
    );
    // A single unstake may not drain more than a tenth of the pool.
    assert_eq!(
        pool.unstake(USER, VALIDATOR, 200 * MOTES, 2, supply),
        Err(Error::ExceedsMaxWithdrawal)
    );
    assert_eq!(pool.get_total_staked(), 1000 * MOTES);
}

#[test]
fn test_harvest_raises_exchange_rate() {
    let registry = registry_at_par();
    let mut pool = setup();
    pool.stake(&registry, USER, VALIDATOR, 1000 * MOTES, 1).unwrap();
    let supply = 1000 * MOTES;

    // The backend reports one extra base unit of rewards.
    let harvested = pool
        .harvest_rewards(KEEPER, 1000 * MOTES + MOTES, 2, supply)
        .unwrap()
        .unwrap();
    assert_eq!(harvested.rewards, MOTES);
    // 5% protocol fee; the rest raises the staked total and with it the rate.
    assert_eq!(harvested.protocol_fee, 50_000_000);
    assert_eq!(pool.get_total_staked(), 1000 * MOTES + 950_000_000);
    assert_eq!(harvested.new_exchange_rate, 1_000_950_000);
    assert!(harvested.new_exchange_rate > MOTES);
    assert_eq!(pool.treasury_rewards, 50_000_000);
    assert_eq!(pool.cumulative_rewards, MOTES);
}

#[test]
fn test_harvest_without_gain_only_advances_era() {
    let registry = registry_at_par();
    let mut pool = setup();
    pool.stake(&registry, USER, VALIDATOR, 1000 * MOTES, 1).unwrap();
    let supply = 1000 * MOTES;

    // A report not above the recorded total is a no-op except for the era.
    let r = pool.harvest_rewards(KEEPER, 1000 * MOTES, 2, supply).unwrap();
    assert!(r.is_none());
    assert_eq!(pool.get_total_staked(), 1000 * MOTES);
    assert_eq!(pool.get_exchange_rate(supply), Ok(MOTES));
    assert_eq!(pool.last_harvest_era, 2);

    // The era really advanced: repeating the same era now fails.
    assert_eq!(
        pool.harvest_rewards(KEEPER, 1000 * MOTES, 2, supply),
        Err(Error::InvalidEra)
    );
}

#[test]
fn test_harvest_authorization() {
    let mut pool = setup();
    assert_eq!(pool.harvest_rewards(USER, MOTES, 1, 0), Err(Error::Unauthorized));
    assert!(pool.harvest_rewards(OWNER, 0, 1, 0).is_ok());
}

#[test]
fn test_pending_delegation_queue() {
    let registry = registry_at_par();
    let mut pool = setup();

    pool.stake(&registry, USER, VALIDATOR, 100 * MOTES, 1).unwrap();
    pool.stake(&registry, USER, VALIDATOR, 200 * MOTES, 2).unwrap();

    // Intents merge by validator: one entry carrying the summed amount.
    let intents = pool.get_pending_delegations();
    assert_eq!(intents.len(), 1);
    assert_eq!(intents[0].validator, VALIDATOR);
    assert_eq!(intents[0].amount, 300 * MOTES);
    assert_eq!(intents[0].era, 2);

    // The keeper may draw up to the pending amount, not more.
    assert!(pool.withdraw_for_delegation(KEEPER, VALIDATOR, 300 * MOTES).is_ok());
    assert_eq!(
        pool.withdraw_for_delegation(KEEPER, VALIDATOR, 300 * MOTES + 1),
        Err(Error::InvalidAmount)
    );
    assert_eq!(
        pool.withdraw_for_delegation(USER, VALIDATOR, MOTES),
        Err(Error::Unauthorized)
    );

    // A partial confirmation reduces the entry, a full one clears it.
    pool.confirm_delegation(KEEPER, VALIDATOR, 100 * MOTES).unwrap();
    assert_eq!(pool.total_delegated, 100 * MOTES);
    let intents = pool.get_pending_delegations();
    assert_eq!(intents[0].amount, 200 * MOTES);
    pool.confirm_delegation(KEEPER, VALIDATOR, 200 * MOTES).unwrap();
    assert_eq!(pool.get_pending_delegations().len(), 0);
    assert_eq!(pool.total_delegated, 300 * MOTES);
    assert_eq!(
        pool.confirm_delegation(KEEPER, VALIDATOR, 1),
        Err(Error::InvalidAmount)
    );
}

#[test]
fn test_pending_undelegation_queue() {
    let registry = registry_at_par();
    let mut pool = setup();
    pool.stake(&registry, USER, VALIDATOR, 1000 * MOTES, 1).unwrap();
    pool.confirm_delegation(KEEPER, VALIDATOR, 1000 * MOTES).unwrap();

    pool.unstake(USER, VALIDATOR, 100 * MOTES, 2, 1000 * MOTES).unwrap();
    let intents = pool.get_pending_undelegations();
    assert_eq!(intents.len(), 1);
    assert_eq!(intents[0].amount, 100 * MOTES);

    pool.confirm_undelegation(KEEPER, VALIDATOR, 100 * MOTES).unwrap();
    assert_eq!(pool.get_pending_undelegations().len(), 0);
    assert_eq!(pool.total_delegated, 900 * MOTES);

    // The keeper returns the unbonded funds to the pool's purse.
    assert!(pool.deposit_from_undelegation(KEEPER, 100 * MOTES).is_ok());
    assert_eq!(
        pool.deposit_from_undelegation(USER, 100 * MOTES),
        Err(Error::Unauthorized)
    );
}

#[test]
fn test_withdraw_treasury() {
    let registry = registry_at_par();
    let mut pool = setup();
    pool.stake(&registry, USER, VALIDATOR, 1000 * MOTES, 1).unwrap();
    pool.harvest_rewards(KEEPER, 1001 * MOTES, 2, 1000 * MOTES).unwrap();
    assert_eq!(pool.treasury_rewards, 50_000_000);

    assert_eq!(pool.withdraw_treasury(USER, 1), Err(Error::Unauthorized));
    assert_eq!(
        pool.withdraw_treasury(OWNER, 50_000_001),
        Err(Error::InsufficientTreasury)
    );
    pool.withdraw_treasury(OWNER, 20_000_000).unwrap();
    assert_eq!(pool.treasury_rewards, 30_000_000);
}

#[test]
fn test_get_stats() {
    let registry = registry_at_par();
    let mut pool = setup();
    pool.stake(&registry, USER, VALIDATOR, 1000 * MOTES, 1).unwrap();
    let stats = pool.get_stats(1000 * MOTES).unwrap();
    assert_eq!(stats.total_staked, 1000 * MOTES);
    assert_eq!(stats.total_pending_withdrawal, 0);
    assert_eq!(stats.cumulative_rewards, 0);
    assert_eq!(stats.exchange_rate, MOTES);
}

#[test]
fn test_accumulator_overflow_is_fatal() {
    let registry = registry_at_par();
    let mut pool = setup();

    // A user stake that can no longer grow makes a further stake revert.
    pool.user_stakes.insert(stayer::arith::pair_key(USER, VALIDATOR), u128::MAX);
    assert_eq!(
        pool.stake(&registry, USER, VALIDATOR, 100 * MOTES, 1),
        Err(Error::Overflow)
    );
    assert_eq!(pool.get_total_staked(), 0);

    // A derivative amount whose conversion cannot fit reverts an unstake.
    let mut pool = setup();
    pool.stake(&registry, USER, VALIDATOR, 1000 * MOTES, 1).unwrap();
    assert_eq!(
        pool.unstake(USER, VALIDATOR, u128::MAX, 2, 1000 * MOTES),
        Err(Error::Overflow)
    );
}

#[test]
fn test_claim_underflow_is_fatal() {
    let registry = registry_at_par();
    let mut pool = setup();
    pool.stake(&registry, USER, VALIDATOR, 1000 * MOTES, 1).unwrap();
    pool.unstake(USER, VALIDATOR, 100 * MOTES, 2, 1000 * MOTES).unwrap();

    // A pending-withdrawal accumulator below the matured sum reverts.
    pool.total_pending_withdrawal = 0;
    assert_eq!(pool.claim(USER, 9), Err(Error::Underflow));
}

#[test]
fn test_pending_total_matches_requests() {
    let registry = registry_at_par();
    let mut pool = setup();
    let other: u64 = 6;
    pool.stake(&registry, USER, VALIDATOR, 1000 * MOTES, 1).unwrap();
    pool.stake(&registry, other, VALIDATOR, 1000 * MOTES, 1).unwrap();

    pool.unstake(USER, VALIDATOR, 100 * MOTES, 2, 2000 * MOTES).unwrap();
    pool.unstake(other, VALIDATOR, 150 * MOTES, 2, 1900 * MOTES).unwrap();

    // The pending-withdrawal accumulator equals the sum over all live
    // pending requests.
    let mut sum: u128 = 0;
    for req in pool.get_pending_withdrawals(USER) {
        sum += req.amount;
    }
    for req in pool.get_pending_withdrawals(other) {
        sum += req.amount;
    }
    assert_eq!(sum, 250 * MOTES);
    assert_eq!(pool.total_pending_withdrawal, 250 * MOTES);
    assert_eq!(pool.get_total_staked(), 1750 * MOTES);
}

#[test]
fn pool_test_set_keeper() {
    let mut pool = setup();
    assert_eq!(pool.set_keeper(KEEPER, 9), Err(Error::Unauthorized));
    pool.set_keeper(OWNER, 9).unwrap();
    assert!(pool.harvest_rewards(9, 0, 1, 0).is_ok());
}
