use stayer::vault::{Error, StayerVault, VaultParams};

const OWNER: u64 = 0;
const ORACLE_ADDR: u64 = 1;
const CUSD_ADDR: u64 = 2;
const YSCSPR_ADDR: u64 = 3;
const LIQUID_STAKING_ADDR: u64 = 4;
const USER: u64 = 5;
const LIQUIDATOR: u64 = 6;

const MOTES: u128 = 1_000_000_000;
/// Exchange rate of exactly one base unit per derivative unit.
const PAR_RATE: u128 = 1_000_000_000;

fn setup() -> StayerVault {
    StayerVault::init(OWNER, ORACLE_ADDR, CUSD_ADDR, YSCSPR_ADDR, LIQUID_STAKING_ADDR)
}

#[test]
fn stayer_test_initialization() {
    let vault = setup();

    let params = vault.get_params();
    assert_eq!(params.ltv, 5000); // 50%
    assert_eq!(params.liq_threshold, 11000); // 110%
    assert_eq!(params.liq_penalty, 1000); // 10%
    assert_eq!(params.stability_fee, 200); // 2%
    assert_eq!(params.min_collateral, 100_000_000_000u128); // 100 CSPR with 9 decimals
}

#[test]
fn test_get_total_debt_initially_zero() {
    let vault = setup();

    assert_eq!(vault.get_total_debt(), 0);
}

#[test]
fn test_pause_functionality() {
    let mut vault = setup();

    vault.pause(OWNER).unwrap();

    // Every position operation is now blocked.
    assert_eq!(vault.deposit(USER, 0, 200 * MOTES, 50), Err(Error::Paused));
    assert_eq!(vault.borrow(USER, 1, 50, PAR_RATE), Err(Error::Paused));
    assert_eq!(vault.repay(USER, 1), Err(Error::Paused));
    assert_eq!(vault.withdraw(USER, 1, 50, PAR_RATE), Err(Error::Paused));
    assert_eq!(vault.liquidate(LIQUIDATOR, USER, 1, 50, PAR_RATE), Err(Error::Paused));
}

#[test]
fn test_unpause_functionality() {
    let mut vault = setup();

    vault.pause(OWNER).unwrap();
    vault.unpause(OWNER).unwrap();

    // Normal operations work again.
    assert!(vault.deposit(USER, 0, 200 * MOTES, 50).is_ok());
}

#[test]
fn test_owner_can_update_params() {
    let mut vault = setup();

    vault
        .set_params(OWNER, VaultParams {
            ltv: 6000,
            liq_threshold: 12000,
            liq_penalty: 800,
            stability_fee: 300,
            min_collateral: 200,
        })
        .unwrap();

    let params = vault.get_params();
    assert_eq!(params.ltv, 6000);
    assert_eq!(params.min_collateral, 200);
}

#[test]
#[should_panic]
fn test_unauthorized_pause() {
    let mut vault = setup();
    let hacker = 9;

    vault.pause(hacker).unwrap();
}

#[test]
#[should_panic]
fn test_unauthorized_set_params() {
    let mut vault = setup();
    let hacker = 9;

    vault
        .set_params(hacker, VaultParams {
            ltv: 10000,
            liq_threshold: 10500,
            liq_penalty: 500,
            stability_fee: 100,
            min_collateral: 50,
        })
        .unwrap();
}

#[test]
#[should_panic]
fn test_invalid_ltv_too_high() {
    let mut vault = setup();

    vault
        .set_params(OWNER, VaultParams {
            ltv: 15000, // > 100%
            liq_threshold: 12000,
            liq_penalty: 500,
            stability_fee: 100,
            min_collateral: 100,
        })
        .unwrap();
}

#[test]
#[should_panic]
fn test_invalid_ltv_zero() {
    let mut vault = setup();

    vault
        .set_params(OWNER, VaultParams {
            ltv: 0,
            liq_threshold: 12000,
            liq_penalty: 500,
            stability_fee: 100,
            min_collateral: 100,
        })
        .unwrap();
}

#[test]
#[should_panic]
fn test_invalid_threshold_below_ltv() {
    let mut vault = setup();

    vault
        .set_params(OWNER, VaultParams {
            ltv: 8000,
            liq_threshold: 7000, // < LTV
            liq_penalty: 500,
            stability_fee: 100,
            min_collateral: 100,
        })
        .unwrap();
}

#[test]
#[should_panic]
fn test_invalid_penalty_too_high() {
    let mut vault = setup();

    vault
        .set_params(OWNER, VaultParams {
            ltv: 5000,
            liq_threshold: 11000,
            liq_penalty: 6000, // > 50%
            stability_fee: 100,
            min_collateral: 100,
        })
        .unwrap();
}

#[test]
fn test_param_error_kinds() {
    let mut vault = setup();
    let base = VaultParams {
        ltv: 5000,
        liq_threshold: 11000,
        liq_penalty: 1000,
        stability_fee: 100,
        min_collateral: 100,
    };
    assert_eq!(
        vault.set_params(OWNER, VaultParams { ltv: 0, ..base }),
        Err(Error::InvalidLTV)
    );
    assert_eq!(
        vault.set_params(OWNER, VaultParams { ltv: 10001, ..base }),
        Err(Error::InvalidLTV)
    );
    assert_eq!(
        vault.set_params(OWNER, VaultParams { liq_threshold: 5000, ..base }),
        Err(Error::InvalidThreshold)
    );
    assert_eq!(
        vault.set_params(OWNER, VaultParams { liq_penalty: 5001, ..base }),
        Err(Error::InvalidPenalty)
    );
}

#[test]
fn test_first_deposit_sets_entry_price() {
    let mut vault = setup();
    let deposited = vault.deposit(USER, 1000, 200 * MOTES, 50).unwrap();
    assert_eq!(deposited.collateral, 200 * MOTES);
    assert_eq!(deposited.debt_minted, 0);
    assert_eq!(deposited.price, 50);

    let position = vault.get_position(USER).unwrap();
    assert_eq!(position.owner, USER);
    assert_eq!(position.collateral, 200 * MOTES);
    assert_eq!(position.debt, 0);
    assert_eq!(position.entry_price, 50);
    assert_eq!(position.opened_at, 1000);
}

#[test]
fn test_weighted_entry_price() {
    let mut vault = setup();
    vault.deposit(USER, 1000, 200 * MOTES, 50).unwrap();
    vault.deposit(USER, 2000, 100 * MOTES, 40).unwrap();

    // (50 * 200e9 + 40 * 100e9) / 300e9 floors to 46.
    let position = vault.get_position(USER).unwrap();
    assert_eq!(position.collateral, 300 * MOTES);
    assert_eq!(position.entry_price, 46);
    // The opening timestamp is kept from the first deposit.
    assert_eq!(position.opened_at, 1000);
}

#[test]
fn test_deposit_below_minimum() {
    let mut vault = setup();
    assert_eq!(
        vault.deposit(USER, 0, 100 * MOTES - 1, 50),
        Err(Error::CollateralTooLow)
    );
    assert_eq!(vault.deposit(USER, 0, 0, 50), Err(Error::CollateralTooLow));
    assert!(vault.get_position(USER).is_none());
}

#[test]
fn test_deposit_minimum_applies_to_resulting_collateral() {
    let mut vault = setup();
    vault.deposit(USER, 1000, 200 * MOTES, 50).unwrap();

    // A small top-up is fine: the resulting collateral stays above the
    // minimum.
    vault.deposit(USER, 2000, 1, 60).unwrap();
    let position = vault.get_position(USER).unwrap();
    assert_eq!(position.collateral, 200 * MOTES + 1);
    // (50 * 200e9 + 60 * 1) / (200e9 + 1) still floors to 50.
    assert_eq!(position.entry_price, 50);
}

#[test]
fn test_borrow_up_to_ltv() {
    let mut vault = setup();
    vault.deposit(USER, 0, 200 * MOTES, 50).unwrap();

    // Collateral value: 200 units * price 50 = 10000; max debt at 50% = 5000.
    vault.borrow(USER, 5000, 50, PAR_RATE).unwrap();
    assert_eq!(vault.get_position(USER).unwrap().debt, 5000);
    assert_eq!(vault.get_total_debt(), 5000);

    // One more unit crosses the loan-to-value bound.
    assert_eq!(vault.borrow(USER, 1, 50, PAR_RATE), Err(Error::ExceedsMaxDebt));
    assert_eq!(vault.get_total_debt(), 5000);
}

#[test]
fn test_borrow_validation() {
    let mut vault = setup();
    assert_eq!(vault.borrow(USER, 1, 50, PAR_RATE), Err(Error::PositionNotFound));
}

#[test]
fn test_repay() {
    let mut vault = setup();
    vault.deposit(USER, 0, 200 * MOTES, 50).unwrap();
    vault.borrow(USER, 5000, 50, PAR_RATE).unwrap();

    assert_eq!(vault.repay(USER, 5001), Err(Error::ExceedsDebt));
    vault.repay(USER, 2000).unwrap();
    assert_eq!(vault.get_position(USER).unwrap().debt, 3000);
    assert_eq!(vault.get_total_debt(), 3000);
    vault.repay(USER, 3000).unwrap();
    assert_eq!(vault.get_position(USER).unwrap().debt, 0);
    assert_eq!(vault.get_total_debt(), 0);
}

#[test]
fn test_withdraw_debt_free() {
    let mut vault = setup();
    vault.deposit(USER, 0, 200 * MOTES, 50).unwrap();
    assert_eq!(
        vault.withdraw(USER, 200 * MOTES + 1, 50, PAR_RATE),
        Err(Error::InsufficientCollateral)
    );
    let withdrawn = vault.withdraw(USER, 200 * MOTES, 50, PAR_RATE).unwrap();
    assert_eq!(withdrawn.collateral_returned, 200 * MOTES);
    assert_eq!(vault.get_position(USER).unwrap().collateral, 0);
}

#[test]
fn test_withdraw_keeps_position_healthy() {
    let mut vault = setup();
    vault.deposit(USER, 0, 200 * MOTES, 50).unwrap();
    vault.borrow(USER, 5000, 50, PAR_RATE).unwrap();

    // Down to 50 units the remaining value (2500 * 110%) falls below the debt.
    assert_eq!(
        vault.withdraw(USER, 150 * MOTES, 50, PAR_RATE),
        Err(Error::UnhealthyPosition)
    );
    // A small withdrawal that keeps the health factor at 100% or above passes.
    vault.withdraw(USER, 10 * MOTES, 50, PAR_RATE).unwrap();
    assert_eq!(vault.get_position(USER).unwrap().collateral, 190 * MOTES);
}

#[test]
fn test_health_factor_and_liquidatable() {
    let mut vault = setup();
    assert_eq!(vault.get_health_factor(USER, 50, PAR_RATE), Ok(0));
    vault.deposit(USER, 0, 200 * MOTES, 50).unwrap();

    // Without debt the health factor is the maximum representable value.
    assert_eq!(vault.get_health_factor(USER, 50, PAR_RATE), Ok(u64::MAX));
    assert_eq!(vault.is_liquidatable(USER, 50, PAR_RATE), Ok(false));

    vault.borrow(USER, 5000, 50, PAR_RATE).unwrap();
    // 10000 USD * 11000 bps / 5000 debt = 22000 bps.
    assert_eq!(vault.get_health_factor(USER, 50, PAR_RATE), Ok(22000));
    assert_eq!(vault.is_liquidatable(USER, 50, PAR_RATE), Ok(false));

    // The price halves: 4000 * 11000 / 5000 = 8800 bps, below 100%.
    assert_eq!(vault.get_health_factor(USER, 20, PAR_RATE), Ok(8800));
    assert_eq!(vault.is_liquidatable(USER, 20, PAR_RATE), Ok(true));
}

#[test]
fn test_valuation_overflow_is_fatal() {
    let mut vault = setup();
    // A position whose scaled collateral product cannot fit in 128 bits.
    vault.positions.insert(USER, stayer::vault::Position {
        owner: USER,
        collateral: u128::MAX,
        debt: 1,
        entry_price: 50,
        opened_at: 0,
    });
    assert_eq!(vault.get_health_factor(USER, 50, PAR_RATE), Err(Error::Overflow));
    assert_eq!(vault.is_liquidatable(USER, 50, PAR_RATE), Err(Error::Overflow));
    assert_eq!(vault.borrow(USER, 1, 50, PAR_RATE), Err(Error::Overflow));
    assert_eq!(
        vault.liquidate(LIQUIDATOR, USER, 1, 50, PAR_RATE),
        Err(Error::Overflow)
    );
}

#[test]
fn test_liquidation() {
    let mut vault = setup();
    vault.deposit(USER, 0, 200 * MOTES, 50).unwrap();
    vault.borrow(USER, 5000, 50, PAR_RATE).unwrap();

    // Healthy positions cannot be liquidated.
    assert_eq!(
        vault.liquidate(LIQUIDATOR, USER, 1000, 50, PAR_RATE),
        Err(Error::PositionHealthy)
    );

    // After the price drops to 20 the position is liquidatable.
    assert_eq!(
        vault.liquidate(LIQUIDATOR, USER, 5001, 20, PAR_RATE),
        Err(Error::ExceedsDebt)
    );
    // Covering the whole debt would seize 5000 * 1.1 / 20 = 275 units:
    // more than the position holds.
    assert_eq!(
        vault.liquidate(LIQUIDATOR, USER, 5000, 20, PAR_RATE),
        Err(Error::InsufficientCollateral)
    );

    // Covering 2000 seizes 2000 * 1.1 / 20 = 110 units at a 1:1 rate.
    let liquidated = vault.liquidate(LIQUIDATOR, USER, 2000, 20, PAR_RATE).unwrap();
    assert_eq!(liquidated.liquidator, LIQUIDATOR);
    assert_eq!(liquidated.debt_covered, 2000);
    assert_eq!(liquidated.collateral_seized, 110 * MOTES);

    let position = vault.get_position(USER).unwrap();
    assert_eq!(position.collateral, 90 * MOTES);
    assert_eq!(position.debt, 3000);
    assert_eq!(vault.get_total_debt(), 3000);
    let (total_collateral, total_debt, price) = vault.get_vault_stats(20);
    assert_eq!(total_collateral, 90 * MOTES);
    assert_eq!(total_debt, 3000);
    assert_eq!(price, 20);
}

#[test]
fn test_liquidation_of_unknown_position() {
    let mut vault = setup();
    assert_eq!(
        vault.liquidate(LIQUIDATOR, USER, 1, 50, PAR_RATE),
        Err(Error::PositionNotFound)
    );
}

#[test]
fn test_exchange_rate_scales_collateral_value() {
    let mut vault = setup();
    vault.deposit(USER, 0, 200 * MOTES, 50).unwrap();

    // At a 1.5x exchange rate the same collateral backs 50% more debt.
    vault.borrow(USER, 7500, 50, 1_500_000_000).unwrap();
    assert_eq!(
        vault.borrow(USER, 1, 50, 1_500_000_000),
        Err(Error::ExceedsMaxDebt)
    );
}

#[test]
fn test_set_oracle() {
    let mut vault = setup();
    assert_eq!(vault.set_oracle(USER, 9), Err(Error::Unauthorized));
    vault.set_oracle(OWNER, 9).unwrap();
    assert_eq!(vault.oracle, 9);
}

#[test]
fn test_accumulators_match_position_sums() {
    let mut vault = setup();
    let other: u64 = 7;
    vault.deposit(USER, 0, 200 * MOTES, 50).unwrap();
    vault.deposit(other, 0, 300 * MOTES, 40).unwrap();
    vault.borrow(USER, 1000, 50, PAR_RATE).unwrap();
    vault.borrow(other, 2000, 50, PAR_RATE).unwrap();
    vault.repay(USER, 500).unwrap();
    vault.withdraw(other, 100 * MOTES, 50, PAR_RATE).unwrap();

    // The global accumulators equal the sums over all live positions.
    let p1 = vault.get_position(USER).unwrap();
    let p2 = vault.get_position(other).unwrap();
    let (total_collateral, total_debt, _) = vault.get_vault_stats(50);
    assert_eq!(total_collateral, p1.collateral + p2.collateral);
    assert_eq!(total_debt, p1.debt + p2.debt);
    assert_eq!(vault.get_total_debt(), 2500);
}

#[test]
fn test_conversion_helpers() {
    let vault = setup();
    assert_eq!(vault.collateral_to_usd(200 * MOTES, 50, PAR_RATE), Ok(10000));
    assert_eq!(vault.calculate_max_debt(200 * MOTES, 50, 5000, PAR_RATE), Ok(5000));
    assert_eq!(vault.debt_to_collateral(5000, 50), Ok(100 * MOTES));
    assert_eq!(vault.debt_to_collateral(5000, 0), Err(Error::Overflow));
    assert_eq!(
        vault.calculate_liquidation_amount(2000, 20, 1000, PAR_RATE),
        Ok(110 * MOTES)
    );
    // At a 2x exchange rate the same seizure halves in derivative units.
    assert_eq!(
        vault.calculate_liquidation_amount(2000, 20, 1000, 2 * PAR_RATE),
        Ok(55 * MOTES)
    );
    assert_eq!(
        vault.calculate_weighted_price(50, 200 * MOTES, 40, 100 * MOTES),
        Ok(46)
    );
    assert_eq!(vault.calculate_weighted_price(50, 0, 40, 0), Ok(40));
}

#[test]
fn test_liquidation_at_appreciated_rate() {
    let mut vault = setup();
    // 100 derivative units at a 2x rate back 200 base units.
    vault.deposit(USER, 0, 100 * MOTES, 50).unwrap();
    vault.borrow(USER, 5000, 50, 2 * PAR_RATE).unwrap();

    // Price drops to 20: 4000 USD * 11000 / 5000 = 8800 bps.
    assert_eq!(vault.get_health_factor(USER, 20, 2 * PAR_RATE), Ok(8800));

    // Covering 2000 seizes 110 base units = 55 derivative units.
    let liquidated = vault.liquidate(LIQUIDATOR, USER, 2000, 20, 2 * PAR_RATE).unwrap();
    assert_eq!(liquidated.collateral_seized, 55 * MOTES);
    let position = vault.get_position(USER).unwrap();
    assert_eq!(position.collateral, 45 * MOTES);
    assert_eq!(position.debt, 3000);
}
