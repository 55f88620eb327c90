use stayer::oracle::{Error, PriceData, PriceOracle};

const OWNER: u64 = 0;
const STYKS: u64 = 1;

fn setup() -> PriceOracle {
    PriceOracle::init(OWNER, 0, 400, STYKS)
}

#[test]
fn test_fetch_from_styks_integration() {
    let mut oracle = setup();

    assert_eq!(oracle.get_price(0), Ok(400));

    // The external feed now reports 550 for the requested id.
    oracle.fetch_from_styks(0, Some(550)).unwrap();

    assert_eq!(oracle.get_price(0), Ok(550));
}

#[test]
fn test_manual_update() {
    let mut oracle = setup();
    oracle.update_price(OWNER, 0, 450).unwrap();
    assert_eq!(oracle.get_price(0), Ok(450));
}

#[test]
fn test_fallback_logic() {
    let mut oracle = setup();

    oracle.set_use_fallback(OWNER, true).unwrap();
    oracle.set_fallback_price(OWNER, 100).unwrap();

    oracle.update_price(OWNER, 0, 500).unwrap();
    assert_eq!(oracle.get_price(0), Ok(100));
}

#[test]
fn test_update_price_out_of_range() {
    let mut oracle = setup();
    assert_eq!(oracle.update_price(OWNER, 0, 9), Err(Error::PriceOutOfRange));
    assert_eq!(oracle.update_price(OWNER, 0, 1_000_000_001), Err(Error::PriceOutOfRange));
    // The boundary values themselves are accepted.
    assert!(oracle.update_price(OWNER, 0, 10).is_ok());
    assert!(oracle.update_price(OWNER, 0, 1_000_000_000).is_ok());
}

#[test]
fn test_update_price_unauthorized() {
    let mut oracle = setup();
    let hacker = 9;
    assert_eq!(oracle.update_price(hacker, 0, 450), Err(Error::Unauthorized));
    assert_eq!(oracle.get_price(0), Ok(400));
}

#[test]
fn test_updater_lifecycle() {
    let mut oracle = setup();
    let keeper = 5;

    assert_eq!(oracle.update_price(keeper, 0, 450), Err(Error::Unauthorized));
    oracle.add_updater(OWNER, keeper).unwrap();
    oracle.update_price(keeper, 10, 450).unwrap();
    assert_eq!(oracle.get_price(10), Ok(450));
    oracle.remove_updater(OWNER, keeper).unwrap();
    assert_eq!(oracle.update_price(keeper, 20, 460), Err(Error::Unauthorized));
}

#[test]
fn test_round_id_increments() {
    let mut oracle = setup();
    let first = oracle.update_price(OWNER, 5, 450).unwrap();
    assert_eq!(first.round_id, 2);
    assert_eq!(first.timestamp, 5);
    let second = oracle.update_price(OWNER, 6, 460).unwrap();
    assert_eq!(second.round_id, 3);
    assert_eq!(
        oracle.get_latest_price_data(6),
        Ok(PriceData { price: 460, updated_at: 6, round_id: 3 })
    );
}

#[test]
fn test_staleness_detection() {
    let mut oracle = setup();
    assert!(!oracle.is_price_stale(0));
    assert!(!oracle.is_price_stale(7200));
    assert!(oracle.is_price_stale(7201));
    assert_eq!(oracle.get_price_age(7201), 7201);
    // A stale price falls back to the configured fallback value.
    assert_eq!(oracle.get_price(7201), Ok(400));
    oracle.set_fallback_price(OWNER, 123).unwrap();
    assert_eq!(oracle.get_price(7201), Ok(123));
}

#[test]
fn test_stale_price_and_no_fallback() {
    // A state without a fallback price: a stale read fails loudly.
    let mut oracle = setup();
    oracle.fallback_price = None;
    assert_eq!(oracle.get_price(0), Ok(400));
    assert_eq!(oracle.get_price(7201), Err(Error::StalePriceAndNoFallback));
}

#[test]
fn test_fallback_mode_without_price_fails() {
    let mut oracle = setup();
    oracle.fallback_price = None;
    oracle.use_fallback = true;
    assert_eq!(oracle.get_price(0), Err(Error::FallbackNotSet));
}

#[test]
fn test_fetch_unavailable_feed() {
    let mut oracle = setup();
    assert_eq!(oracle.fetch_from_styks(0, None), Err(Error::StyksPriceUnavailable));
    assert_eq!(oracle.get_price(0), Ok(400));
}

#[test]
fn test_set_max_age_validation() {
    let mut oracle = setup();
    assert_eq!(oracle.set_max_age(OWNER, 0), Err(Error::InvalidConfig));
    oracle.set_max_age(OWNER, 100).unwrap();
    assert_eq!(oracle.get_max_age(), 100);
    assert!(oracle.is_price_stale(101));
    assert_eq!(oracle.set_max_age(9, 50), Err(Error::Unauthorized));
}

#[test]
fn test_owner_gates() {
    let mut oracle = setup();
    let hacker = 9;
    assert_eq!(oracle.set_styks_oracle(hacker, 4), Err(Error::Unauthorized));
    assert_eq!(oracle.set_fallback_price(hacker, 1), Err(Error::Unauthorized));
    assert_eq!(oracle.set_use_fallback(hacker, true), Err(Error::Unauthorized));
    assert_eq!(oracle.add_updater(hacker, hacker), Err(Error::Unauthorized));
    assert_eq!(oracle.remove_updater(hacker, OWNER), Err(Error::Unauthorized));
    let event = oracle.set_styks_oracle(OWNER, 4).unwrap();
    assert_eq!(event.config_name, "styks_oracle");
    assert_eq!(event.new_value, "updated");
    assert_eq!(oracle.styks_oracle, 4);
}
