use stayer::registry::{Error, ValidatorRegistry, ValidatorUpdateData};

const OWNER: u64 = 0;
const KEEPER: u64 = 1;

fn setup() -> ValidatorRegistry {
    ValidatorRegistry::init(OWNER, KEEPER)
}

fn create_test_pubkey(byte_value: u8) -> u64 {
    byte_value as u64
}

#[test]
fn validator_registry_test_initialization() {
    let registry = setup();

    assert_eq!(registry.get_network_p_avg(), 80);
    assert_eq!(registry.get_last_update_era(), 0);
}

#[test]
fn test_update_validators() {
    let mut registry = setup();

    let pubkey = create_test_pubkey(1);
    let validators = vec![ValidatorUpdateData {
        pubkey,
        fee: 5u64,
        is_active: true,
        decay_factor: 100u64,
    }];

    registry.update_validators(KEEPER, validators, 85, 1).unwrap();

    let validator_data = registry.get_validator(pubkey).unwrap();
    assert_eq!(validator_data.fee, 5);
    assert_eq!(validator_data.is_active, true);
    assert_eq!(validator_data.p_score, 95);
    assert_eq!(registry.get_network_p_avg(), 85);
    assert_eq!(registry.get_last_update_era(), 1);
}

#[test]
#[should_panic]
fn test_unauthorized_update() {
    let mut registry = setup();
    let hacker = 2;

    let pubkey = create_test_pubkey(1);
    let validators = vec![ValidatorUpdateData {
        pubkey,
        fee: 5u64,
        is_active: true,
        decay_factor: 100u64,
    }];

    registry.update_validators(hacker, validators, 85, 1).unwrap();
}

#[test]
fn test_network_state() {
    let mut registry = setup();

    let pubkey = create_test_pubkey(1);
    let validators = vec![ValidatorUpdateData {
        pubkey,
        fee: 10u64,
        is_active: true,
        decay_factor: 100u64,
    }];

    registry.update_validators(KEEPER, validators, 85, 1).unwrap();

    assert_eq!(registry.get_network_p_avg(), 85);
    assert_eq!(registry.get_last_update_era(), 1);
}

#[test]
fn test_inactive_validator_scores_zero() {
    let mut registry = setup();
    let pubkey = create_test_pubkey(2);
    let validators = vec![ValidatorUpdateData {
        pubkey,
        fee: 5,
        is_active: false,
        decay_factor: 100,
    }];
    registry.update_validators(KEEPER, validators, 85, 1).unwrap();
    let data = registry.get_validator(pubkey).unwrap();
    assert_eq!(data.p_score, 0);
    assert!(!registry.is_valid(pubkey, 1));
}

#[test]
fn test_p_score_decay() {
    let mut registry = setup();
    // Half decay halves the score: (100 - 20) * 100 * 50 / 10000 = 40.
    let validators = vec![ValidatorUpdateData {
        pubkey: 3,
        fee: 20,
        is_active: true,
        decay_factor: 50,
    }];
    registry.update_validators(KEEPER, validators, 80, 1).unwrap();
    assert_eq!(registry.get_validator(3).unwrap().p_score, 40);
}

#[test]
fn test_batch_too_large() {
    let mut registry = setup();
    let mut validators = Vec::new();
    for i in 0..51u64 {
        validators.push(ValidatorUpdateData {
            pubkey: i,
            fee: 5,
            is_active: true,
            decay_factor: 100,
        });
    }
    assert_eq!(
        registry.update_validators(KEEPER, validators, 85, 1),
        Err(Error::TooManyValidators)
    );
}

#[test]
fn test_invalid_p_avg() {
    let mut registry = setup();
    let entry = ValidatorUpdateData { pubkey: 1, fee: 5, is_active: true, decay_factor: 100 };
    assert_eq!(
        registry.update_validators(KEEPER, vec![entry], 9, 1),
        Err(Error::InvalidPAvg)
    );
    assert_eq!(
        registry.update_validators(KEEPER, vec![entry], 101, 1),
        Err(Error::InvalidPAvg)
    );
}

#[test]
fn test_non_increasing_era_rejected() {
    let mut registry = setup();
    let entry = ValidatorUpdateData { pubkey: 1, fee: 5, is_active: true, decay_factor: 100 };
    registry.update_validators(KEEPER, vec![entry], 85, 2).unwrap();
    assert_eq!(
        registry.update_validators(KEEPER, vec![entry], 85, 2),
        Err(Error::InvalidEra)
    );
    assert_eq!(
        registry.update_validators(KEEPER, vec![entry], 85, 1),
        Err(Error::InvalidEra)
    );
}

#[test]
fn test_owner_may_update_too() {
    let mut registry = setup();
    let entry = ValidatorUpdateData { pubkey: 1, fee: 0, is_active: true, decay_factor: 100 };
    registry.update_validators(OWNER, vec![entry], 80, 1).unwrap();
    assert_eq!(registry.get_validator(1).unwrap().p_score, 100);
}

#[test]
fn test_global_staleness() {
    let mut registry = setup();
    let entry = ValidatorUpdateData { pubkey: 1, fee: 5, is_active: true, decay_factor: 100 };
    registry.update_validators(KEEPER, vec![entry], 85, 1).unwrap();
    // Fresh for three eras after the batch, stale afterwards.
    assert!(registry.is_valid(1, 1));
    assert!(registry.is_valid(1, 4));
    assert!(!registry.is_valid(1, 5));
    assert!(!registry.is_valid(2, 1));
}

#[test]
fn test_later_batch_entry_wins() {
    let mut registry = setup();
    let validators = vec![
        ValidatorUpdateData { pubkey: 1, fee: 5, is_active: true, decay_factor: 100 },
        ValidatorUpdateData { pubkey: 1, fee: 50, is_active: true, decay_factor: 100 },
    ];
    let event = registry.update_validators(KEEPER, validators, 85, 1).unwrap();
    assert_eq!(event.count, 2);
    assert_eq!(registry.get_validator(1).unwrap().p_score, 50);
}

#[test]
fn registry_test_set_keeper() {
    let mut registry = setup();
    assert_eq!(registry.set_keeper(KEEPER, 5), Err(Error::Unauthorized));
    registry.set_keeper(OWNER, 5).unwrap();
    let entry = ValidatorUpdateData { pubkey: 1, fee: 5, is_active: true, decay_factor: 100 };
    registry.update_validators(5, vec![entry], 85, 1).unwrap();
}
