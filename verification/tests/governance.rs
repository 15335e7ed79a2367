use subscription_vault::merchant::MerchantRegistry;
use subscription_vault::types::{Address, Error, OP_REFUND, OP_WITHDRAW};

#[test]
fn test_merchant_config_initialization() {
    let mut registry = MerchantRegistry::new();
    let merchant_a = Address::new(1);
    let payout_address = Address::new(2);
    let redirect_url = String::from("https://stellabill.io/success");

    let config = registry
        .initialize(merchant_a, payout_address, 500, 0x1F, None, redirect_url.clone())
        .unwrap();

    assert_eq!(config.fee_bips, 500);
    assert_eq!(config.is_active, true);
    assert_eq!(config.redirect_url, redirect_url);
}

#[test]
fn test_merchant_config_governance_enforced() {
    let mut registry = MerchantRegistry::new();
    let merchant_a = Address::new(1);
    let payout_address = Address::new(2);
    let redirect_url = String::from("https://stellabill.io/success");

    registry.initialize(merchant_a, payout_address, 500, 0x1F, None, redirect_url).unwrap();

    let updated = registry
        .update(
            merchant_a,
            None,
            Some(1000),
            None,
            None,
            None,
            Some(String::from("https://new-url.com")),
            None,
        )
        .unwrap();

    assert_eq!(updated.fee_bips, 1000);
    assert_eq!(updated.redirect_url, String::from("https://new-url.com"));
}

#[test]
fn test_fee_bips_at_maximum_boundary() {
    let mut registry = MerchantRegistry::new();
    let merchant = Address::new(1);
    let payout = Address::new(2);

    let config = registry.initialize(merchant, payout, 10000, 0x1F, None, String::new()).unwrap();

    assert_eq!(config.fee_bips, 10000);
}

#[test]
fn test_fee_bips_exceeds_maximum() {
    let mut registry = MerchantRegistry::new();
    let merchant = Address::new(1);
    let payout = Address::new(2);

    let err = registry.initialize(merchant, payout, 10001, 0x1F, None, String::new()).unwrap_err();
    assert_eq!(err, Error::InvalidFeeBips);
    assert_eq!(err.code(), 1038);
}

#[test]
fn test_operations_without_charge_flag() {
    let mut registry = MerchantRegistry::new();
    let merchant = Address::new(1);
    let payout = Address::new(2);

    let err = registry
        .initialize(merchant, payout, 0, OP_WITHDRAW | OP_REFUND, None, String::new())
        .unwrap_err();
    assert_eq!(err, Error::MustAllowChargeOperation);
    assert_eq!(err.code(), 1041);
}

#[test]
fn test_operations_with_invalid_bit() {
    let mut registry = MerchantRegistry::new();
    let merchant = Address::new(1);
    let payout = Address::new(2);

    let err = registry.initialize(merchant, payout, 0, 0x80, None, String::new()).unwrap_err();
    assert_eq!(err, Error::InvalidOperations);
    assert_eq!(err.code(), 1040);
}

#[test]
fn test_get_merchant_config_not_found() {
    let registry = MerchantRegistry::new();
    let merchant = Address::new(1);

    let config = registry.get(merchant);
    assert!(config.is_none());
}

#[test]
fn test_update_nonexistent_config() {
    let mut registry = MerchantRegistry::new();
    let merchant = Address::new(1);

    let err = registry.update(merchant, None, Some(500), None, None, None, None, None).unwrap_err();
    assert_eq!(err, Error::ConfigNotFound);
    assert_eq!(err.code(), 1042);
}

#[test]
fn test_partial_update_preserves_other_fields() {
    let mut registry = MerchantRegistry::new();
    let merchant = Address::new(1);
    let payout = Address::new(2);

    let initial = registry
        .initialize(merchant, payout, 500, 0x0F, None, String::from("https://initial.com"))
        .unwrap();

    assert_eq!(initial.fee_bips, 500);
    assert_eq!(initial.allowed_operations, 0x0F);

    let updated = registry.update(merchant, None, Some(1000), None, None, None, None, None).unwrap();

    assert_eq!(updated.fee_bips, 1000);
    assert_eq!(updated.allowed_operations, 0x0F);
    assert_eq!(updated.redirect_url, String::from("https://initial.com"));
}

#[test]
fn test_set_and_get_merchant_config() {
    let mut registry = MerchantRegistry::new();
    let merchant = Address::new(1);
    let payout = Address::new(2);

    registry
        .initialize(merchant, payout, 250, 0x1F, None, String::from("https://example.com"))
        .unwrap();

    let retrieved = registry.get(merchant).unwrap();

    assert_eq!(retrieved.fee_bips, 250);
    assert_eq!(retrieved.is_active, true);
    assert_eq!(retrieved.allowed_operations, 0x1F);
}

#[test]
fn test_update_deactivate_merchant() {
    let mut registry = MerchantRegistry::new();
    let merchant = Address::new(1);
    let payout = Address::new(2);

    registry.initialize(merchant, payout, 500, 0x1F, None, String::new()).unwrap();

    let updated = registry.update(merchant, None, None, None, Some(false), None, None, None).unwrap();

    assert_eq!(updated.is_active, false);
}

#[test]
fn config_is_initialized_once() {
    let mut registry = MerchantRegistry::new();
    let merchant = Address::new(1);
    registry.initialize(merchant, Address::new(2), 0, 0x01, None, String::new()).unwrap();
    let err = registry.initialize(merchant, Address::new(3), 0, 0x01, None, String::new()).unwrap_err();
    assert_eq!(err, Error::ConfigAlreadyExists);
    assert_eq!(registry.get(merchant).unwrap().payout_address, Address::new(2));
}

#[test]
fn update_validates_the_resulting_config() {
    let mut registry = MerchantRegistry::new();
    let merchant = Address::new(1);
    registry.initialize(merchant, Address::new(2), 0, 0x1F, None, String::new()).unwrap();
    assert_eq!(
        registry.update(merchant, None, Some(10001), None, None, None, None, None).unwrap_err(),
        Error::InvalidFeeBips
    );
    assert_eq!(
        registry.update(merchant, None, None, Some(0x20), None, None, None, None).unwrap_err(),
        Error::InvalidOperations
    );
    assert_eq!(
        registry.update(merchant, None, None, Some(0x02), None, None, None, None).unwrap_err(),
        Error::MustAllowChargeOperation
    );
    assert_eq!(registry.get(merchant).unwrap().allowed_operations, 0x1F);
    let fee_to = Address::new(9);
    let updated = registry
        .update(merchant, Some(Address::new(8)), None, None, None, Some(fee_to), None, Some(true))
        .unwrap();
    assert_eq!(updated.payout_address, Address::new(8));
    assert_eq!(updated.fee_address, Some(fee_to));
    assert!(updated.paused);
    assert!(updated.is_active);
    assert_eq!(registry.get(merchant).unwrap(), updated);
}
