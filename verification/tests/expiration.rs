use subscription_vault::subscription::SubscriptionStatus;
use subscription_vault::types::Address;
use subscription_vault::vault::{TransferDirection, Vault, VaultEvent};

const T0: u64 = 1_000_000;
const INTERVAL: u64 = 60; // the minimum valid interval

struct TestEnv {
    vault: Vault,
    token: Address,
    admin: Address,
}

fn setup_test_env() -> TestEnv {
    let admin = Address::new(1);
    let token = Address::new(2);
    let min_topup = 1_000_000i128;
    let vault = Vault::init(token, 6, admin, min_topup, 7 * 24 * 60 * 60).unwrap();
    TestEnv { vault, token, admin }
}

#[test]
fn test_expiration_timing_and_charging() {
    let TestEnv { mut vault, token, .. } = setup_test_env();
    let subscriber = Address::new(10);
    let merchant = Address::new(11);

    let amount = 1_000_000i128;
    let expires_at = T0 + 2 * INTERVAL;

    let sub_id = vault
        .create_subscription_with_token(subscriber, merchant, token, amount, INTERVAL, false, None, Some(expires_at), T0)
        .unwrap();
    vault.deposit_funds(sub_id, subscriber, amount * 5, T0).unwrap();

    // Before expiry: charge succeeds
    vault.charge_subscription(sub_id, T0 + INTERVAL).unwrap();
    assert_eq!(vault.get_subscription(sub_id).unwrap().lifetime_charged, amount);

    // At expiry boundary (current_time >= expires_at): charge rejected
    assert!(vault.charge_subscription(sub_id, T0 + 2 * INTERVAL).is_err());

    // expires_at field is preserved on the subscription
    assert!(vault.get_subscription(sub_id).unwrap().expires_at.is_some());

    // After expiry: still rejected
    assert!(vault.charge_subscription(sub_id, T0 + 3 * INTERVAL).is_err());

    // Withdrawal is allowed after expiry and pays the subscriber
    let t = vault.withdraw_subscriber_funds(sub_id, subscriber, T0 + 3 * INTERVAL).unwrap();
    assert_eq!(t.account, subscriber);
    assert_eq!(t.direction, TransferDirection::OutOfVault);
    assert!(t.amount > 0);
}

#[test]
fn test_usage_charge_rejected_when_expired() {
    let TestEnv { mut vault, token, .. } = setup_test_env();
    let subscriber = Address::new(10);
    let merchant = Address::new(11);

    let amount = 1_000_000i128;
    let sub_id = vault
        .create_subscription_with_token(subscriber, merchant, token, amount, INTERVAL, true, None, Some(T0 + INTERVAL), T0)
        .unwrap();
    vault.deposit_funds(sub_id, subscriber, amount * 5, T0).unwrap();

    assert!(vault.charge_usage(sub_id, amount, T0 + 2 * INTERVAL).is_err());
}

#[test]
fn test_deposit_rejected_when_expired() {
    let TestEnv { mut vault, token, .. } = setup_test_env();
    let subscriber = Address::new(10);
    let merchant = Address::new(11);

    let amount = 1_000_000i128;
    let sub_id = vault
        .create_subscription_with_token(subscriber, merchant, token, amount, INTERVAL, false, None, Some(T0 + INTERVAL), T0)
        .unwrap();

    assert!(vault.deposit_funds(sub_id, subscriber, amount, T0 + 2 * INTERVAL).is_err());
}

#[test]
fn test_cancel_rejected_when_expired() {
    let TestEnv { mut vault, token, .. } = setup_test_env();
    let subscriber = Address::new(10);
    let merchant = Address::new(11);

    let amount = 1_000_000i128;
    let sub_id = vault
        .create_subscription_with_token(subscriber, merchant, token, amount, INTERVAL, false, None, Some(T0 + INTERVAL), T0)
        .unwrap();

    assert!(vault.cancel_subscription(sub_id, subscriber, T0 + 2 * INTERVAL).is_err());
}

#[test]
fn test_cleanup_and_archival() {
    let TestEnv { mut vault, token, .. } = setup_test_env();
    let subscriber = Address::new(10);
    let merchant = Address::new(11);

    let amount = 1_000_000i128;
    let sub_id = vault
        .create_subscription_with_token(subscriber, merchant, token, amount, INTERVAL, false, None, Some(T0 + 2 * INTERVAL), T0)
        .unwrap();
    vault.deposit_funds(sub_id, subscriber, amount * 5, T0).unwrap();

    // Cleanup before a terminal state must fail
    assert!(vault.cleanup_subscription(sub_id, subscriber, T0).is_err());

    // Past expiry, cleanup succeeds and archives
    let now = T0 + 2 * INTERVAL;
    vault.cleanup_subscription(sub_id, subscriber, now).unwrap();
    let archived = vault.get_subscription(sub_id).unwrap();
    assert_eq!(archived.status, SubscriptionStatus::Archived);

    // The archived subscription keeps its fields
    assert_eq!(archived.amount, amount);
    assert!(archived.expires_at.is_some());

    // The remaining escrow is still withdrawable
    if archived.prepaid_balance > 0 {
        let t = vault.withdraw_subscriber_funds(sub_id, subscriber, now).unwrap();
        assert_eq!(t.account, subscriber);
        assert!(t.amount > 0);
    }
}

#[test]
fn test_expiration_vs_cancellation() {
    let TestEnv { mut vault, token, .. } = setup_test_env();
    let subscriber = Address::new(10);
    let merchant = Address::new(11);

    // Cancel before expiry -> Cancelled -> Archived
    let sub_id1 = vault
        .create_subscription_with_token(subscriber, merchant, token, 1_000_000i128, INTERVAL, false, None, Some(T0 + 3 * INTERVAL), T0)
        .unwrap();
    vault.cancel_subscription(sub_id1, subscriber, T0).unwrap();
    assert_eq!(vault.get_subscription(sub_id1).unwrap().status, SubscriptionStatus::Cancelled);

    // Status stays Cancelled after the would-be expiry time passes
    let later = T0 + 4 * INTERVAL;
    assert_eq!(vault.get_subscription(sub_id1).unwrap().status, SubscriptionStatus::Cancelled);

    vault.cleanup_subscription(sub_id1, subscriber, later).unwrap();
    assert_eq!(vault.get_subscription(sub_id1).unwrap().status, SubscriptionStatus::Archived);

    // Expire without cancel -> cancel rejected -> cleanup -> Archived
    let sub_id2 = vault
        .create_subscription_with_token(subscriber, merchant, token, 1_000_000i128, INTERVAL, false, None, Some(T0 + 2 * INTERVAL), later)
        .unwrap();

    let after = T0 + 3 * INTERVAL;
    assert!(vault.cancel_subscription(sub_id2, subscriber, after).is_err());

    vault.cleanup_subscription(sub_id2, subscriber, after).unwrap();
    assert_eq!(vault.get_subscription(sub_id2).unwrap().status, SubscriptionStatus::Archived);
}

#[test]
fn test_no_expiry_runs_indefinitely() {
    let TestEnv { mut vault, token, .. } = setup_test_env();
    let subscriber = Address::new(10);
    let merchant = Address::new(11);

    let amount = 1_000_000i128;
    let sub_id = vault
        .create_subscription_with_token(subscriber, merchant, token, amount, INTERVAL, false, None, None, T0)
        .unwrap();
    vault.deposit_funds(sub_id, subscriber, amount * 10, T0).unwrap();

    vault.charge_subscription(sub_id, T0 + 1_000 * INTERVAL).unwrap();
    assert!(vault.get_subscription(sub_id).unwrap().lifetime_charged > 0);
}

#[test]
fn test_expiration_and_archival_events() {
    let TestEnv { mut vault, token, .. } = setup_test_env();
    let subscriber = Address::new(10);
    let merchant = Address::new(11);

    let amount = 1_000_000i128;
    let sub_id = vault
        .create_subscription_with_token(subscriber, merchant, token, amount, INTERVAL, false, None, Some(T0 + INTERVAL), T0)
        .unwrap();
    vault.deposit_funds(sub_id, subscriber, amount * 3, T0).unwrap();

    // A charge attempt past expiry detects it
    let _ = vault.charge_subscription(sub_id, T0 + 2 * INTERVAL);

    let expired_event = vault
        .events()
        .iter()
        .any(|e| matches!(e, VaultEvent::SubscriptionExpired { subscription_id, .. } if *subscription_id == sub_id));
    assert!(expired_event, "SubscriptionExpiredEvent not emitted");

    vault.cleanup_subscription(sub_id, subscriber, T0 + 2 * INTERVAL).unwrap();

    let archived_event = vault
        .events()
        .iter()
        .any(|e| matches!(e, VaultEvent::SubscriptionArchived { subscription_id, .. } if *subscription_id == sub_id));
    assert!(archived_event, "SubscriptionArchivedEvent not emitted");
}
