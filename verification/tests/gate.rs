//! End-to-end scenarios of the subscription state machine.
use subscription::authorization::transfer_hook;
use subscription::authorization::TransferHook;
use subscription::config::SUBSCRIPTION_DURATION;
use subscription::config::SUBSCRIPTION_FEE;
use subscription::errors::SubscriptionError;
use subscription::record::initialize_subscription;
use subscription::record::InitializeSubscription;
use subscription::record::SubscriptionAccount;
use subscription::renewal::pay_subscription;
use subscription::renewal::PaySubscription;

fn fresh_record(owner: [u8; 32]) -> SubscriptionAccount {
    initialize_subscription(&InitializeSubscription { owner }, false).unwrap()
}

#[test]
fn constants_are_fixed() {
    assert_eq!(SUBSCRIPTION_FEE, 10_000_000);
    assert_eq!(SUBSCRIPTION_DURATION, 2_592_000);
    assert_eq!(SUBSCRIPTION_DURATION, 30 * 24 * 60 * 60);
}

#[test]
fn initialize_sets_owner_and_zero_expiry() {
    let owner = [9u8; 32];
    let record = fresh_record(owner);
    assert_eq!(record.owner, owner);
    assert_eq!(record.expiry_timestamp, 0);
}

#[test]
fn reinitialize_fails_with_already_exists() {
    let owner = [9u8; 32];
    let second = initialize_subscription(&InitializeSubscription { owner }, true);
    assert_eq!(second.unwrap_err(), SubscriptionError::AlreadyExists);
}

#[test]
fn fresh_record_is_denied() {
    let owner = [1u8; 32];
    let hook = TransferHook {
        owner,
        subscription_account: fresh_record(owner),
    };
    assert_eq!(
        transfer_hook(&hook, 5, 0).unwrap_err(),
        SubscriptionError::SubscriptionExpired
    );
    assert_eq!(
        transfer_hook(&hook, 5, 1_000_000).unwrap_err(),
        SubscriptionError::SubscriptionExpired
    );
}

#[test]
fn denial_is_monotonic_in_time() {
    let owner = [2u8; 32];
    let hook = TransferHook {
        owner,
        subscription_account: SubscriptionAccount {
            owner,
            expiry_timestamp: 500,
        },
    };
    assert!(transfer_hook(&hook, 1, 499).is_ok());
    assert!(transfer_hook(&hook, 1, 500).is_err());
    assert!(transfer_hook(&hook, 1, 501).is_err());
    assert!(transfer_hook(&hook, 1, 1_000_000).is_err());
}

#[test]
fn transfer_at_exact_expiry_instant_is_denied() {
    let owner = [3u8; 32];
    let hook = TransferHook {
        owner,
        subscription_account: SubscriptionAccount {
            owner,
            expiry_timestamp: 1_000,
        },
    };
    assert!(transfer_hook(&hook, 1, 999).is_ok());
    assert!(transfer_hook(&hook, 1, 1_000).is_err());
}

#[test]
fn renewal_moves_fee_and_activates() {
    let owner = [4u8; 32];
    let mut ctx = PaySubscription {
        payer: owner,
        payer_lamports: 25_000_000,
        treasury_lamports: 3,
        subscription_account: fresh_record(owner),
    };
    assert!(pay_subscription(&mut ctx, 0).is_ok());
    assert_eq!(ctx.payer_lamports, 15_000_000);
    assert_eq!(ctx.treasury_lamports, 10_000_003);
    assert_eq!(ctx.subscription_account.expiry_timestamp, 2_592_000);
    assert_eq!(ctx.subscription_account.owner, owner);
}

#[test]
fn renewal_with_underfunded_payer_changes_nothing() {
    let owner = [5u8; 32];
    let mut ctx = PaySubscription {
        payer: owner,
        payer_lamports: SUBSCRIPTION_FEE - 1,
        treasury_lamports: 77,
        subscription_account: SubscriptionAccount {
            owner,
            expiry_timestamp: 123,
        },
    };
    assert_eq!(
        pay_subscription(&mut ctx, 1_000).unwrap_err(),
        SubscriptionError::InsufficientFunds
    );
    assert_eq!(ctx.payer_lamports, SUBSCRIPTION_FEE - 1);
    assert_eq!(ctx.treasury_lamports, 77);
    assert_eq!(ctx.subscription_account.expiry_timestamp, 123);
    assert_eq!(ctx.subscription_account.owner, owner);
}

#[test]
fn renewals_stack_while_active() {
    let owner = [6u8; 32];
    let mut ctx = PaySubscription {
        payer: owner,
        payer_lamports: 30_000_000,
        treasury_lamports: 0,
        subscription_account: SubscriptionAccount {
            owner,
            expiry_timestamp: 10_000,
        },
    };
    assert!(pay_subscription(&mut ctx, 9_999).is_ok());
    assert_eq!(
        ctx.subscription_account.expiry_timestamp,
        10_000 + SUBSCRIPTION_DURATION
    );
    assert!(pay_subscription(&mut ctx, 9_999).is_ok());
    assert_eq!(
        ctx.subscription_account.expiry_timestamp,
        10_000 + 2 * SUBSCRIPTION_DURATION
    );
}

#[test]
fn renewal_after_expiry_restarts_window() {
    let owner = [7u8; 32];
    let mut ctx = PaySubscription {
        payer: owner,
        payer_lamports: 10_000_000,
        treasury_lamports: 0,
        subscription_account: SubscriptionAccount {
            owner,
            expiry_timestamp: 2_592_000,
        },
    };
    assert!(pay_subscription(&mut ctx, 3_000_000).is_ok());
    assert_eq!(ctx.subscription_account.expiry_timestamp, 5_592_000);
}

#[test]
fn full_subscription_lifecycle() {
    let owner = [8u8; 32];
    let record = fresh_record(owner);
    let mut ctx = PaySubscription {
        payer: owner,
        payer_lamports: 40_000_000,
        treasury_lamports: 0,
        subscription_account: record,
    };
    assert!(pay_subscription(&mut ctx, 0).is_ok());
    assert_eq!(ctx.subscription_account.expiry_timestamp, 2_592_000);
    let hook = TransferHook {
        owner,
        subscription_account: SubscriptionAccount {
            owner,
            expiry_timestamp: ctx.subscription_account.expiry_timestamp,
        },
    };
    assert!(transfer_hook(&hook, 42, 1_000_000).is_ok());
    assert_eq!(
        transfer_hook(&hook, 42, 2_592_001).unwrap_err(),
        SubscriptionError::SubscriptionExpired
    );
    assert!(pay_subscription(&mut ctx, 3_000_000).is_ok());
    assert_eq!(ctx.subscription_account.expiry_timestamp, 5_592_000);
}
