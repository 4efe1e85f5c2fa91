//! Keys, values, errors and environments.

use clips_nft::{
    Address, AdminChangedEvent, ApprovalEvent, ApprovalForAllEvent, BlacklistEvent, Bytes32,
    ClipsNftContract, DataKey, Effect, Env, Error, Event, SignerUpdatedEvent, TokenFrozenEvent,
    TokenUnfrozenEvent, UpgradeEvent, Value, ValueKind, WithdrawExecutedEvent, WithdrawRequest,
    WithdrawRequestedEvent, DEFAULT_MINT_COOLDOWN_SECONDS, PAUSE_DELAY_SECONDS, Tier, VERSION,
    WITHDRAWAL_DELAY_SECONDS,
};

fn someone() -> Address {
    Address::Account(Bytes32 { high: 1, low: 2 })
}

fn new_env() -> Env {
    Env::new(1000, Address::Contract(Bytes32 { high: 3, low: 4 }))
}

#[test]
fn constants() {
    assert_eq!(VERSION, 1);
    assert_eq!(DEFAULT_MINT_COOLDOWN_SECONDS, 0);
    assert_eq!(PAUSE_DELAY_SECONDS, 24 * 60 * 60);
    assert_eq!(WITHDRAWAL_DELAY_SECONDS, 48 * 60 * 60);
}

#[test]
fn error_codes() {
    let errors = [
        Error::Unauthorized,
        Error::InvalidTokenId,
        Error::ClipAlreadyMinted,
        Error::RoyaltyTooHigh,
        Error::InvalidRecipient,
        Error::InvalidSalePrice,
        Error::ContractPaused,
        Error::InvalidSignature,
        Error::SignerNotSet,
        Error::InvalidRoyaltySplit,
        Error::SoulboundTransferBlocked,
        Error::RoyaltyOverflow,
        Error::ClipBlacklisted,
        Error::NotAuthorizedToApprove,
        Error::WithdrawalStillLocked,
        Error::NoWithdrawalRequest,
        Error::BatchTooLarge,
        Error::TokenFrozen,
        Error::InsufficientBalance,
        Error::MetadataRefreshTooSoon,
        Error::InvalidImageUrl,
        Error::InvalidAnimationUrl,
        Error::MintCooldownActive,
        Error::Reentrancy,
    ];
    for (i, error) in errors.iter().enumerate() {
        assert_eq!(error.code(), i as u32 + 1);
    }
}

#[test]
fn instance_keys() {
    for key in [
        DataKey::Admin,
        DataKey::NextTokenId,
        DataKey::Paused,
        DataKey::PauseReason,
        DataKey::Name,
        DataKey::Symbol,
        DataKey::Signer,
        DataKey::PlatformRecipient,
        DataKey::WithdrawXlmRequest,
        DataKey::LastWithdrawalTime,
        DataKey::TotalSupply,
        DataKey::PauseUnlockTime,
        DataKey::MintCooldownSeconds,
        DataKey::ReentrancyLock,
    ] {
        assert_eq!(key.tier(), Tier::Instance);
    }
}

#[test]
fn persistent_keys() {
    for key in [
        DataKey::Token(1),
        DataKey::ClipIdMinted(1),
        DataKey::CustomTokenUri(1),
        DataKey::Approved(1),
        DataKey::MetadataUpdateCount(1),
        DataKey::ApprovalForAll(someone(), someone()),
        DataKey::BlacklistedClip(1),
        DataKey::Balance(someone()),
        DataKey::Frozen(1),
        DataKey::MetadataRefreshTime(1),
        DataKey::RoyaltyBalance(1),
        DataKey::LastMintTimestamp(someone()),
    ] {
        assert_eq!(key.tier(), Tier::Persistent);
    }
}

#[test]
fn kinds_of_keys_and_values() {
    assert_eq!(DataKey::Admin.kind(), Some(ValueKind::Address));
    assert_eq!(DataKey::Frozen(4).kind(), Some(ValueKind::Bool));
    assert_eq!(DataKey::NextTokenId.kind(), Some(ValueKind::U32));
    assert_eq!(DataKey::PauseUnlockTime.kind(), Some(ValueKind::U64));
    assert_eq!(DataKey::RoyaltyBalance(4).kind(), Some(ValueKind::I128));
    assert_eq!(DataKey::Signer.kind(), Some(ValueKind::Bytes));
    assert_eq!(DataKey::Name.kind(), Some(ValueKind::Text));
    assert_eq!(DataKey::WithdrawXlmRequest.kind(), Some(ValueKind::Withdrawal));
    assert_eq!(DataKey::Token(4).kind(), Some(ValueKind::Token));
    assert_eq!(DataKey::PauseReason.kind(), None);
    assert_eq!(Value::I128(-1).kind(), ValueKind::I128);
    assert_eq!(Value::Text(String::from("x")).kind(), ValueKind::Text);
}

#[test]
fn load_refuses_what_does_not_fit() {
    let mut env = new_env();
    assert!(!env.load(DataKey::Admin, Value::Bool(true)));
    assert!(!env.has(&DataKey::Admin));
    assert!(env.load(DataKey::Admin, Value::Address(someone())));
    assert!(env.has(&DataKey::Admin));
    assert!(env.load(DataKey::PauseReason, Value::Text(String::from("maintenance"))));
    assert!(env.load(DataKey::PauseReason, Value::U32(5)));
    assert_eq!(env.get(&DataKey::PauseReason), Some(&Value::U32(5)));
}

#[test]
fn load_refuses_entries_once_the_call_has_had_an_effect() {
    let mut env = new_env();
    ClipsNftContract::init(&mut env, someone());
    assert!(!env.load(DataKey::Frozen(1), Value::Bool(true)));
    assert!(!env.has(&DataKey::Frozen(1)));
    env.begin_call(2000);
    assert_eq!(env.timestamp(), 2000);
    assert!(env.effects().is_empty());
    assert!(env.has(&DataKey::Admin));
    assert!(env.load(DataKey::Frozen(1), Value::Bool(true)));
}

#[test]
fn a_new_environment_is_empty() {
    let env = new_env();
    assert_eq!(env.timestamp(), 1000);
    assert_eq!(env.current_contract_address(), Address::Contract(Bytes32 { high: 3, low: 4 }));
    assert!(env.effects().is_empty());
    assert_eq!(env.get(&DataKey::Admin), None);
}

#[test]
fn later_values_replace_earlier_ones() {
    let mut env = new_env();
    let request = |amount| Value::Withdrawal(WithdrawRequest { amount, unlock_time: 1 });
    assert!(env.load(DataKey::WithdrawXlmRequest, request(1)));
    assert!(env.load(DataKey::Signer, Value::Bytes(Bytes32 { high: 5, low: 6 })));
    assert!(env.load(DataKey::WithdrawXlmRequest, request(2)));
    assert_eq!(env.get(&DataKey::WithdrawXlmRequest), Some(&request(2)));
    assert!(env.has(&DataKey::Signer));
}

#[test]
fn values_are_cloned_whole() {
    let mut env = new_env();
    ClipsNftContract::init(&mut env, someone());
    match &env.effects()[5] {
        Effect::Put(key, value) => {
            assert_eq!(*key, DataKey::Name);
            assert_eq!(env.get(key), Some(value));
            assert_eq!(value.clone(), Value::Text(String::from("ClipCash Clips")));
        }
        _ => panic!("the name is written sixth"),
    }
}

#[test]
fn event_topics() {
    let a = someone();
    let b = Bytes32 { high: 0, low: 0 };
    let expected = [
        (Event::SignerUpdated(SignerUpdatedEvent { new_pubkey: b }), "sgn_upd"),
        (Event::AdminChanged(AdminChangedEvent { old_admin: a, new_admin: a }), "adm_chg"),
        (Event::Upgraded(UpgradeEvent { new_wasm_hash: b }), "upgrade"),
        (
            Event::WithdrawRequested(WithdrawRequestedEvent { amount: 1, unlock_time: 1 }),
            "with_req",
        ),
        (Event::WithdrawExecuted(WithdrawExecutedEvent { amount: 1, recipient: a }), "with_exe"),
        (Event::Blacklisted(BlacklistEvent { clip_id: 1 }), "blacklist"),
        (Event::Frozen(TokenFrozenEvent { token_id: 1 }), "freeze"),
        (Event::Unfrozen(TokenUnfrozenEvent { token_id: 1 }), "unfreeze"),
        (Event::Approval(ApprovalEvent { owner: a, operator: a, token_id: 1 }), "approval"),
        (
            Event::ApprovalForAll(ApprovalForAllEvent { owner: a, operator: a, approved: true }),
            "app_all",
        ),
    ];
    for (event, topic) in expected {
        assert_eq!(event.topic(), topic);
    }
}
