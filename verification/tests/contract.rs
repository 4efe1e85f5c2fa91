//! Every call of the contract, on concrete ledgers.

use clips_nft::{
    Address, AdminChangedEvent, ApprovalEvent, ApprovalForAllEvent, Attribute, BlacklistEvent,
    BurnEvent, Bytes32, ClipsNftContract, DataKey, Effect, Env, Error, Event, PauseScheduledEvent,
    RefundedEvent, Royalty, RoyaltyRecipient, SignerUpdatedEvent, TokenData, TokenFrozenEvent,
    TokenUnfrozenEvent, UpgradeEvent, Value, WithdrawExecutedEvent, WithdrawRequest,
    WithdrawRequestedEvent,
};

const NOW: u64 = 1_700_000_000;

fn account(n: u128) -> Address {
    Address::Account(Bytes32 { high: 0, low: n })
}

fn contract() -> Address {
    Address::Contract(Bytes32 { high: 7, low: 7 })
}

fn admin() -> Address {
    account(1)
}

fn owner() -> Address {
    account(2)
}

fn creator() -> Address {
    account(3)
}

fn stranger() -> Address {
    account(4)
}

fn asset() -> Address {
    Address::Contract(Bytes32 { high: 8, low: 8 })
}

fn pubkey(n: u128) -> Bytes32 {
    Bytes32 { high: n, low: n + 1 }
}

fn token(asset_address: Option<Address>, recipients: Vec<Address>) -> TokenData {
    TokenData {
        owner: owner(),
        clip_id: 42,
        is_soulbound: false,
        metadata_uri: String::from("ipfs://clip"),
        image: Some(String::from("https://img")),
        animation_url: None,
        description: Some(String::from("a clip")),
        external_url: None,
        attributes: vec![Attribute {
            trait_type: String::from("Quality"),
            value: String::from("Gold"),
        }],
        royalty: Royalty {
            recipients: recipients
                .into_iter()
                .map(|recipient| RoyaltyRecipient { recipient, basis_points: 500 })
                .collect(),
            asset_address,
        },
    }
}

/// An initialized contract, at the beginning of a call.
fn initialized() -> Env {
    let mut env = Env::new(NOW, contract());
    ClipsNftContract::init(&mut env, admin());
    env.begin_call(NOW);
    env
}

/// An initialized contract with the given further entries.
fn with_entries(entries: Vec<(DataKey, Value)>) -> Env {
    let mut env = initialized();
    for (key, value) in entries {
        assert!(env.load(key, value));
    }
    env
}

fn with_token(asset_address: Option<Address>, recipients: Vec<Address>) -> Env {
    with_entries(vec![(DataKey::Token(5), Value::Token(token(asset_address, recipients)))])
}

#[test]
fn init_writes_the_first_entries() {
    let mut env = Env::new(NOW, contract());
    ClipsNftContract::init(&mut env, admin());
    assert_eq!(
        *env.effects(),
        vec![
            Effect::RequireAuth(admin()),
            Effect::Put(DataKey::Admin, Value::Address(admin())),
            Effect::Put(DataKey::NextTokenId, Value::U32(1)),
            Effect::Put(DataKey::Paused, Value::Bool(false)),
            Effect::Put(DataKey::PlatformRecipient, Value::Address(admin())),
            Effect::Put(DataKey::Name, Value::Text(String::from("ClipCash Clips"))),
            Effect::Put(DataKey::Symbol, Value::Text(String::from("CLIP"))),
            Effect::Put(DataKey::MintCooldownSeconds, Value::U64(0)),
        ]
    );
    assert_eq!(env.get(&DataKey::Admin), Some(&Value::Address(admin())));
    assert_eq!(env.get(&DataKey::NextTokenId), Some(&Value::U32(1)));
    assert_eq!(env.get(&DataKey::Name), Some(&Value::Text(String::from("ClipCash Clips"))));
    assert_eq!(ClipsNftContract::get_signer(&env), None);
    assert!(!ClipsNftContract::is_paused(&env));
    assert_eq!(ClipsNftContract::pause_active_at(&env), None);
}

#[test]
fn set_signer_registers_and_announces() {
    let mut env = initialized();
    assert_eq!(ClipsNftContract::set_signer(&mut env, admin(), pubkey(9)), Ok(()));
    assert_eq!(ClipsNftContract::get_signer(&env), Some(pubkey(9)));
    assert_eq!(
        *env.effects(),
        vec![
            Effect::RequireAuth(admin()),
            Effect::Put(DataKey::Signer, Value::Bytes(pubkey(9))),
            Effect::Publish(Event::SignerUpdated(SignerUpdatedEvent { new_pubkey: pubkey(9) })),
        ]
    );
}

#[test]
fn set_admin_hands_over_and_announces() {
    let mut env = initialized();
    assert_eq!(ClipsNftContract::set_admin(&mut env, admin(), account(11)), Ok(()));
    assert_eq!(
        *env.effects(),
        vec![
            Effect::RequireAuth(admin()),
            Effect::Put(DataKey::Admin, Value::Address(account(11))),
            Effect::Publish(Event::AdminChanged(AdminChangedEvent {
                old_admin: admin(),
                new_admin: account(11),
            })),
        ]
    );
}

#[test]
fn upgrade_replaces_the_code() {
    let mut env = initialized();
    assert_eq!(ClipsNftContract::upgrade(&mut env, admin(), pubkey(77)), Ok(()));
    assert_eq!(
        *env.effects(),
        vec![
            Effect::RequireAuth(admin()),
            Effect::UpdateWasm(pubkey(77)),
            Effect::Publish(Event::Upgraded(UpgradeEvent { new_wasm_hash: pubkey(77) })),
        ]
    );
}

#[test]
fn pause_is_scheduled_a_day_ahead() {
    let mut env = initialized();
    assert_eq!(ClipsNftContract::pause(&mut env, admin()), Ok(()));
    assert_eq!(
        *env.effects(),
        vec![
            Effect::RequireAuth(admin()),
            Effect::Put(DataKey::PauseUnlockTime, Value::U64(1_700_086_400)),
            Effect::Put(DataKey::Paused, Value::Bool(true)),
            Effect::Publish(Event::PauseScheduled(PauseScheduledEvent {
                active_at: 1_700_086_400,
            })),
        ]
    );
    assert_eq!(ClipsNftContract::pause_active_at(&env), Some(1_700_086_400));
    assert!(!ClipsNftContract::is_paused(&env));
    env.begin_call(1_700_086_399);
    assert!(!ClipsNftContract::is_paused(&env));
    env.begin_call(1_700_086_400);
    assert!(ClipsNftContract::is_paused(&env));
}

#[test]
fn pause_at_the_end_of_time_saturates() {
    let mut env = initialized();
    env.begin_call(u64::MAX - 5);
    assert_eq!(ClipsNftContract::pause(&mut env, admin()), Ok(()));
    assert_eq!(ClipsNftContract::pause_active_at(&env), Some(u64::MAX));
}

#[test]
fn a_pause_without_timelock_is_active() {
    let mut env = Env::new(NOW, contract());
    assert!(env.load(DataKey::Paused, Value::Bool(true)));
    assert!(ClipsNftContract::is_paused(&env));
    let empty = Env::new(NOW, contract());
    assert!(!ClipsNftContract::is_paused(&empty));
}

#[test]
fn unpause_cancels() {
    let mut env = initialized();
    assert_eq!(ClipsNftContract::pause(&mut env, admin()), Ok(()));
    env.begin_call(NOW + 100_000);
    assert!(ClipsNftContract::is_paused(&env));
    assert_eq!(ClipsNftContract::unpause(&mut env, admin()), Ok(()));
    assert!(!ClipsNftContract::is_paused(&env));
    assert_eq!(ClipsNftContract::pause_active_at(&env), None);
    assert_eq!(
        *env.effects(),
        vec![
            Effect::RequireAuth(admin()),
            Effect::Put(DataKey::Paused, Value::Bool(false)),
            Effect::Remove(DataKey::PauseUnlockTime),
            Effect::Publish(Event::Unpaused),
        ]
    );
}

#[test]
fn withdrawal_request_is_stored_with_its_unlock_time() {
    let mut env = initialized();
    assert_eq!(ClipsNftContract::request_withdraw_asset(&mut env, admin(), 250), Ok(()));
    let request = WithdrawRequest { amount: 250, unlock_time: 1_700_172_800 };
    assert_eq!(
        *env.effects(),
        vec![
            Effect::RequireAuth(admin()),
            Effect::Put(DataKey::WithdrawXlmRequest, Value::Withdrawal(request)),
            Effect::Publish(Event::WithdrawRequested(WithdrawRequestedEvent {
                amount: 250,
                unlock_time: 1_700_172_800,
            })),
        ]
    );
}

#[test]
fn withdrawal_request_must_be_positive() {
    for amount in [0, -1, i128::MIN] {
        let mut env = initialized();
        assert_eq!(
            ClipsNftContract::request_withdraw_asset(&mut env, admin(), amount),
            Err(Error::InvalidSalePrice)
        );
        assert_eq!(*env.effects(), vec![Effect::RequireAuth(admin())]);
        assert!(!env.has(&DataKey::WithdrawXlmRequest));
    }
}

#[test]
fn withdrawal_pays_the_admin() {
    let request = WithdrawRequest { amount: 250, unlock_time: NOW };
    let mut env = with_entries(vec![(DataKey::WithdrawXlmRequest, Value::Withdrawal(request))]);
    assert_eq!(ClipsNftContract::withdraw_asset(&mut env, admin(), asset(), 250), Ok(()));
    assert_eq!(
        *env.effects(),
        vec![
            Effect::RequireAuth(admin()),
            Effect::Put(DataKey::ReentrancyLock, Value::Bool(true)),
            Effect::Remove(DataKey::WithdrawXlmRequest),
            Effect::Transfer { asset: asset(), from: contract(), to: admin(), amount: 250 },
            Effect::Put(DataKey::LastWithdrawalTime, Value::U64(NOW)),
            Effect::Publish(Event::WithdrawExecuted(WithdrawExecutedEvent {
                amount: 250,
                recipient: admin(),
            })),
            Effect::Remove(DataKey::ReentrancyLock),
        ]
    );
    assert!(!env.has(&DataKey::ReentrancyLock));
    assert!(!env.has(&DataKey::WithdrawXlmRequest));
    assert_eq!(env.get(&DataKey::LastWithdrawalTime), Some(&Value::U64(NOW)));
}

#[test]
fn withdrawal_errors() {
    let request = WithdrawRequest { amount: 250, unlock_time: NOW + 1 };
    let entry = || (DataKey::WithdrawXlmRequest, Value::Withdrawal(request));
    let failed = vec![
        Effect::RequireAuth(admin()),
        Effect::Put(DataKey::ReentrancyLock, Value::Bool(true)),
        Effect::Remove(DataKey::ReentrancyLock),
    ];

    let mut env = initialized();
    assert_eq!(
        ClipsNftContract::withdraw_asset(&mut env, admin(), asset(), 250),
        Err(Error::NoWithdrawalRequest)
    );
    assert_eq!(*env.effects(), failed);

    let mut env = with_entries(vec![entry()]);
    assert_eq!(
        ClipsNftContract::withdraw_asset(&mut env, admin(), asset(), 251),
        Err(Error::Unauthorized)
    );
    assert_eq!(*env.effects(), failed);

    let mut env = with_entries(vec![entry()]);
    assert_eq!(
        ClipsNftContract::withdraw_asset(&mut env, admin(), asset(), 250),
        Err(Error::WithdrawalStillLocked)
    );
    assert_eq!(*env.effects(), failed);
    assert!(env.has(&DataKey::WithdrawXlmRequest));

    let mut env = with_entries(vec![entry(), (DataKey::ReentrancyLock, Value::Bool(true))]);
    assert_eq!(
        ClipsNftContract::withdraw_asset(&mut env, admin(), asset(), 250),
        Err(Error::Reentrancy)
    );
    assert_eq!(*env.effects(), vec![Effect::RequireAuth(admin())]);
    assert!(env.has(&DataKey::ReentrancyLock));
}

#[test]
fn blacklisting_sets_the_flag() {
    let mut env = initialized();
    assert_eq!(ClipsNftContract::blacklist_clip(&mut env, admin(), 13), Ok(()));
    assert_eq!(env.get(&DataKey::BlacklistedClip(13)), Some(&Value::Bool(true)));
    assert_eq!(env.get(&DataKey::BlacklistedClip(14)), None);
    assert_eq!(
        env.effects()[2],
        Effect::Publish(Event::Blacklisted(BlacklistEvent { clip_id: 13 }))
    );
}

#[test]
fn freeze_and_unfreeze() {
    let mut env = with_token(None, vec![]);
    assert!(!ClipsNftContract::is_frozen(&env, 5));
    assert_eq!(ClipsNftContract::freeze(&mut env, admin(), 5), Ok(()));
    assert!(ClipsNftContract::is_frozen(&env, 5));
    assert_eq!(
        *env.effects(),
        vec![
            Effect::RequireAuth(admin()),
            Effect::Put(DataKey::Frozen(5), Value::Bool(true)),
            Effect::Publish(Event::Frozen(TokenFrozenEvent { token_id: 5 })),
        ]
    );
    env.begin_call(NOW);
    assert_eq!(ClipsNftContract::unfreeze(&mut env, admin(), 5), Ok(()));
    assert!(!ClipsNftContract::is_frozen(&env, 5));
    assert_eq!(
        *env.effects(),
        vec![
            Effect::RequireAuth(admin()),
            Effect::Remove(DataKey::Frozen(5)),
            Effect::Publish(Event::Unfrozen(TokenUnfrozenEvent { token_id: 5 })),
        ]
    );
}

#[test]
fn only_existing_tokens_are_frozen() {
    let mut env = initialized();
    assert_eq!(ClipsNftContract::freeze(&mut env, admin(), 5), Err(Error::InvalidTokenId));
    assert_eq!(*env.effects(), vec![Effect::RequireAuth(admin())]);
    assert_eq!(ClipsNftContract::unfreeze(&mut env, admin(), 5), Err(Error::InvalidTokenId));
    assert!(!ClipsNftContract::is_frozen(&env, 5));
}

#[test]
fn a_freeze_flag_that_is_off_does_not_freeze() {
    let mut env = with_token(None, vec![]);
    assert!(env.load(DataKey::Frozen(5), Value::Bool(false)));
    assert!(!ClipsNftContract::is_frozen(&env, 5));
    assert_eq!(ClipsNftContract::burn(&mut env, 5, false), Ok(()));
}

#[test]
fn revoke_approval_removes_and_announces() {
    let mut env = with_token(None, vec![]);
    assert!(env.load(DataKey::Approved(5), Value::Address(stranger())));
    assert_eq!(ClipsNftContract::revoke_approval(&mut env, 5), Ok(()));
    assert_eq!(
        *env.effects(),
        vec![
            Effect::RequireAuth(owner()),
            Effect::Remove(DataKey::Approved(5)),
            Effect::Publish(Event::Approval(ApprovalEvent {
                owner: owner(),
                operator: contract(),
                token_id: 5,
            })),
        ]
    );
    assert!(!env.has(&DataKey::Approved(5)));
}

#[test]
fn revoke_approval_of_a_missing_token() {
    let mut env = initialized();
    assert_eq!(ClipsNftContract::revoke_approval(&mut env, 5), Err(Error::InvalidTokenId));
    assert!(env.effects().is_empty());
}

#[test]
fn revoke_all_approvals_removes_and_announces() {
    let key = DataKey::ApprovalForAll(owner(), stranger());
    let other = DataKey::ApprovalForAll(creator(), stranger());
    let mut env = with_entries(vec![(key, Value::Bool(true)), (other, Value::Bool(true))]);
    assert_eq!(ClipsNftContract::revoke_all_approvals(&mut env, owner(), stranger()), Ok(()));
    assert_eq!(
        *env.effects(),
        vec![
            Effect::RequireAuth(owner()),
            Effect::Remove(key),
            Effect::Publish(Event::ApprovalForAll(ApprovalForAllEvent {
                owner: owner(),
                operator: stranger(),
                approved: false,
            })),
        ]
    );
    assert!(!env.has(&key));
    assert_eq!(env.get(&other), Some(&Value::Bool(true)));
}

#[test]
fn revoke_all_approvals_without_an_approval() {
    let mut env = initialized();
    assert_eq!(ClipsNftContract::revoke_all_approvals(&mut env, owner(), stranger()), Ok(()));
    assert_eq!(*env.effects(), vec![Effect::RequireAuth(owner())]);
}

fn clearing() -> Vec<Effect> {
    vec![
        Effect::Remove(DataKey::Token(5)),
        Effect::Remove(DataKey::ClipIdMinted(42)),
        Effect::Remove(DataKey::Approved(5)),
        Effect::Remove(DataKey::CustomTokenUri(5)),
        Effect::Remove(DataKey::MetadataUpdateCount(5)),
        Effect::Remove(DataKey::MetadataRefreshTime(5)),
        Effect::Publish(Event::Burned(BurnEvent { owner: owner(), token_id: 5, clip_id: 42 })),
    ]
}

fn refunded() -> Effect {
    Effect::Publish(Event::Refunded(RefundedEvent {
        token_id: 5,
        recipient: creator(),
        amount: 900,
    }))
}

#[test]
fn burn_without_refund() {
    let mut env = with_token(Some(asset()), vec![creator(), stranger()]);
    assert!(env.load(DataKey::RoyaltyBalance(5), Value::I128(900)));
    assert_eq!(ClipsNftContract::burn(&mut env, 5, false), Ok(()));
    let mut expected = vec![Effect::RequireAuth(owner())];
    expected.extend(clearing());
    assert_eq!(*env.effects(), expected);
    assert_eq!(env.get(&DataKey::RoyaltyBalance(5)), Some(&Value::I128(900)));
}

#[test]
fn burn_with_refund_in_a_token_asset() {
    let mut env = with_token(Some(asset()), vec![creator(), stranger()]);
    assert!(env.load(DataKey::RoyaltyBalance(5), Value::I128(900)));
    assert_eq!(ClipsNftContract::burn(&mut env, 5, true), Ok(()));
    let mut expected = vec![
        Effect::RequireAuth(owner()),
        Effect::Transfer { asset: asset(), from: contract(), to: creator(), amount: 900 },
        refunded(),
        Effect::Remove(DataKey::RoyaltyBalance(5)),
    ];
    expected.extend(clearing());
    assert_eq!(*env.effects(), expected);
}

#[test]
fn burn_with_refund_in_the_native_asset() {
    let mut env = with_token(None, vec![creator()]);
    assert!(env.load(DataKey::RoyaltyBalance(5), Value::I128(900)));
    assert_eq!(ClipsNftContract::burn(&mut env, 5, true), Ok(()));
    let mut expected = vec![
        Effect::RequireAuth(owner()),
        Effect::TransferNative { from: contract(), to: creator(), amount: 900 },
        refunded(),
        Effect::Remove(DataKey::RoyaltyBalance(5)),
    ];
    expected.extend(clearing());
    assert_eq!(*env.effects(), expected);
    assert!(!env.has(&DataKey::RoyaltyBalance(5)));
}

#[test]
fn burn_with_nothing_to_refund() {
    let cleared = || {
        let mut effects =
            vec![Effect::RequireAuth(owner()), Effect::Remove(DataKey::RoyaltyBalance(5))];
        effects.extend(clearing());
        effects
    };
    // A balance that is not positive is cleared without a payment.
    for balance in [0, -3] {
        let mut env = with_token(Some(asset()), vec![creator()]);
        assert!(env.load(DataKey::RoyaltyBalance(5), Value::I128(balance)));
        assert_eq!(ClipsNftContract::burn(&mut env, 5, true), Ok(()));
        assert_eq!(*env.effects(), cleared());
    }
    // So is one that nobody is to receive.
    let mut env = with_token(Some(asset()), vec![]);
    assert!(env.load(DataKey::RoyaltyBalance(5), Value::I128(900)));
    assert_eq!(ClipsNftContract::burn(&mut env, 5, true), Ok(()));
    assert_eq!(*env.effects(), cleared());
    // Without a balance there is nothing to clear.
    let mut env = with_token(Some(asset()), vec![creator()]);
    assert_eq!(ClipsNftContract::burn(&mut env, 5, true), Ok(()));
    let mut expected = vec![Effect::RequireAuth(owner())];
    expected.extend(clearing());
    assert_eq!(*env.effects(), expected);
}

#[test]
fn burn_errors() {
    let mut env = initialized();
    assert_eq!(ClipsNftContract::burn(&mut env, 5, true), Err(Error::InvalidTokenId));
    assert!(env.effects().is_empty());

    let mut env = with_token(None, vec![]);
    assert!(env.load(DataKey::Frozen(5), Value::Bool(true)));
    assert_eq!(ClipsNftContract::burn(&mut env, 5, true), Err(Error::TokenFrozen));
    assert_eq!(*env.effects(), vec![Effect::RequireAuth(owner())]);
    assert!(env.has(&DataKey::Token(5)));
}
