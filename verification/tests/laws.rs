//! The laws of the contract, each on concrete values.

use clips_nft::{
    Address, Bytes32, ClipsNftContract, DataKey, Effect, Env, Error, Event, Operation, Query,
    Royalty, RoyaltyRecipient, TokenData, Value,
};

const NOW: u64 = 1_700_000_000;
const DAY: u64 = 86_400;

fn account(n: u128) -> Address {
    Address::Account(Bytes32 { high: n, low: 0 })
}

fn contract() -> Address {
    Address::Contract(Bytes32 { high: 1, low: 1 })
}

fn asset() -> Address {
    Address::Contract(Bytes32 { high: 2, low: 2 })
}

fn hash(n: u128) -> Bytes32 {
    Bytes32 { high: n, low: n }
}

fn token(owner: Address, clip_id: u32) -> TokenData {
    TokenData {
        owner,
        clip_id,
        is_soulbound: true,
        metadata_uri: String::from("ar://x"),
        image: None,
        animation_url: None,
        description: None,
        external_url: None,
        attributes: vec![],
        royalty: Royalty {
            recipients: vec![RoyaltyRecipient { recipient: account(30), basis_points: 100 }],
            asset_address: Some(asset()),
        },
    }
}

/// Admin 1; token 5 (of 20, for clip 42) and token 6 (of 21, for clip 43).
fn ledger() -> Env {
    let mut env = Env::new(NOW, contract());
    ClipsNftContract::init(&mut env, account(1));
    env.begin_call(NOW);
    assert!(env.load(DataKey::Token(5), Value::Token(token(account(20), 42))));
    assert!(env.load(DataKey::Token(6), Value::Token(token(account(21), 43))));
    assert!(env.load(DataKey::Approved(5), Value::Address(account(40))));
    assert!(env.load(DataKey::Approved(6), Value::Address(account(40))));
    assert!(env.load(DataKey::RoyaltyBalance(5), Value::I128(77)));
    assert!(env.load(DataKey::ClipIdMinted(42), Value::U32(5)));
    env
}

fn pays(effect: &Effect) -> bool {
    matches!(effect, Effect::Transfer { .. } | Effect::TransferNative { .. })
}

fn copy(value: Option<&Value>) -> Option<Value> {
    value.cloned()
}

#[test]
fn effects_replayed_on_the_loaded_entries_yield_the_entries() {
    let mut env = ledger();
    assert_eq!(ClipsNftContract::burn(&mut env, 5, true), Ok(()));
    let mut replayed = ledger();
    let keys = [
        DataKey::Admin,
        DataKey::Token(5),
        DataKey::Token(6),
        DataKey::Approved(5),
        DataKey::Approved(6),
        DataKey::RoyaltyBalance(5),
        DataKey::ClipIdMinted(42),
    ];
    let mut expected: Vec<(DataKey, Option<Value>)> =
        keys.iter().map(|key| (*key, copy(replayed.get(key)))).collect();
    for effect in env.effects() {
        for entry in expected.iter_mut() {
            match effect {
                Effect::Put(key, value) if *key == entry.0 => entry.1 = Some(value.clone()),
                Effect::Remove(key) if *key == entry.0 => entry.1 = None,
                _ => {}
            }
        }
    }
    for (key, value) in expected {
        assert_eq!(copy(env.get(&key)), value);
    }
    replayed.begin_call(NOW);
}

#[test]
fn the_declared_reads_are_enough() {
    let full = ledger();
    let op = Operation::Burn { token_id: 5, refund_royalty: true };
    let mut partial = Env::new(NOW, contract());
    let keys = op.reads();
    assert_eq!(keys, vec![DataKey::Token(5), DataKey::Frozen(5), DataKey::RoyaltyBalance(5)]);
    for key in keys {
        if let Some(value) = copy(full.get(&key)) {
            assert!(partial.load(key, value));
        }
    }
    let mut full = full;
    assert_eq!(
        ClipsNftContract::burn(&mut partial, 5, true),
        ClipsNftContract::burn(&mut full, 5, true)
    );
    assert_eq!(partial.effects(), full.effects());
}

#[test]
fn declared_reads_of_the_other_calls() {
    let admin = account(1);
    let plain = vec![DataKey::Admin];
    assert_eq!(Operation::Init { admin }.reads(), plain);
    assert_eq!(Operation::Pause { admin }.reads(), plain);
    assert_eq!(
        Operation::WithdrawAsset { admin, asset: asset(), amount: 1 }.reads(),
        vec![DataKey::Admin, DataKey::ReentrancyLock, DataKey::WithdrawXlmRequest]
    );
    assert_eq!(
        Operation::Freeze { admin, token_id: 9 }.reads(),
        vec![DataKey::Admin, DataKey::Token(9)]
    );
    assert_eq!(
        Operation::RevokeApproval { token_id: 9 }.reads(),
        vec![DataKey::Token(9), DataKey::Approved(9)]
    );
    assert_eq!(
        Operation::RevokeAllApprovals { caller: account(7), operator: account(8) }.reads(),
        vec![DataKey::ApprovalForAll(account(7), account(8))]
    );
    assert_eq!(
        Operation::Burn { token_id: 9, refund_royalty: false }.reads(),
        vec![DataKey::Token(9), DataKey::Frozen(9)]
    );
    assert_eq!(Query::GetSigner.reads(), vec![DataKey::Signer]);
    assert_eq!(Query::IsPaused.reads(), vec![DataKey::Paused, DataKey::PauseUnlockTime]);
    assert_eq!(Query::PauseActiveAt.reads(), vec![DataKey::PauseUnlockTime]);
    assert_eq!(Query::IsFrozen { token_id: 3 }.reads(), vec![DataKey::Frozen(3)]);
}

#[test]
fn only_the_admin_is_obeyed() {
    let other = account(2);
    let refused = Err(Error::Unauthorized);
    let mut env = ledger();
    assert_eq!(ClipsNftContract::set_signer(&mut env, other, hash(3)), refused);
    assert_eq!(ClipsNftContract::set_admin(&mut env, other, other), refused);
    assert_eq!(ClipsNftContract::upgrade(&mut env, other, hash(3)), refused);
    assert_eq!(ClipsNftContract::pause(&mut env, other), refused);
    assert_eq!(ClipsNftContract::unpause(&mut env, other), refused);
    assert_eq!(ClipsNftContract::request_withdraw_asset(&mut env, other, 5), refused);
    assert_eq!(ClipsNftContract::request_withdraw_asset(&mut env, other, 0), refused);
    assert_eq!(ClipsNftContract::withdraw_asset(&mut env, other, asset(), 5), refused);
    assert_eq!(ClipsNftContract::blacklist_clip(&mut env, other, 5), refused);
    assert_eq!(ClipsNftContract::freeze(&mut env, other, 5), refused);
    assert_eq!(ClipsNftContract::unfreeze(&mut env, other, 5), refused);
    assert!(env.effects().is_empty());
    // Before initialization there is no admin to obey.
    let mut empty = Env::new(NOW, contract());
    assert_eq!(ClipsNftContract::pause(&mut empty, account(1)), refused);
    // An account and a contract with the same bytes are two addresses.
    let twin = Address::Contract(Bytes32 { high: 1, low: 0 });
    assert_eq!(ClipsNftContract::pause(&mut env, twin), refused);
}

#[test]
fn authorization_comes_first() {
    let mut env = ledger();
    assert_eq!(ClipsNftContract::burn(&mut env, 6, true), Ok(()));
    assert_eq!(env.effects()[0], Effect::RequireAuth(account(21)));
    for effect in &env.effects()[1..] {
        assert!(!matches!(effect, Effect::RequireAuth(_)));
    }
}

#[test]
fn errors_change_nothing() {
    let mut env = ledger();
    assert_eq!(
        ClipsNftContract::withdraw_asset(&mut env, account(1), asset(), 5),
        Err(Error::NoWithdrawalRequest)
    );
    assert!(!env.has(&DataKey::ReentrancyLock));
    for effect in env.effects() {
        assert!(!pays(effect) && !matches!(effect, Effect::Publish(_)));
    }
}

#[test]
fn initialized_for_good() {
    let mut env = ledger();
    assert_eq!(ClipsNftContract::set_admin(&mut env, account(1), account(9)), Ok(()));
    assert_eq!(ClipsNftContract::burn(&mut env, 5, true), Ok(()));
    assert_eq!(ClipsNftContract::unpause(&mut env, account(9)), Ok(()));
    assert!(env.has(&DataKey::Admin));
}

#[test]
fn admin_rights_are_handed_over() {
    let mut env = ledger();
    assert_eq!(ClipsNftContract::set_admin(&mut env, account(1), account(9)), Ok(()));
    env.begin_call(NOW + 1);
    assert_eq!(ClipsNftContract::pause(&mut env, account(1)), Err(Error::Unauthorized));
    assert_eq!(ClipsNftContract::pause(&mut env, account(9)), Ok(()));
}

#[test]
fn the_last_signer_is_in_force() {
    let mut env = ledger();
    assert_eq!(ClipsNftContract::set_signer(&mut env, account(1), hash(3)), Ok(()));
    assert_eq!(ClipsNftContract::set_signer(&mut env, account(1), hash(4)), Ok(()));
    assert_eq!(ClipsNftContract::pause(&mut env, account(1)), Ok(()));
    assert_eq!(ClipsNftContract::get_signer(&env), Some(hash(4)));
}

#[test]
fn upgrade_preserves_storage() {
    let mut env = ledger();
    assert_eq!(ClipsNftContract::upgrade(&mut env, account(1), hash(3)), Ok(()));
    assert!(env.has(&DataKey::Token(5)));
    assert_eq!(env.get(&DataKey::RoyaltyBalance(5)), Some(&Value::I128(77)));
    for effect in env.effects() {
        assert!(!matches!(effect, Effect::Put(_, _) | Effect::Remove(_)));
    }
}

#[test]
fn blacklisted_for_good() {
    let mut env = ledger();
    assert_eq!(ClipsNftContract::blacklist_clip(&mut env, account(1), 42), Ok(()));
    assert_eq!(ClipsNftContract::burn(&mut env, 5, true), Ok(()));
    assert_eq!(env.get(&DataKey::BlacklistedClip(42)), Some(&Value::Bool(true)));
}

#[test]
fn pausing_again_restarts_the_day() {
    let mut env = ledger();
    assert_eq!(ClipsNftContract::pause(&mut env, account(1)), Ok(()));
    env.begin_call(NOW + DAY + 10);
    assert!(ClipsNftContract::is_paused(&env));
    assert_eq!(ClipsNftContract::pause(&mut env, account(1)), Ok(()));
    assert!(!ClipsNftContract::is_paused(&env));
    env.begin_call(NOW + 2 * DAY + 9);
    assert!(!ClipsNftContract::is_paused(&env));
    env.begin_call(NOW + 2 * DAY + 10);
    assert!(ClipsNftContract::is_paused(&env));
}

#[test]
fn withdrawal_waits_two_days_and_is_spent() {
    let mut env = ledger();
    assert_eq!(ClipsNftContract::request_withdraw_asset(&mut env, account(1), 500), Ok(()));
    env.begin_call(NOW + 2 * DAY - 1);
    assert_eq!(
        ClipsNftContract::withdraw_asset(&mut env, account(1), asset(), 500),
        Err(Error::WithdrawalStillLocked)
    );
    env.begin_call(NOW + 2 * DAY);
    assert_eq!(ClipsNftContract::withdraw_asset(&mut env, account(1), asset(), 500), Ok(()));
    env.begin_call(NOW + 3 * DAY);
    assert_eq!(
        ClipsNftContract::withdraw_asset(&mut env, account(1), asset(), 500),
        Err(Error::NoWithdrawalRequest)
    );
    assert_eq!(ClipsNftContract::burn(&mut env, 5, true), Ok(()));
    assert_eq!(ClipsNftContract::set_admin(&mut env, account(1), account(9)), Ok(()));
    // A refused request changes nothing.
    assert_eq!(
        ClipsNftContract::request_withdraw_asset(&mut env, account(1), 7),
        Err(Error::Unauthorized)
    );
    assert_eq!(
        ClipsNftContract::request_withdraw_asset(&mut env, account(9), 0),
        Err(Error::InvalidSalePrice)
    );
    env.begin_call(NOW + 9 * DAY);
    assert_eq!(
        ClipsNftContract::withdraw_asset(&mut env, account(9), asset(), 7),
        Err(Error::NoWithdrawalRequest)
    );
}

#[test]
fn a_new_request_starts_the_delay_anew() {
    let mut env = ledger();
    assert_eq!(ClipsNftContract::request_withdraw_asset(&mut env, account(1), 500), Ok(()));
    env.begin_call(NOW + DAY);
    assert_eq!(ClipsNftContract::request_withdraw_asset(&mut env, account(1), 600), Ok(()));
    env.begin_call(NOW + 2 * DAY);
    assert_eq!(
        ClipsNftContract::withdraw_asset(&mut env, account(1), asset(), 600),
        Err(Error::WithdrawalStillLocked)
    );
    env.begin_call(NOW + 3 * DAY);
    assert_eq!(
        ClipsNftContract::withdraw_asset(&mut env, account(1), asset(), 500),
        Err(Error::Unauthorized)
    );
    assert_eq!(ClipsNftContract::withdraw_asset(&mut env, account(1), asset(), 600), Ok(()));
}

#[test]
fn at_the_end_of_time_a_withdrawal_does_not_wait() {
    let mut env = ledger();
    env.begin_call(u64::MAX);
    assert_eq!(ClipsNftContract::request_withdraw_asset(&mut env, account(1), 500), Ok(()));
    assert_eq!(ClipsNftContract::withdraw_asset(&mut env, account(1), asset(), 500), Ok(()));
}

#[test]
fn a_request_is_cleared_before_it_is_paid() {
    let mut env = ledger();
    assert_eq!(ClipsNftContract::request_withdraw_asset(&mut env, account(1), 500), Ok(()));
    env.begin_call(NOW + 2 * DAY);
    assert_eq!(ClipsNftContract::withdraw_asset(&mut env, account(1), asset(), 500), Ok(()));
    let effects = env.effects();
    let lock = Effect::Put(DataKey::ReentrancyLock, Value::Bool(true));
    let locked = effects.iter().position(|e| *e == lock);
    let cleared = effects.iter().position(|e| *e == Effect::Remove(DataKey::WithdrawXlmRequest));
    let paid = effects.iter().position(pays);
    let unlocked = effects.iter().position(|e| *e == Effect::Remove(DataKey::ReentrancyLock));
    assert!(locked < cleared && cleared < paid && paid < unlocked);
}

#[test]
fn money_leaves_only_by_withdrawal_or_refund() {
    let mut env = ledger();
    assert_eq!(ClipsNftContract::burn(&mut env, 5, true), Ok(()));
    let transfers: Vec<&Effect> = env.effects().iter().filter(|e| pays(e)).collect();
    let refund =
        Effect::Transfer { asset: asset(), from: contract(), to: account(30), amount: 77 };
    assert_eq!(transfers, vec![&refund]);

    let mut native = token(account(20), 42);
    native.royalty.asset_address = None;
    let mut env = ledger();
    assert!(env.load(DataKey::Token(5), Value::Token(native)));
    assert_eq!(ClipsNftContract::burn(&mut env, 5, true), Ok(()));
    let transfers: Vec<&Effect> = env.effects().iter().filter(|e| pays(e)).collect();
    let refund = Effect::TransferNative { from: contract(), to: account(30), amount: 77 };
    assert_eq!(transfers, vec![&refund]);
}

#[test]
fn frozen_until_unfrozen() {
    let mut env = ledger();
    assert_eq!(ClipsNftContract::freeze(&mut env, account(1), 5), Ok(()));
    assert_eq!(ClipsNftContract::burn(&mut env, 6, true), Ok(()));
    assert_eq!(ClipsNftContract::freeze(&mut env, account(1), 5), Ok(()));
    assert_eq!(ClipsNftContract::unfreeze(&mut env, account(2), 5), Err(Error::Unauthorized));
    assert_eq!(ClipsNftContract::burn(&mut env, 5, false), Err(Error::TokenFrozen));
    assert_eq!(ClipsNftContract::unfreeze(&mut env, account(1), 5), Ok(()));
    assert!(!env.has(&DataKey::Frozen(5)));
    assert_eq!(ClipsNftContract::burn(&mut env, 5, false), Ok(()));
}

#[test]
fn burning_touches_one_token() {
    let mut env = ledger();
    assert_eq!(ClipsNftContract::burn(&mut env, 5, true), Ok(()));
    assert!(!env.has(&DataKey::Token(5)));
    assert!(!env.has(&DataKey::Approved(5)));
    assert!(!env.has(&DataKey::ClipIdMinted(42)));
    assert!(!env.has(&DataKey::RoyaltyBalance(5)));
    assert_eq!(env.get(&DataKey::Token(6)), Some(&Value::Token(token(account(21), 43))));
    assert_eq!(env.get(&DataKey::Approved(6)), Some(&Value::Address(account(40))));
}

#[test]
fn burned_tokens_are_gone() {
    let gone = Err(Error::InvalidTokenId);
    let mut env = ledger();
    assert_eq!(ClipsNftContract::burn(&mut env, 5, true), Ok(()));
    assert_eq!(ClipsNftContract::burn(&mut env, 5, true), gone);
    assert_eq!(ClipsNftContract::freeze(&mut env, account(1), 5), gone);
    assert_eq!(ClipsNftContract::unfreeze(&mut env, account(1), 5), gone);
    assert_eq!(ClipsNftContract::revoke_approval(&mut env, 5), gone);
}

#[test]
fn revoking_twice_is_revoking_once() {
    let mut env = ledger();
    assert_eq!(ClipsNftContract::revoke_approval(&mut env, 5), Ok(()));
    env.begin_call(NOW);
    assert_eq!(ClipsNftContract::revoke_approval(&mut env, 5), Ok(()));
    assert_eq!(*env.effects(), vec![Effect::RequireAuth(account(20))]);

    let mut env = ledger();
    let approval = DataKey::ApprovalForAll(account(20), account(40));
    assert!(env.load(approval, Value::Bool(true)));
    assert_eq!(ClipsNftContract::revoke_all_approvals(&mut env, account(20), account(40)), Ok(()));
    assert!(!env.has(&approval));
    env.begin_call(NOW);
    assert_eq!(ClipsNftContract::revoke_all_approvals(&mut env, account(20), account(40)), Ok(()));
    assert_eq!(*env.effects(), vec![Effect::RequireAuth(account(20))]);
}

#[test]
fn only_owners_revoke_their_operators() {
    let mut env = ledger();
    let approval = DataKey::ApprovalForAll(account(20), account(40));
    assert!(env.load(approval, Value::Bool(true)));
    assert_eq!(ClipsNftContract::revoke_all_approvals(&mut env, account(21), account(40)), Ok(()));
    assert_eq!(ClipsNftContract::revoke_all_approvals(&mut env, account(40), account(40)), Ok(()));
    assert_eq!(ClipsNftContract::revoke_all_approvals(&mut env, contract(), account(40)), Ok(()));
    assert_eq!(env.get(&approval), Some(&Value::Bool(true)));
    env.begin_call(NOW);
    assert_eq!(ClipsNftContract::revoke_all_approvals(&mut env, account(20), account(40)), Ok(()));
    assert_eq!(env.effects()[0], Effect::RequireAuth(account(20)));
    assert!(!env.has(&approval));
}

#[test]
fn a_held_lock_is_not_given_again() {
    let mut env = ledger();
    assert!(env.load(DataKey::ReentrancyLock, Value::Bool(true)));
    assert_eq!(ClipsNftContract::request_withdraw_asset(&mut env, account(1), 500), Ok(()));
    for time in [NOW + 2 * DAY, NOW + 3 * DAY] {
        env.begin_call(time);
        assert_eq!(
            ClipsNftContract::withdraw_asset(&mut env, account(1), asset(), 500),
            Err(Error::Reentrancy)
        );
        assert_eq!(ClipsNftContract::unpause(&mut env, account(1)), Ok(()));
        assert_eq!(env.get(&DataKey::ReentrancyLock), Some(&Value::Bool(true)));
    }
}

#[test]
fn burned_for_good() {
    let gone = Err(Error::InvalidTokenId);
    let mut env = ledger();
    assert_eq!(ClipsNftContract::burn(&mut env, 5, true), Ok(()));
    env.begin_call(NOW + DAY);
    assert_eq!(ClipsNftContract::set_admin(&mut env, account(1), account(9)), Ok(()));
    assert_eq!(ClipsNftContract::freeze(&mut env, account(9), 6), Ok(()));
    assert_eq!(ClipsNftContract::upgrade(&mut env, account(9), hash(3)), Ok(()));
    env.begin_call(NOW + 2 * DAY);
    assert_eq!(ClipsNftContract::burn(&mut env, 5, false), gone);
    assert_eq!(ClipsNftContract::freeze(&mut env, account(9), 5), gone);
    assert_eq!(ClipsNftContract::unfreeze(&mut env, account(9), 5), gone);
    assert_eq!(ClipsNftContract::revoke_approval(&mut env, 5), gone);
}

#[test]
fn a_refused_pause_pauses_at_no_time() {
    let mut env = ledger();
    assert_eq!(ClipsNftContract::pause(&mut env, account(2)), Err(Error::Unauthorized));
    env.begin_call(NOW + 9 * DAY);
    assert!(!ClipsNftContract::is_paused(&env));
}

#[test]
fn the_lock_is_free_between_calls() {
    let mut env = ledger();
    assert_eq!(ClipsNftContract::request_withdraw_asset(&mut env, account(1), 500), Ok(()));
    for time in [NOW, NOW + 2 * DAY, NOW + 2 * DAY] {
        env.begin_call(time);
        let _ = ClipsNftContract::withdraw_asset(&mut env, account(1), asset(), 500);
        assert!(!env.has(&DataKey::ReentrancyLock));
    }
}

#[test]
fn topics_tell_events_apart() {
    let mut env = ledger();
    assert_eq!(ClipsNftContract::pause(&mut env, account(1)), Ok(()));
    assert_eq!(ClipsNftContract::unpause(&mut env, account(1)), Ok(()));
    assert_eq!(ClipsNftContract::burn(&mut env, 5, true), Ok(()));
    let topics: Vec<&str> = env
        .effects()
        .iter()
        .filter_map(|e| match e {
            Effect::Publish(event) => Some(event.topic()),
            _ => None,
        })
        .collect();
    assert_eq!(topics, vec!["pause_sched", "unpaused", "refunded", "burn"]);
    assert_eq!(Event::Unpaused.topic(), "unpaused");
}
