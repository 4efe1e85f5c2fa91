//! What holds of the contract as a whole.
//!
//! The laws speak of [`Operation`]s: `result` is what a call answers, `effects` what it does,
//! and `leaves` the environment after it, as the contracts of the calls state them.
//!
//! The submodules state what the words used here mean on plain values (`readings`), what each call
//! does, read off the ledger entries (`calls`), and where each kind of effect comes from
//! (`kinds`).

pub mod calls;
pub mod kinds;
pub mod readings;

use crate::contract::{PAUSE_DELAY_SECONDS, WITHDRAWAL_DELAY_SECONDS};
use crate::env::{group_after, replay, EffectView, Env, EnvView};
use crate::error::Error;
use crate::event::Event;
use crate::key::DataKey;
use crate::operation::{
    answer, burn_erases, demand, is_admin, lock_result, locked, pay, paused, run, runs, unlocked,
    Operation, Query,
};
use crate::store::well_typed;
use crate::types::{Address, Bytes32, TokenId};
use crate::value::ValueView;
use vstd::prelude::*;

verus! {

broadcast use group_after;

// ---------------------------------------------------------------------------
// Environments and effects
// ---------------------------------------------------------------------------

/// Performing the effects of a call, in order, on the entries that were loaded for it yields the
/// entries that the call leaves.
pub proof fn law_effects_yield_the_entries(env: &Env)
    requires
        env.wf(),
    ensures
        replay(env@.loaded, env@.effects) == env@.entries,
{
    env.lemma_wf();
}

/// A call depends on no entries but those under the keys that it declares to read: it answers
/// the same and does the same in two environments that agree on them. So it is enough to load
/// those: the effects, performed on the whole ledger, leave it as the call on the whole ledger.
pub proof fn law_reads_decide(op: Operation, a: EnvView, b: EnvView)
    requires
        a.timestamp == b.timestamp,
        a.contract == b.contract,
        forall|i: int|
            0 <= i < op.spec_reads().len() ==> a.get(#[trigger] op.spec_reads()[i]) == b.get(
                op.spec_reads()[i],
            ),
    ensures
        op.result(a) == op.result(b),
        op.effects(a) == op.effects(b),
        op.leaves(a).entries == replay(a.entries, op.effects(b)),
{
    let keys = op.spec_reads();
    assert(a.get(keys[0]) == b.get(keys[0]));
    assert(keys.len() >= 2 ==> a.get(keys[1]) == b.get(keys[1]));
    assert(keys.len() >= 3 ==> a.get(keys[2]) == b.get(keys[2]));
}

/// A query depends on no entries but those under the keys that it declares to read.
pub proof fn law_query_reads_decide(query: Query, a: EnvView, b: EnvView)
    requires
        a.timestamp == b.timestamp,
        forall|i: int|
            0 <= i < query.spec_reads().len() ==> a.get(#[trigger] query.spec_reads()[i])
                == b.get(query.spec_reads()[i]),
    ensures
        match query {
            Query::GetSigner => a.bytes(DataKey::Signer) == b.bytes(DataKey::Signer),
            Query::IsPaused => paused(a) == paused(b),
            Query::PauseActiveAt => a.time(DataKey::PauseUnlockTime) == b.time(
                DataKey::PauseUnlockTime,
            ),
            Query::IsFrozen { token_id } => a.flag(DataKey::Frozen(token_id)) == b.flag(
                DataKey::Frozen(token_id),
            ),
        },
{
    let keys = query.spec_reads();
    assert(a.get(keys[0]) == b.get(keys[0]));
    assert(keys.len() >= 2 ==> a.get(keys[1]) == b.get(keys[1]));
}

/// What initialization does to the entry under a key.
proof fn lemma_init_touches(env: EnvView, admin: Address, key: DataKey)
    ensures
        ({
            let op = Operation::Init { admin };
            &&& !op.touches(env, key) ==> op.leaves(env).get(key) == env.get(key)
            &&& op.touches(env, key) ==> (op.leaves(env).get(key) matches Some(value)
                && key.admits(value))
        }),
{
}

/// What a withdrawal does to the entry under a key.
proof fn lemma_withdrawal_touches(
    env: EnvView,
    admin: Address,
    asset: Address,
    amount: i128,
    key: DataKey,
)
    ensures
        ({
            let op = Operation::WithdrawAsset { admin, asset, amount };
            &&& !op.touches(env, key) ==> op.leaves(env).get(key) == env.get(key)
            &&& op.leaves(env).get(key) == env.get(key) || (op.leaves(env).get(key) matches Some(
                value,
            ) ==> key.admits(value))
        }),
{
    let op = Operation::WithdrawAsset { admin, asset, amount };
    if op.result(env) is Err {
        law_errors_change_nothing(op, env, 0);
    }
}

/// What burning does to the entry under a key.
proof fn lemma_burning_touches(
    env: EnvView,
    token_id: TokenId,
    refund_royalty: bool,
    key: DataKey,
)
    ensures
        ({
            let op = Operation::Burn { token_id, refund_royalty };
            &&& !op.touches(env, key) ==> op.leaves(env).get(key) == env.get(key)
            &&& op.touches(env, key) ==> op.leaves(env).get(key) is None
        }),
{
    let op = Operation::Burn { token_id, refund_royalty };
    if op.result(env) is Err {
        law_errors_change_nothing(op, env, 0);
    } else {
        law_burning_touches_one_token(env, token_id, refund_royalty, key);
    }
}

/// A call changes only the entries that it is about. Where it puts a value, the value is of the
/// key's type.
#[verifier::rlimit(40)]
pub proof fn law_calls_touch_only_their_entries(op: Operation, env: EnvView, key: DataKey)
    ensures
        !op.touches(env, key) ==> op.leaves(env).get(key) == env.get(key),
        op.leaves(env).get(key) == env.get(key) || (op.leaves(env).get(key) matches Some(value)
            ==> key.admits(value)),
{
    match op {
        Operation::Init { admin } => {
            lemma_init_touches(env, admin, key);
        },
        Operation::WithdrawAsset { admin, asset, amount } => {
            lemma_withdrawal_touches(env, admin, asset, amount, key);
        },
        Operation::Burn { token_id, refund_royalty } => {
            lemma_burning_touches(env, token_id, refund_royalty, key);
        },
        _ => {},
    }
}

/// How the answers to several calls follow from the answers to all but the last.
proof fn lemma_answers(env: EnvView, calls: Seq<(u64, Operation)>)
    requires
        calls.len() > 0,
    ensures
        answer(env, calls, calls.len() - 1) == calls.last().1.result(
            run(env, calls.drop_last()).next_call(calls.last().0),
        ),
        forall|i: int|
            0 <= i < calls.len() - 1 ==> #[trigger] answer(env, calls.drop_last(), i) == answer(
                env,
                calls,
                i,
            ),
{
    assert(calls.take(calls.len() - 1) =~= calls.drop_last());
    assert forall|i: int| 0 <= i < calls.len() - 1 implies #[trigger] answer(
        env,
        calls.drop_last(),
        i,
    ) == answer(env, calls, i) by {
        assert(calls.drop_last().take(i) =~= calls.take(i));
    }
}

// ---------------------------------------------------------------------------
// Authorization
// ---------------------------------------------------------------------------

/// Whose authorization a call demands.
pub open spec fn authorizer(op: Operation, env: EnvView) -> Option<Address> {
    match op {
        Operation::Init { admin } => Some(admin),
        Operation::RevokeAllApprovals { caller, .. } => Some(caller),
        Operation::RevokeApproval { token_id } | Operation::Burn { token_id, .. } => {
            match env.token(token_id) {
                Some(token) => Some(token.owner),
                None => None,
            }
        },
        _ => op.claimed_admin(),
    }
}

/// Nothing happens before the one who may make the call has authorized it: the administrator for
/// privileged calls, the owner of the token for burning it and revoking its approval, the caller
/// for revoking an operator of theirs. Nobody else is asked.
pub proof fn law_authorization_comes_first(op: Operation, env: EnvView, i: int)
    requires
        0 <= i < op.effects(env).len(),
    ensures
        authorizer(op, env) is Some,
        op.effects(env)[0] == EffectView::RequireAuth(authorizer(op, env)->0),
        op.claimed_admin() matches Some(admin) ==> is_admin(env, admin),
        i > 0 ==> !(op.effects(env)[i] is RequireAuth),
{
}

/// A call that succeeds has demanded an authorization.
pub proof fn law_success_is_authorized(op: Operation, env: EnvView)
    requires
        op.result(env) is Ok,
    ensures
        op.effects(env).len() > 0,
        authorizer(op, env) matches Some(who) && op.effects(env)[0] == EffectView::RequireAuth(who),
{
}

/// A privileged call by anyone but the administrator answers `Unauthorized` and does nothing.
pub proof fn law_only_the_admin_is_obeyed(op: Operation, env: EnvView, admin: Address)
    requires
        op.claimed_admin() == Some(admin),
        !is_admin(env, admin),
    ensures
        op.result(env) == Err::<(), Error>(Error::Unauthorized),
        op.effects(env).len() == 0,
        op.leaves(env) == env,
{
}

/// A call that answers an error leaves every entry as it was, and neither transfers, nor publishes,
/// nor replaces the code.
pub proof fn law_errors_change_nothing(op: Operation, env: EnvView, i: int)
    requires
        op.result(env) is Err,
    ensures
        op.leaves(env).entries == env.entries,
        0 <= i < op.effects(env).len() ==> {
            let effect = op.effects(env)[i];
            !effect.pays() && !(effect is Publish) && !(effect is UpdateWasm)
        },
{
    assert(op.leaves(env).entries =~= env.entries);
}

/// Money leaves the contract only by withdrawal to the administrator who calls for it, or by the
/// refund of a burned token's royalties to its creator, in the asset that they are in.
pub proof fn law_money_leaves_by_withdrawal_or_refund(op: Operation, env: EnvView, i: int)
    requires
        0 <= i < op.effects(env).len(),
        op.effects(env)[i].pays(),
    ensures
        op.result(env) is Ok,
        match op {
            Operation::WithdrawAsset { admin, asset, amount } => {
                &&& is_admin(env, admin)
                &&& op.effects(env)[i] == (EffectView::Transfer {
                    asset,
                    from: env.contract,
                    to: admin,
                    amount,
                })
            },
            Operation::Burn { token_id, refund_royalty } => {
                &&& refund_royalty
                &&& env.token(token_id) matches Some(token)
                &&& token.royalty.recipients.len() > 0
                &&& env.amount(DataKey::RoyaltyBalance(token_id)) matches Some(balance)
                &&& balance > 0
                &&& op.effects(env)[i] == pay(
                    token.royalty.asset_address,
                    env.contract,
                    token.royalty.recipients[0].recipient,
                    balance,
                )
            },
            _ => false,
        },
{
}

// ---------------------------------------------------------------------------
// Initialization and administration
// ---------------------------------------------------------------------------

/// Initialization makes the address the administrator and the platform recipient, starts token
/// IDs at one, and leaves the contract unpaused at every time.
pub proof fn law_init_establishes_the_contract(env: EnvView, admin: Address, timestamp: u64)
    requires
        !env.has(DataKey::Admin),
    ensures
        ({
            let after = (Operation::Init { admin }).leaves(env);
            &&& is_admin(after, admin)
            &&& after.address(DataKey::PlatformRecipient) == Some(admin)
            &&& after.get(DataKey::NextTokenId) == Some(ValueView::U32(1))
            &&& after.bytes(DataKey::Signer) == env.bytes(DataKey::Signer)
            &&& !paused(after.next_call(timestamp))
        }),
{
}

/// The contract is initialized at most once: after any calls on an initialized contract it is
/// still initialized, so that it may not be initialized again.
pub proof fn law_initialized_for_good(env: EnvView, calls: Seq<(u64, Operation)>, admin: Address)
    requires
        env.has(DataKey::Admin),
        runs(env, calls),
    ensures
        run(env, calls).has(DataKey::Admin),
        !(Operation::Init { admin }).allowed(run(env, calls)),
    decreases calls.len(),
{
    if calls.len() > 0 {
        law_initialized_for_good(env, calls.drop_last(), admin);
        let (timestamp, op) = calls.last();
        let before = run(env, calls.drop_last()).next_call(timestamp);
        law_calls_touch_only_their_entries(op, before, DataKey::Admin);
        if let Operation::SetAdmin { current_admin, new_admin } = op {
            assert(op.leaves(before).has(DataKey::Admin));
        }
    }
}

/// On an initialized contract, the administrator changes only by `set_admin`.
pub proof fn law_only_set_admin_changes_the_admin(op: Operation, env: EnvView)
    requires
        env.has(DataKey::Admin),
        op.allowed(env),
        !(op is SetAdmin),
    ensures
        op.leaves(env).get(DataKey::Admin) == env.get(DataKey::Admin),
{
    law_calls_touch_only_their_entries(op, env, DataKey::Admin);
}

/// Handing over the admin rights makes the new address the administrator, and leaves the old one
/// without rights.
pub proof fn law_admin_rights_are_handed_over(
    env: EnvView,
    current_admin: Address,
    new_admin: Address,
    timestamp: u64,
    op: Operation,
)
    requires
        is_admin(env, current_admin),
    ensures
        ({
            let after = (Operation::SetAdmin { current_admin, new_admin }).leaves(env).next_call(
                timestamp,
            );
            &&& is_admin(after, new_admin)
            &&& current_admin != new_admin && op.claimed_admin() == Some(current_admin)
                ==> op.result(after) == Err::<(), Error>(Error::Unauthorized)
        }),
{
}

/// The signer that was registered last is the one in force, until another is registered.
pub proof fn law_last_signer_is_in_force(
    env: EnvView,
    admin: Address,
    pubkey: Bytes32,
    op: Operation,
)
    requires
        is_admin(env, admin),
    ensures
        (Operation::SetSigner { admin, pubkey }).leaves(env).bytes(DataKey::Signer) == Some(pubkey),
        !(op is SetSigner) ==> op.leaves(env).bytes(DataKey::Signer) == env.bytes(DataKey::Signer),
{
    law_calls_touch_only_their_entries(op, env, DataKey::Signer);
}

/// An upgrade replaces the code and preserves all storage.
pub proof fn law_upgrade_preserves_storage(env: EnvView, admin: Address, new_wasm_hash: Bytes32)
    ensures
        ({
            let op = Operation::Upgrade { admin, new_wasm_hash };
            &&& op.leaves(env).entries == env.entries
            &&& op.result(env) is Ok ==> op.effects(env)[1] == EffectView::UpdateWasm(new_wasm_hash)
        }),
{
}

/// A blacklisted clip stays blacklisted.
pub proof fn law_blacklisted_for_good(env: EnvView, calls: Seq<(u64, Operation)>, clip_id: u32)
    requires
        env.flag(DataKey::BlacklistedClip(clip_id)),
    ensures
        run(env, calls).flag(DataKey::BlacklistedClip(clip_id)),
    decreases calls.len(),
{
    if calls.len() > 0 {
        law_blacklisted_for_good(env, calls.drop_last(), clip_id);
        let (timestamp, op) = calls.last();
        let before = run(env, calls.drop_last()).next_call(timestamp);
        law_calls_touch_only_their_entries(op, before, DataKey::BlacklistedClip(clip_id));
        if let Operation::BlacklistClip { admin, clip_id: id } = op {
            assert(op.leaves(before).flag(DataKey::BlacklistedClip(clip_id)));
        }
    }
}

// ---------------------------------------------------------------------------
// Pausing
// ---------------------------------------------------------------------------

/// A pause becomes active 24 hours after the call, and not before.
pub proof fn law_pause_waits_a_day(env: EnvView, admin: Address, timestamp: u64)
    requires
        is_admin(env, admin),
        env.timestamp + PAUSE_DELAY_SECONDS <= u64::MAX,
    ensures
        ({
            let after = (Operation::Pause { admin }).leaves(env);
            &&& after.time(DataKey::PauseUnlockTime) == Some(
                (env.timestamp + PAUSE_DELAY_SECONDS) as u64,
            )
            &&& paused(after.next_call(timestamp)) <==> timestamp >= env.timestamp
                + PAUSE_DELAY_SECONDS
        }),
{
}

/// Pausing again resets the 24-hour window from the time of the second call.
pub proof fn law_pausing_again_restarts_the_day(
    env: EnvView,
    admin: Address,
    again: u64,
    timestamp: u64,
)
    requires
        is_admin(env, admin),
        again + PAUSE_DELAY_SECONDS <= u64::MAX,
    ensures
        ({
            let first = (Operation::Pause { admin }).leaves(env);
            let second = (Operation::Pause { admin }).leaves(first.next_call(again));
            paused(second.next_call(timestamp)) <==> timestamp >= again + PAUSE_DELAY_SECONDS
        }),
{
}

/// Unpausing cancels a scheduled or active pause at once.
pub proof fn law_unpause_ends_every_pause(env: EnvView, admin: Address, timestamp: u64)
    requires
        is_admin(env, admin),
    ensures
        ({
            let after = (Operation::Unpause { admin }).leaves(env);
            &&& after.time(DataKey::PauseUnlockTime) is None
            &&& !paused(after.next_call(timestamp))
        }),
{
}

/// Nothing but `pause` and `unpause` changes whether, and from when on, an initialized contract
/// is paused.
pub proof fn law_only_pausing_pauses(op: Operation, env: EnvView, timestamp: u64)
    requires
        env.has(DataKey::Admin),
        op.allowed(env),
        !(op is Pause),
        !(op is Unpause),
    ensures
        paused(op.leaves(env).next_call(timestamp)) == paused(env.next_call(timestamp)),
        op.leaves(env).time(DataKey::PauseUnlockTime) == env.time(DataKey::PauseUnlockTime),
{
    law_calls_touch_only_their_entries(op, env, DataKey::Paused);
    law_calls_touch_only_their_entries(op, env, DataKey::PauseUnlockTime);
}

/// No pause comes without notice: a contract that is paused was called to pause, successfully, at
/// least 24 hours before. (Except at the very last instant that ledger time can express.)
pub proof fn law_pauses_were_announced(
    env: EnvView,
    calls: Seq<(u64, Operation)>,
    timestamp: u64,
)
    requires
        !env.flag(DataKey::Paused),
        paused(run(env, calls).next_call(timestamp)),
        timestamp < u64::MAX,
    ensures
        exists|i: int|
            {
                &&& 0 <= i < calls.len()
                &&& (#[trigger] calls[i]).1 is Pause
                &&& answer(env, calls, i) is Ok
                &&& calls[i].0 + PAUSE_DELAY_SECONDS <= timestamp
            },
    decreases calls.len(),
{
    assert(calls.len() > 0);
    lemma_answers(env, calls);
    let earlier = calls.drop_last();
    let (time, op) = calls.last();
    let before = run(env, earlier).next_call(time);
    assert(calls[calls.len() - 1] == (time, op));
    if op is Pause && op.result(before) is Ok {
        assert(op.leaves(before).time(DataKey::PauseUnlockTime) == Some(
            time.saturating_add(PAUSE_DELAY_SECONDS),
        ));
    } else {
        if op is Unpause && op.result(before) is Ok {
            assert(!op.leaves(before).flag(DataKey::Paused));
        }
        if let Operation::Init { admin } = op {
            lemma_init_touches(before, admin, DataKey::Paused);
            assert(!op.leaves(before).flag(DataKey::Paused));
        }
        law_calls_touch_only_their_entries(op, before, DataKey::Paused);
        law_calls_touch_only_their_entries(op, before, DataKey::PauseUnlockTime);
        assert(paused(run(env, earlier).next_call(timestamp)));
        law_pauses_were_announced(env, earlier, timestamp);
        let i = choose|i: int|
            {
                &&& 0 <= i < earlier.len()
                &&& (#[trigger] earlier[i]).1 is Pause
                &&& answer(env, earlier, i) is Ok
                &&& earlier[i].0 + PAUSE_DELAY_SECONDS <= timestamp
            };
        assert(calls[i] == earlier[i]);
        assert(answer(env, calls, i) is Ok);
    }
}

// ---------------------------------------------------------------------------
// Withdrawal
// ---------------------------------------------------------------------------

/// A requested withdrawal can be executed 48 hours after the request, and not before.
pub proof fn law_withdrawal_waits_two_days(
    env: EnvView,
    admin: Address,
    asset: Address,
    amount: i128,
    timestamp: u64,
)
    requires
        is_admin(env, admin),
        amount > 0,
        !env.has(DataKey::ReentrancyLock),
        env.timestamp + WITHDRAWAL_DELAY_SECONDS <= u64::MAX,
    ensures
        ({
            let requested = (Operation::RequestWithdrawAsset { admin, amount }).leaves(env);
            let withdraw = Operation::WithdrawAsset { admin, asset, amount };
            withdraw.result(requested.next_call(timestamp)) == (if timestamp >= env.timestamp
                + WITHDRAWAL_DELAY_SECONDS {
                Ok(())
            } else {
                Err::<(), Error>(Error::WithdrawalStillLocked)
            })
        }),
{
}

/// An executed withdrawal pays the requested amount to the administrator, exactly once, after the
/// request has been cleared.
pub proof fn law_withdrawal_clears_before_it_pays(
    env: EnvView,
    admin: Address,
    asset: Address,
    amount: i128,
    i: int,
)
    requires
        (Operation::WithdrawAsset { admin, asset, amount }).result(env) is Ok,
        0 <= i < (Operation::WithdrawAsset { admin, asset, amount }).effects(env).len(),
    ensures
        ({
            let effects = (Operation::WithdrawAsset { admin, asset, amount }).effects(env);
            &&& env.withdrawal() matches Some(request) && request.amount == amount
            &&& effects[2] == EffectView::Remove(DataKey::WithdrawXlmRequest)
            &&& effects[3] == (EffectView::Transfer {
                asset,
                from: env.contract,
                to: admin,
                amount,
            })
            &&& effects[i].pays() ==> i == 3
        }),
{
}

/// Calls other than successful requests leave no request where there is none, and leave the lock
/// free.
proof fn lemma_no_request_appears(env: EnvView, calls: Seq<(u64, Operation)>)
    requires
        env.withdrawal() is None,
        !env.has(DataKey::ReentrancyLock),
        forall|i: int|
            0 <= i < calls.len() && (#[trigger] calls[i]).1 is RequestWithdrawAsset ==> answer(
                env,
                calls,
                i,
            ) is Err,
    ensures
        run(env, calls).withdrawal() is None,
        !run(env, calls).has(DataKey::ReentrancyLock),
    decreases calls.len(),
{
    if calls.len() > 0 {
        let earlier = calls.drop_last();
        lemma_answers(env, calls);
        assert forall|i: int|
            0 <= i < earlier.len() && (#[trigger] earlier[i]).1 is RequestWithdrawAsset implies
            answer(env, earlier, i) is Err by {
            assert(calls[i] == earlier[i]);
        }
        lemma_no_request_appears(env, earlier);
        let (timestamp, op) = calls.last();
        let before = run(env, earlier).next_call(timestamp);
        assert(calls[calls.len() - 1] == (timestamp, op));
        if op.result(before) is Err {
            law_errors_change_nothing(op, before, 0);
        }
        law_calls_touch_only_their_entries(op, before, DataKey::WithdrawXlmRequest);
        law_calls_touch_only_their_entries(op, before, DataKey::ReentrancyLock);
    }
}

/// An executed withdrawal cannot be executed again: whatever else is called, until the next
/// successful request every attempt of the administrator answers `NoWithdrawalRequest`.
pub proof fn law_withdrawal_is_spent(
    env: EnvView,
    admin: Address,
    asset: Address,
    amount: i128,
    calls: Seq<(u64, Operation)>,
    timestamp: u64,
    again: Operation,
)
    requires
        (Operation::WithdrawAsset { admin, asset, amount }).result(env) is Ok,
        forall|i: int|
            0 <= i < calls.len() && (#[trigger] calls[i]).1 is RequestWithdrawAsset ==> answer(
                (Operation::WithdrawAsset { admin, asset, amount }).leaves(env),
                calls,
                i,
            ) is Err,
        again is WithdrawAsset,
    ensures
        ({
            let spent = (Operation::WithdrawAsset { admin, asset, amount }).leaves(env);
            let later = run(spent, calls).next_call(timestamp);
            is_admin(later, again->WithdrawAsset_admin) ==> again.result(later) == Err::<
                (),
                Error,
            >(Error::NoWithdrawalRequest)
        }),
{
    let spent = (Operation::WithdrawAsset { admin, asset, amount }).leaves(env);
    lemma_no_request_appears(spent, calls);
}

/// A new request replaces the one before it: the entries, and so what a withdrawal answers at any
/// time, are as if the first had not been made.
pub proof fn law_a_new_request_replaces_the_old(
    env: EnvView,
    admin: Address,
    first: i128,
    again: u64,
    second: i128,
    timestamp: u64,
    withdraw: Operation,
)
    requires
        is_admin(env, admin),
        second > 0,
        withdraw is WithdrawAsset,
    ensures
        ({
            let request = Operation::RequestWithdrawAsset { admin, amount: second };
            let both = request.leaves(
                (Operation::RequestWithdrawAsset { admin, amount: first }).leaves(env).next_call(
                    again,
                ),
            );
            let only = request.leaves(env.next_call(again));
            &&& both.entries == only.entries
            &&& withdraw.result(both.next_call(timestamp)) == withdraw.result(
                only.next_call(timestamp),
            )
        }),
{
    let request = Operation::RequestWithdrawAsset { admin, amount: second };
    let requested = (Operation::RequestWithdrawAsset { admin, amount: first }).leaves(env);
    let both = request.leaves(requested.next_call(again));
    let only = request.leaves(env.next_call(again));
    assert(both.entries =~= only.entries);
}

/// A pending request stems from a successful call: its amount was asked for there, and it is
/// unlocked 48 hours after that.
pub proof fn law_requests_stem_from_calls(env: EnvView, calls: Seq<(u64, Operation)>)
    requires
        env.withdrawal() is None,
    ensures
        run(env, calls).withdrawal() matches Some(request) ==> exists|i: int|
            {
                &&& 0 <= i < calls.len()
                &&& (#[trigger] calls[i]).1 is RequestWithdrawAsset
                &&& answer(env, calls, i) is Ok
                &&& calls[i].1->RequestWithdrawAsset_amount == request.amount
                &&& request.unlock_time == calls[i].0.saturating_add(WITHDRAWAL_DELAY_SECONDS)
            },
    decreases calls.len(),
{
    if calls.len() > 0 {
        let earlier = calls.drop_last();
        lemma_answers(env, calls);
        law_requests_stem_from_calls(env, earlier);
        let (timestamp, op) = calls.last();
        let before = run(env, earlier).next_call(timestamp);
        assert(calls[calls.len() - 1] == (timestamp, op));
        law_calls_touch_only_their_entries(op, before, DataKey::WithdrawXlmRequest);
        if op.result(before) is Err {
            law_errors_change_nothing(op, before, 0);
        }
        if before.withdrawal() is Some && op.leaves(before).withdrawal() == before.withdrawal() {
            let request = before.withdrawal()->0;
            let i = choose|i: int|
                {
                    &&& 0 <= i < earlier.len()
                    &&& (#[trigger] earlier[i]).1 is RequestWithdrawAsset
                    &&& answer(env, earlier, i) is Ok
                    &&& earlier[i].1->RequestWithdrawAsset_amount == request.amount
                    &&& request.unlock_time == earlier[i].0.saturating_add(
                        WITHDRAWAL_DELAY_SECONDS,
                    )
                };
            assert(calls[i] == earlier[i]);
            assert(answer(env, calls, i) is Ok);
        }
    }
}

/// No withdrawal comes without notice: one that goes through pays an amount that was asked for,
/// successfully, at least 48 hours before. (Except at the very last instant that ledger time can
/// express.)
pub proof fn law_withdrawals_were_announced(
    env: EnvView,
    calls: Seq<(u64, Operation)>,
    timestamp: u64,
    admin: Address,
    asset: Address,
    amount: i128,
)
    requires
        env.withdrawal() is None,
        (Operation::WithdrawAsset { admin, asset, amount }).result(
            run(env, calls).next_call(timestamp),
        ) is Ok,
        timestamp < u64::MAX,
    ensures
        exists|i: int|
            {
                &&& 0 <= i < calls.len()
                &&& (#[trigger] calls[i]).1 is RequestWithdrawAsset
                &&& answer(env, calls, i) is Ok
                &&& calls[i].1->RequestWithdrawAsset_amount == amount
                &&& calls[i].0 + WITHDRAWAL_DELAY_SECONDS <= timestamp
            },
{
    law_requests_stem_from_calls(env, calls);
    let request = run(env, calls).withdrawal()->0;
    let i = choose|i: int|
        {
            &&& 0 <= i < calls.len()
            &&& (#[trigger] calls[i]).1 is RequestWithdrawAsset
            &&& answer(env, calls, i) is Ok
            &&& calls[i].1->RequestWithdrawAsset_amount == request.amount
            &&& request.unlock_time == calls[i].0.saturating_add(WITHDRAWAL_DELAY_SECONDS)
        };
    assert(calls[i].0 + WITHDRAWAL_DELAY_SECONDS <= timestamp);
}

/// Without a request, or with another amount than the requested one, nothing is withdrawn.
pub proof fn law_withdrawal_needs_its_request(
    env: EnvView,
    admin: Address,
    asset: Address,
    amount: i128,
)
    requires
        is_admin(env, admin),
        !env.has(DataKey::ReentrancyLock),
    ensures
        ({
            let result = (Operation::WithdrawAsset { admin, asset, amount }).result(env);
            match env.withdrawal() {
                None => result == Err::<(), Error>(Error::NoWithdrawalRequest),
                Some(request) => request.amount != amount ==> result == Err::<(), Error>(
                    Error::Unauthorized,
                ),
            }
        }),
{
}

/// The reentrancy lock is given once: taking it answers `Reentrancy`, and changes nothing, if and
/// only if it is held. Once taken it stays held, whatever is called, until it is released, so that
/// a second taking answers `Reentrancy`.
pub proof fn law_lock_is_given_once(env: EnvView, calls: Seq<(u64, Operation)>)
    ensures
        lock_result(env) == Err::<(), Error>(Error::Reentrancy) <==> env.has(
            DataKey::ReentrancyLock,
        ),
        lock_result(env) is Err ==> locked(env) == env,
        lock_result(env) is Ok ==> locked(env).entries == env.entries.insert(
            DataKey::ReentrancyLock,
            ValueView::Bool(true),
        ),
        run(locked(env), calls).has(DataKey::ReentrancyLock),
        lock_result(run(locked(env), calls)) == Err::<(), Error>(Error::Reentrancy),
        locked(run(locked(env), calls)) == run(locked(env), calls),
    decreases calls.len(),
{
    if calls.len() > 0 {
        law_lock_is_given_once(env, calls.drop_last());
        let (timestamp, op) = calls.last();
        let before = run(locked(env), calls.drop_last()).next_call(timestamp);
        law_calls_touch_only_their_entries(op, before, DataKey::ReentrancyLock);
    }
}

/// Releasing the reentrancy lock undoes taking it: the entries are as they were before, and the
/// lock can be taken again. Releasing a lock that is not held changes no entry.
pub proof fn law_release_undoes_the_lock(env: EnvView)
    ensures
        lock_result(env) is Ok ==> unlocked(locked(env)).entries == env.entries,
        !env.has(DataKey::ReentrancyLock) ==> unlocked(env).entries == env.entries,
        !unlocked(env).has(DataKey::ReentrancyLock),
        lock_result(unlocked(env)) is Ok,
{
    if !env.has(DataKey::ReentrancyLock) {
        assert(unlocked(locked(env)).entries =~= env.entries);
        assert(unlocked(env).entries =~= env.entries);
    }
}

/// While the reentrancy lock is held, no withdrawal goes through, and the lock stays held.
pub proof fn law_held_lock_stops_withdrawals(
    env: EnvView,
    admin: Address,
    asset: Address,
    amount: i128,
)
    requires
        is_admin(env, admin),
        env.has(DataKey::ReentrancyLock),
    ensures
        ({
            let op = Operation::WithdrawAsset { admin, asset, amount };
            &&& op.result(env) == Err::<(), Error>(Error::Reentrancy)
            &&& op.effects(env) == demand(admin)
            &&& op.leaves(env).has(DataKey::ReentrancyLock)
        }),
{
}

/// A withdrawal holds the lock while it transfers.
pub proof fn law_transfer_is_made_under_the_lock(
    env: EnvView,
    admin: Address,
    asset: Address,
    amount: i128,
)
    requires
        (Operation::WithdrawAsset { admin, asset, amount }).result(env) is Ok,
    ensures
        ({
            let effects = (Operation::WithdrawAsset { admin, asset, amount }).effects(env);
            &&& effects[3] is Transfer
            &&& env.after(effects.take(3)).has(DataKey::ReentrancyLock)
            &&& !env.after(effects).has(DataKey::ReentrancyLock)
        }),
{
    let effects = (Operation::WithdrawAsset { admin, asset, amount }).effects(env);
    let lock = EffectView::Put(DataKey::ReentrancyLock, ValueView::Bool(true));
    let clear = EffectView::Remove(DataKey::WithdrawXlmRequest);
    assert(effects.take(3) =~= demand(admin).push(lock).push(clear));
}

// ---------------------------------------------------------------------------
// Freezing and burning
// ---------------------------------------------------------------------------

/// A frozen token can be neither unfrozen nor burned by anything but a successful `unfreeze`:
/// whatever else is called, it stays as it is, frozen, and burning it answers `TokenFrozen`.
pub proof fn law_frozen_until_unfrozen(
    env: EnvView,
    calls: Seq<(u64, Operation)>,
    token_id: TokenId,
    timestamp: u64,
    refund_royalty: bool,
)
    requires
        env.token(token_id) is Some,
        env.flag(DataKey::Frozen(token_id)),
        forall|i: int|
            0 <= i < calls.len() && (#[trigger] calls[i]).1 is Unfreeze
                && calls[i].1->Unfreeze_token_id == token_id ==> answer(env, calls, i) is Err,
    ensures
        run(env, calls).token(token_id) == env.token(token_id),
        run(env, calls).flag(DataKey::Frozen(token_id)),
        (Operation::Burn { token_id, refund_royalty }).result(run(env, calls).next_call(timestamp))
            == Err::<(), Error>(Error::TokenFrozen),
    decreases calls.len(),
{
    if calls.len() > 0 {
        let earlier = calls.drop_last();
        lemma_answers(env, calls);
        assert forall|i: int|
            0 <= i < earlier.len() && (#[trigger] earlier[i]).1 is Unfreeze
                && earlier[i].1->Unfreeze_token_id == token_id implies answer(
            env,
            earlier,
            i,
        ) is Err by {
            assert(calls[i] == earlier[i]);
        }
        law_frozen_until_unfrozen(env, earlier, token_id, timestamp, refund_royalty);
        let (time, op) = calls.last();
        let before = run(env, earlier).next_call(time);
        assert(calls[calls.len() - 1] == (time, op));
        if op.result(before) is Err {
            law_errors_change_nothing(op, before, 0);
        }
        law_calls_touch_only_their_entries(op, before, DataKey::Token(token_id));
        law_calls_touch_only_their_entries(op, before, DataKey::Frozen(token_id));
        if let Operation::Freeze { admin, token_id: id } = op {
            if id == token_id {
                assert(op.leaves(before).flag(DataKey::Frozen(token_id)));
            }
        }
    }
}

/// Freezing a token that exists makes it frozen.
pub proof fn law_freeze_freezes(env: EnvView, admin: Address, token_id: TokenId)
    requires
        is_admin(env, admin),
        env.has(DataKey::Token(token_id)),
    ensures
        (Operation::Freeze { admin, token_id }).leaves(env).flag(DataKey::Frozen(token_id)),
        (Operation::Freeze { admin, token_id }).leaves(env).token(token_id) == env.token(token_id),
{
}

/// Unfreezing undoes freezing: the entries are those of a token that was never frozen, and the
/// token can be burned.
pub proof fn law_unfreeze_undoes_freeze(
    env: EnvView,
    admin: Address,
    token_id: TokenId,
    refund_royalty: bool,
)
    requires
        is_admin(env, admin),
        env.token(token_id) is Some,
    ensures
        ({
            let frozen = (Operation::Freeze { admin, token_id }).leaves(env);
            let thawed = (Operation::Unfreeze { admin, token_id }).leaves(frozen);
            &&& thawed.entries == env.entries.remove(DataKey::Frozen(token_id))
            &&& !thawed.flag(DataKey::Frozen(token_id))
            &&& (Operation::Burn { token_id, refund_royalty }).result(thawed) is Ok
        }),
{
    let frozen = (Operation::Freeze { admin, token_id }).leaves(env);
    let thawed = (Operation::Unfreeze { admin, token_id }).leaves(frozen);
    assert(thawed.entries =~= env.entries.remove(DataKey::Frozen(token_id)));
}

/// Burning a token erases the entries of that token and the guard of its clip, and no others:
/// other tokens, and the state of the contract, are untouched.
#[verifier::rlimit(40)]
pub proof fn law_burning_touches_one_token(
    env: EnvView,
    token_id: TokenId,
    refund_royalty: bool,
    key: DataKey,
)
    requires
        (Operation::Burn { token_id, refund_royalty }).result(env) is Ok,
    ensures
        env.token(token_id) matches Some(token) && (Operation::Burn {
            token_id,
            refund_royalty,
        }).leaves(env).get(key) == (if burn_erases(token_id, token.clip_id, refund_royalty, key) {
            None
        } else {
            env.get(key)
        }),
{
}

/// A burned token is gone: it cannot be burned, frozen or unfrozen, and has no approval to revoke.
pub proof fn law_burned_tokens_are_gone(
    env: EnvView,
    token_id: TokenId,
    refund_royalty: bool,
    timestamp: u64,
    admin: Address,
    again: bool,
)
    requires
        (Operation::Burn { token_id, refund_royalty }).result(env) is Ok,
        is_admin(env, admin),
    ensures
        ({
            let after = (Operation::Burn { token_id, refund_royalty }).leaves(env).next_call(
                timestamp,
            );
            let gone = Err::<(), Error>(Error::InvalidTokenId);
            &&& (Operation::Burn { token_id, refund_royalty: again }).result(after) == gone
            &&& (Operation::Freeze { admin, token_id }).result(after) == gone
            &&& (Operation::Unfreeze { admin, token_id }).result(after) == gone
            &&& (Operation::RevokeApproval { token_id }).result(after) == gone
        }),
{
    law_burning_touches_one_token(env, token_id, refund_royalty, DataKey::Token(token_id));
    law_burning_touches_one_token(env, token_id, refund_royalty, DataKey::Admin);
}

/// A token that does not exist never comes to exist.
proof fn lemma_no_token_appears(env: EnvView, calls: Seq<(u64, Operation)>, token_id: TokenId)
    requires
        !env.has(DataKey::Token(token_id)),
    ensures
        !run(env, calls).has(DataKey::Token(token_id)),
    decreases calls.len(),
{
    if calls.len() > 0 {
        lemma_no_token_appears(env, calls.drop_last(), token_id);
        let (timestamp, op) = calls.last();
        let before = run(env, calls.drop_last()).next_call(timestamp);
        law_calls_touch_only_their_entries(op, before, DataKey::Token(token_id));
    }
}

/// A burned token stays gone, whatever is called: it can never again be burned, have an approval
/// revoked, or be frozen or unfrozen by whoever is then the administrator.
pub proof fn law_burned_for_good(
    env: EnvView,
    token_id: TokenId,
    refund_royalty: bool,
    calls: Seq<(u64, Operation)>,
    timestamp: u64,
    admin: Address,
    again: bool,
)
    requires
        (Operation::Burn { token_id, refund_royalty }).result(env) is Ok,
    ensures
        ({
            let burned = (Operation::Burn { token_id, refund_royalty }).leaves(env);
            let later = run(burned, calls).next_call(timestamp);
            let gone = Err::<(), Error>(Error::InvalidTokenId);
            &&& later.token(token_id) is None
            &&& (Operation::Burn { token_id, refund_royalty: again }).result(later) == gone
            &&& (Operation::RevokeApproval { token_id }).result(later) == gone
            &&& is_admin(later, admin) ==> (Operation::Freeze { admin, token_id }).result(later)
                == gone
            &&& is_admin(later, admin) ==> (Operation::Unfreeze { admin, token_id }).result(later)
                == gone
        }),
{
    let burned = (Operation::Burn { token_id, refund_royalty }).leaves(env);
    law_burning_touches_one_token(env, token_id, refund_royalty, DataKey::Token(token_id));
    lemma_no_token_appears(burned, calls, token_id);
}

/// Burning with a refund pays the whole accrued balance to the first royalty recipient, exactly
/// once, in the asset that the royalties are in (the native one, unless the token names another),
/// announces it, and leaves no balance.
pub proof fn law_refund_goes_to_the_creator(
    env: EnvView,
    token_id: TokenId,
    balance: i128,
    i: int,
)
    requires
        (Operation::Burn { token_id, refund_royalty: true }).result(env) is Ok,
        env.token(token_id)->0.royalty.recipients.len() > 0,
        env.amount(DataKey::RoyaltyBalance(token_id)) == Some(balance),
        balance > 0,
    ensures
        ({
            let op = Operation::Burn { token_id, refund_royalty: true };
            let royalty = env.token(token_id)->0.royalty;
            let creator = royalty.recipients[0].recipient;
            &&& op.effects(env)[1] == (match royalty.asset_address {
                Some(asset) => EffectView::Transfer {
                    asset,
                    from: env.contract,
                    to: creator,
                    amount: balance,
                },
                None => EffectView::TransferNative {
                    from: env.contract,
                    to: creator,
                    amount: balance,
                },
            })
            &&& 0 <= i < op.effects(env).len() && op.effects(env)[i].pays() ==> i == 1
            &&& op.effects(env)[2] matches EffectView::Publish(Event::Refunded(event))
                && event.recipient == creator && event.amount == balance && event.token_id
                == token_id
            &&& op.leaves(env).get(DataKey::RoyaltyBalance(token_id)) is None
        }),
{
}

/// Burning without a refund transfers nothing and keeps the accrued balance.
pub proof fn law_no_refund_unless_asked(env: EnvView, token_id: TokenId, i: int)
    ensures
        ({
            let op = Operation::Burn { token_id, refund_royalty: false };
            &&& 0 <= i < op.effects(env).len() ==> !op.effects(env)[i].pays()
            &&& op.leaves(env).get(DataKey::RoyaltyBalance(token_id)) == env.get(
                DataKey::RoyaltyBalance(token_id),
            )
        }),
{
}

// ---------------------------------------------------------------------------
// Approvals
// ---------------------------------------------------------------------------

/// Revoking an approval removes it; revoking it again only demands the owner's authorization.
pub proof fn law_revoking_twice_is_revoking_once(env: EnvView, token_id: TokenId)
    requires
        env.token(token_id) is Some,
    ensures
        ({
            let op = Operation::RevokeApproval { token_id };
            let after = op.leaves(env);
            &&& !after.has(DataKey::Approved(token_id))
            &&& op.result(after) is Ok
            &&& op.effects(after) == demand(env.token(token_id)->0.owner)
            &&& op.leaves(after).entries == after.entries
        }),
{
}

/// Revoking the general approval that a caller has given an operator removes it; revoking it again
/// only demands the caller's authorization.
pub proof fn law_revoking_all_twice_is_revoking_all_once(
    env: EnvView,
    caller: Address,
    operator: Address,
)
    ensures
        ({
            let op = Operation::RevokeAllApprovals { caller, operator };
            let after = op.leaves(env);
            &&& !after.has(DataKey::ApprovalForAll(caller, operator))
            &&& op.effects(after) == demand(caller)
            &&& op.leaves(after).entries == after.entries
        }),
{
}

/// The general approval that an owner has given an operator changes only by a call that the owner
/// has authorized.
pub proof fn law_only_owners_revoke_their_operators(
    op: Operation,
    env: EnvView,
    owner: Address,
    operator: Address,
)
    requires
        op.leaves(env).get(DataKey::ApprovalForAll(owner, operator)) != env.get(
            DataKey::ApprovalForAll(owner, operator),
        ),
    ensures
        authorizer(op, env) == Some(owner),
        op.effects(env)[0] == EffectView::RequireAuth(owner),
{
    law_calls_touch_only_their_entries(op, env, DataKey::ApprovalForAll(owner, operator));
}

// ---------------------------------------------------------------------------
// Every reachable state
// ---------------------------------------------------------------------------

/// What holds between calls: values are of their keys' types, and the reentrancy lock is free.
pub open spec fn sound(env: EnvView) -> bool {
    &&& well_typed(env.entries)
    &&& !env.has(DataKey::ReentrancyLock)
}

/// Every call keeps a sound environment sound.
pub proof fn law_calls_keep_soundness(op: Operation, env: EnvView)
    requires
        sound(env),
    ensures
        sound(op.leaves(env)),
{
    let after = op.leaves(env);
    assert forall|key: DataKey| #[trigger] after.entries.contains_key(key) implies key.admits(
        after.entries[key],
    ) by {
        law_calls_touch_only_their_entries(op, env, key);
        assert(after.get(key) == Some(after.entries[key]));
        assert(env.get(key) is Some ==> env.entries.contains_key(key));
    }
    law_calls_touch_only_their_entries(op, env, DataKey::ReentrancyLock);
}

/// Any calls, one after the other, keep a sound environment sound.
pub proof fn law_reachable_states_are_sound(env: EnvView, calls: Seq<(u64, Operation)>)
    requires
        sound(env),
    ensures
        sound(run(env, calls)),
    decreases calls.len(),
{
    if calls.len() > 0 {
        law_reachable_states_are_sound(env, calls.drop_last());
        let (timestamp, op) = calls.last();
        law_calls_keep_soundness(op, run(env, calls.drop_last()).next_call(timestamp));
    }
}

// ---------------------------------------------------------------------------
// Names
// ---------------------------------------------------------------------------

/// The number of letters of an event's topic, and those of its letters that tell it from others.
proof fn lemma_topic_letters(event: Event)
    ensures
        ({
            let topic = event.spec_topic();
            match event {
                Event::SignerUpdated(_) => topic.len() == 7 && topic[0] == 's',
                Event::AdminChanged(_) => topic.len() == 7 && topic[0] == 'a' && topic[1] == 'd',
                Event::Upgraded(_) => topic.len() == 7 && topic[0] == 'u',
                Event::PauseScheduled(_) => topic.len() == 11,
                Event::Unpaused => topic.len() == 8 && topic[0] == 'u' && topic[2] == 'p',
                Event::WithdrawRequested(_) => topic.len() == 8 && topic[0] == 'w' && topic[5]
                    == 'r',
                Event::WithdrawExecuted(_) => topic.len() == 8 && topic[0] == 'w' && topic[5]
                    == 'e',
                Event::Blacklisted(_) => topic.len() == 9,
                Event::Frozen(_) => topic.len() == 6,
                Event::Unfrozen(_) => topic.len() == 8 && topic[0] == 'u' && topic[2] == 'f',
                Event::Approval(_) => topic.len() == 8 && topic[0] == 'a',
                Event::ApprovalForAll(_) => topic.len() == 7 && topic[0] == 'a' && topic[1] == 'p',
                Event::Refunded(_) => topic.len() == 8 && topic[0] == 'r',
                Event::Burned(_) => topic.len() == 4,
            }
        }),
{
    reveal_strlit("sgn_upd");
    reveal_strlit("adm_chg");
    reveal_strlit("upgrade");
    reveal_strlit("pause_sched");
    reveal_strlit("unpaused");
    reveal_strlit("with_req");
    reveal_strlit("with_exe");
    reveal_strlit("blacklist");
    reveal_strlit("freeze");
    reveal_strlit("unfreeze");
    reveal_strlit("approval");
    reveal_strlit("app_all");
    reveal_strlit("refunded");
    reveal_strlit("burn");
}

/// The topic of an event tells its kind from every other.
pub proof fn law_topics_tell_events_apart(a: Event, b: Event)
    requires
        a.spec_topic() == b.spec_topic(),
    ensures
        a is SignerUpdated == b is SignerUpdated,
        a is AdminChanged == b is AdminChanged,
        a is Upgraded == b is Upgraded,
        a is PauseScheduled == b is PauseScheduled,
        a is Unpaused == b is Unpaused,
        a is WithdrawRequested == b is WithdrawRequested,
        a is WithdrawExecuted == b is WithdrawExecuted,
        a is Blacklisted == b is Blacklisted,
        a is Frozen == b is Frozen,
        a is Unfrozen == b is Unfrozen,
        a is Approval == b is Approval,
        a is ApprovalForAll == b is ApprovalForAll,
        a is Refunded == b is Refunded,
        a is Burned == b is Burned,
{
    lemma_topic_letters(a);
    lemma_topic_letters(b);
}

/// The code of an error tells it from every other.
pub proof fn law_codes_tell_errors_apart(a: Error, b: Error)
    ensures
        a.spec_code() == b.spec_code() ==> a == b,
{
}

} // verus!
