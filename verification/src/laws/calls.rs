//! What each call does, read off the ledger entries themselves: when it succeeds, which error it
//! answers otherwise, everything that it does, and the entries that it leaves.

use crate::env::{group_after, EffectView, EnvView};
use crate::error::Error;
use crate::event::{
    AdminChangedEvent, ApprovalEvent, ApprovalForAllEvent, BlacklistEvent, BurnEvent, Event,
    PauseScheduledEvent, RefundedEvent, SignerUpdatedEvent, TokenFrozenEvent, TokenUnfrozenEvent,
    UpgradeEvent, WithdrawExecutedEvent, WithdrawRequestedEvent,
};
use crate::key::DataKey;
use crate::operation::Operation;
use crate::types::{Address, Bytes32, TokenId, WithdrawRequest};
use crate::value::ValueView;
use vstd::prelude::*;

verus! {

broadcast use group_after;

/// Initialization asks the new administrator, fills seven entries, and announces nothing.
pub proof fn law_init_fills_seven_entries(env: EnvView, admin: Address)
    ensures
        ({
            let op = Operation::Init { admin };
            let done = op.effects(env);
            &&& op.result(env) is Ok
            &&& done.len() == 8
            &&& done[0] == EffectView::RequireAuth(admin)
            &&& done[1] == EffectView::Put(DataKey::Admin, ValueView::Address(admin))
            &&& done[2] == EffectView::Put(DataKey::NextTokenId, ValueView::U32(1))
            &&& done[3] == EffectView::Put(DataKey::Paused, ValueView::Bool(false))
            &&& done[4] == EffectView::Put(DataKey::PlatformRecipient, ValueView::Address(admin))
            &&& done[5] == EffectView::Put(DataKey::Name, ValueView::Text("ClipCash Clips"@))
            &&& done[6] == EffectView::Put(DataKey::Symbol, ValueView::Text("CLIP"@))
            &&& done[7] == EffectView::Put(DataKey::MintCooldownSeconds, ValueView::U64(0))
            &&& op.allowed(env) <==> !env.entries.contains_key(DataKey::Admin)
            &&& op.leaves(env).entries == env.entries.insert(
                DataKey::Admin,
                ValueView::Address(admin),
            ).insert(DataKey::NextTokenId, ValueView::U32(1)).insert(
                DataKey::Paused,
                ValueView::Bool(false),
            ).insert(DataKey::PlatformRecipient, ValueView::Address(admin)).insert(
                DataKey::Name,
                ValueView::Text("ClipCash Clips"@),
            ).insert(DataKey::Symbol, ValueView::Text("CLIP"@)).insert(
                DataKey::MintCooldownSeconds,
                ValueView::U64(0),
            )
        }),
{
}

/// Registering a signer succeeds exactly for the stored administrator, and stores and announces
/// that key.
pub proof fn law_set_signer_stores_the_key(env: EnvView, admin: Address, pubkey: Bytes32)
    ensures
        ({
            let op = Operation::SetSigner { admin, pubkey };
            let done = op.effects(env);
            let obeyed = env.entries.get(DataKey::Admin) == Some(ValueView::Address(admin));
            &&& op.result(env) is Ok <==> obeyed
            &&& !obeyed ==> {
                &&& op.result(env) == Err::<(), Error>(Error::Unauthorized)
                &&& done.len() == 0
                &&& op.leaves(env).entries == env.entries
            }
            &&& obeyed ==> {
                &&& done.len() == 3
                &&& done[0] == EffectView::RequireAuth(admin)
                &&& done[1] == EffectView::Put(DataKey::Signer, ValueView::Bytes(pubkey))
                &&& done[2] == EffectView::Publish(
                    Event::SignerUpdated(SignerUpdatedEvent { new_pubkey: pubkey }),
                )
                &&& op.leaves(env).entries == env.entries.insert(
                    DataKey::Signer,
                    ValueView::Bytes(pubkey),
                )
            }
        }),
{
}

/// Handing over succeeds exactly for the stored administrator, and stores and announces the new
/// one.
pub proof fn law_set_admin_stores_the_new_admin(env: EnvView, current_admin: Address, new_admin: Address)
    ensures
        ({
            let op = Operation::SetAdmin { current_admin, new_admin };
            let done = op.effects(env);
            let obeyed = env.entries.get(DataKey::Admin) == Some(ValueView::Address(current_admin));
            &&& op.result(env) is Ok <==> obeyed
            &&& !obeyed ==> {
                &&& op.result(env) == Err::<(), Error>(Error::Unauthorized)
                &&& done.len() == 0
                &&& op.leaves(env).entries == env.entries
            }
            &&& obeyed ==> {
                &&& done.len() == 3
                &&& done[0] == EffectView::RequireAuth(current_admin)
                &&& done[1] == EffectView::Put(DataKey::Admin, ValueView::Address(new_admin))
                &&& done[2] == EffectView::Publish(
                    Event::AdminChanged(AdminChangedEvent { old_admin: current_admin, new_admin }),
                )
                &&& op.leaves(env).entries == env.entries.insert(
                    DataKey::Admin,
                    ValueView::Address(new_admin),
                )
            }
        }),
{
}

/// Upgrading succeeds exactly for the stored administrator, replaces the code by the given one, and
/// changes no entry.
pub proof fn law_upgrade_replaces_only_the_code(env: EnvView, admin: Address, new_wasm_hash: Bytes32)
    ensures
        ({
            let op = Operation::Upgrade { admin, new_wasm_hash };
            let done = op.effects(env);
            let obeyed = env.entries.get(DataKey::Admin) == Some(ValueView::Address(admin));
            &&& op.result(env) is Ok <==> obeyed
            &&& !obeyed ==> {
                &&& op.result(env) == Err::<(), Error>(Error::Unauthorized)
                &&& done.len() == 0
                &&& op.leaves(env).entries == env.entries
            }
            &&& obeyed ==> {
                &&& done.len() == 3
                &&& done[0] == EffectView::RequireAuth(admin)
                &&& done[1] == EffectView::UpdateWasm(new_wasm_hash)
                &&& done[2] == EffectView::Publish(Event::Upgraded(UpgradeEvent { new_wasm_hash }))
                &&& op.leaves(env).entries == env.entries
            }
        }),
{
}

/// Pausing succeeds exactly for the stored administrator, and sets the pause to become active 86400
/// seconds later, or at the last instant if there are not so many left.
pub proof fn law_pause_is_set_a_day_ahead(env: EnvView, admin: Address)
    ensures
        ({
            let op = Operation::Pause { admin };
            let done = op.effects(env);
            let obeyed = env.entries.get(DataKey::Admin) == Some(ValueView::Address(admin));
            let active_at: u64 = if env.timestamp + 86_400 <= u64::MAX {
                (env.timestamp + 86_400) as u64
            } else {
                u64::MAX
            };
            &&& op.result(env) is Ok <==> obeyed
            &&& !obeyed ==> {
                &&& op.result(env) == Err::<(), Error>(Error::Unauthorized)
                &&& done.len() == 0
                &&& op.leaves(env).entries == env.entries
            }
            &&& obeyed ==> {
                &&& done.len() == 4
                &&& done[0] == EffectView::RequireAuth(admin)
                &&& done[1] == EffectView::Put(DataKey::PauseUnlockTime, ValueView::U64(active_at))
                &&& done[2] == EffectView::Put(DataKey::Paused, ValueView::Bool(true))
                &&& done[3] == EffectView::Publish(
                    Event::PauseScheduled(PauseScheduledEvent { active_at }),
                )
                &&& op.leaves(env).entries == env.entries.insert(
                    DataKey::PauseUnlockTime,
                    ValueView::U64(active_at),
                ).insert(DataKey::Paused, ValueView::Bool(true))
            }
        }),
{
}

/// Unpausing succeeds exactly for the stored administrator, and leaves neither the flag set nor a
/// time of activation.
pub proof fn law_unpause_clears_the_pause(env: EnvView, admin: Address)
    ensures
        ({
            let op = Operation::Unpause { admin };
            let done = op.effects(env);
            let obeyed = env.entries.get(DataKey::Admin) == Some(ValueView::Address(admin));
            &&& op.result(env) is Ok <==> obeyed
            &&& !obeyed ==> {
                &&& op.result(env) == Err::<(), Error>(Error::Unauthorized)
                &&& done.len() == 0
                &&& op.leaves(env).entries == env.entries
            }
            &&& obeyed ==> {
                &&& done.len() == 4
                &&& done[0] == EffectView::RequireAuth(admin)
                &&& done[1] == EffectView::Put(DataKey::Paused, ValueView::Bool(false))
                &&& done[2] == EffectView::Remove(DataKey::PauseUnlockTime)
                &&& done[3] == EffectView::Publish(Event::Unpaused)
                &&& op.leaves(env).entries == env.entries.insert(
                    DataKey::Paused,
                    ValueView::Bool(false),
                ).remove(DataKey::PauseUnlockTime)
            }
        }),
{
}

/// Blacklisting succeeds exactly for the stored administrator, and sets and announces the flag of
/// that clip, and does nothing else.
pub proof fn law_blacklisting_sets_one_flag(env: EnvView, admin: Address, clip_id: u32)
    ensures
        ({
            let op = Operation::BlacklistClip { admin, clip_id };
            let done = op.effects(env);
            let obeyed = env.entries.get(DataKey::Admin) == Some(ValueView::Address(admin));
            &&& op.result(env) is Ok <==> obeyed
            &&& !obeyed ==> {
                &&& op.result(env) == Err::<(), Error>(Error::Unauthorized)
                &&& done.len() == 0
                &&& op.leaves(env).entries == env.entries
            }
            &&& obeyed ==> {
                &&& done.len() == 3
                &&& done[0] == EffectView::RequireAuth(admin)
                &&& done[1] == EffectView::Put(
                    DataKey::BlacklistedClip(clip_id),
                    ValueView::Bool(true),
                )
                &&& done[2] == EffectView::Publish(Event::Blacklisted(BlacklistEvent { clip_id }))
                &&& op.leaves(env).entries == env.entries.insert(
                    DataKey::BlacklistedClip(clip_id),
                    ValueView::Bool(true),
                )
            }
        }),
{
}

/// Requesting a withdrawal succeeds exactly for the stored administrator and a positive amount, and
/// stores and announces the amount and the time of its unlocking, 172800 seconds later, or the last
/// instant if there are not so many left.
pub proof fn law_request_is_stored_two_days_ahead(env: EnvView, admin: Address, amount: i128)
    ensures
        ({
            let op = Operation::RequestWithdrawAsset { admin, amount };
            let done = op.effects(env);
            let obeyed = env.entries.get(DataKey::Admin) == Some(ValueView::Address(admin));
            let unlock_time: u64 = if env.timestamp + 172_800 <= u64::MAX {
                (env.timestamp + 172_800) as u64
            } else {
                u64::MAX
            };
            &&& op.result(env) is Ok <==> obeyed && amount > 0
            &&& !obeyed ==> {
                &&& op.result(env) == Err::<(), Error>(Error::Unauthorized)
                &&& done.len() == 0
                &&& op.leaves(env).entries == env.entries
            }
            &&& obeyed && amount <= 0 ==> {
                &&& op.result(env) == Err::<(), Error>(Error::InvalidSalePrice)
                &&& done.len() == 1
                &&& done[0] == EffectView::RequireAuth(admin)
                &&& op.leaves(env).entries == env.entries
            }
            &&& obeyed && amount > 0 ==> {
                &&& done.len() == 3
                &&& done[0] == EffectView::RequireAuth(admin)
                &&& done[1] == EffectView::Put(
                    DataKey::WithdrawXlmRequest,
                    ValueView::Withdrawal(WithdrawRequest { amount, unlock_time }),
                )
                &&& done[2] == EffectView::Publish(
                    Event::WithdrawRequested(WithdrawRequestedEvent { amount, unlock_time }),
                )
                &&& op.leaves(env).entries == env.entries.insert(
                    DataKey::WithdrawXlmRequest,
                    ValueView::Withdrawal(WithdrawRequest { amount, unlock_time }),
                )
            }
        }),
{
}

/// A withdrawal goes through exactly if the stored administrator calls for the stored amount, not
/// before the stored time, while no lock is held. Of what is wrong the first of these is answered:
/// the caller, the lock, a missing request, the amount, the time.
pub proof fn law_withdrawal_obeys_the_stored_request(
    env: EnvView,
    admin: Address,
    asset: Address,
    amount: i128,
)
    ensures
        ({
            let op = Operation::WithdrawAsset { admin, asset, amount };
            if env.entries.get(DataKey::Admin) != Some(ValueView::Address(admin)) {
                op.result(env) == Err::<(), Error>(Error::Unauthorized)
            } else if env.entries.contains_key(DataKey::ReentrancyLock) {
                op.result(env) == Err::<(), Error>(Error::Reentrancy)
            } else {
                match env.entries.get(DataKey::WithdrawXlmRequest) {
                    Some(ValueView::Withdrawal(request)) => {
                        &&& op.result(env) is Ok <==> amount == request.amount
                            && request.unlock_time <= env.timestamp
                        &&& op.result(env) == Err::<(), Error>(Error::Unauthorized) <==> amount
                            != request.amount
                        &&& op.result(env) == Err::<(), Error>(Error::WithdrawalStillLocked)
                            <==> amount == request.amount && env.timestamp < request.unlock_time
                    },
                    _ => op.result(env) == Err::<(), Error>(Error::NoWithdrawalRequest),
                }
            }
        }),
{
}

/// A withdrawal that goes through takes the lock, clears the request, pays the amount to the
/// administrator, notes the time, announces what was paid, and releases the lock. One that does
/// not go through asks the administrator at most, and leaves the entries as they were.
pub proof fn law_withdrawal_pays_and_announces(
    env: EnvView,
    admin: Address,
    asset: Address,
    amount: i128,
)
    ensures
        ({
            let op = Operation::WithdrawAsset { admin, asset, amount };
            let done = op.effects(env);
            let lock = EffectView::Put(DataKey::ReentrancyLock, ValueView::Bool(true));
            &&& op.result(env) is Ok ==> {
                &&& done.len() == 7
                &&& done[0] == EffectView::RequireAuth(admin)
                &&& done[1] == lock
                &&& done[2] == EffectView::Remove(DataKey::WithdrawXlmRequest)
                &&& done[3] == (EffectView::Transfer {
                    asset,
                    from: env.contract,
                    to: admin,
                    amount,
                })
                &&& done[4] == EffectView::Put(
                    DataKey::LastWithdrawalTime,
                    ValueView::U64(env.timestamp),
                )
                &&& done[5] == EffectView::Publish(
                    Event::WithdrawExecuted(WithdrawExecutedEvent { amount, recipient: admin }),
                )
                &&& done[6] == EffectView::Remove(DataKey::ReentrancyLock)
                &&& op.leaves(env).entries == env.entries.remove(
                    DataKey::WithdrawXlmRequest,
                ).insert(DataKey::LastWithdrawalTime, ValueView::U64(env.timestamp))
            }
            &&& op.result(env) is Err ==> {
                &&& op.leaves(env).entries == env.entries
                &&& if env.entries.get(DataKey::Admin) != Some(ValueView::Address(admin)) {
                    done.len() == 0
                } else if env.entries.contains_key(DataKey::ReentrancyLock) {
                    done.len() == 1 && done[0] == EffectView::RequireAuth(admin)
                } else {
                    &&& done.len() == 3
                    &&& done[0] == EffectView::RequireAuth(admin)
                    &&& done[1] == lock
                    &&& done[2] == EffectView::Remove(DataKey::ReentrancyLock)
                }
            }
        }),
{
    let op = Operation::WithdrawAsset { admin, asset, amount };
    if op.result(env) is Ok {
        assert(op.leaves(env).entries =~= env.entries.remove(DataKey::WithdrawXlmRequest).insert(
            DataKey::LastWithdrawalTime,
            ValueView::U64(env.timestamp),
        ));
    } else {
        assert(op.leaves(env).entries =~= env.entries);
    }
}

/// Freezing succeeds exactly for the stored administrator and any token that is stored, whatever it
/// holds, and sets and announces the flag of that token.
pub proof fn law_freeze_sets_the_flag_of_any_stored_token(env: EnvView, admin: Address, token_id: TokenId)
    ensures
        ({
            let op = Operation::Freeze { admin, token_id };
            let done = op.effects(env);
            let obeyed = env.entries.get(DataKey::Admin) == Some(ValueView::Address(admin));
            let stored = env.entries.contains_key(DataKey::Token(token_id));
            &&& op.result(env) is Ok <==> obeyed && stored
            &&& !obeyed ==> {
                &&& op.result(env) == Err::<(), Error>(Error::Unauthorized)
                &&& done.len() == 0
                &&& op.leaves(env).entries == env.entries
            }
            &&& obeyed && !stored ==> {
                &&& op.result(env) == Err::<(), Error>(Error::InvalidTokenId)
                &&& done.len() == 1
                &&& done[0] == EffectView::RequireAuth(admin)
                &&& op.leaves(env).entries == env.entries
            }
            &&& obeyed && stored ==> {
                &&& done.len() == 3
                &&& done[0] == EffectView::RequireAuth(admin)
                &&& done[1] == EffectView::Put(DataKey::Frozen(token_id), ValueView::Bool(true))
                &&& done[2] == EffectView::Publish(Event::Frozen(TokenFrozenEvent { token_id }))
                &&& op.leaves(env).entries == env.entries.insert(
                    DataKey::Frozen(token_id),
                    ValueView::Bool(true),
                )
            }
        }),
{
}

/// Unfreezing succeeds exactly for the stored administrator and any token that is stored, whatever
/// it holds, and removes the flag of that token and announces it.
pub proof fn law_unfreeze_removes_the_flag_of_any_stored_token(env: EnvView, admin: Address, token_id: TokenId)
    ensures
        ({
            let op = Operation::Unfreeze { admin, token_id };
            let done = op.effects(env);
            let obeyed = env.entries.get(DataKey::Admin) == Some(ValueView::Address(admin));
            let stored = env.entries.contains_key(DataKey::Token(token_id));
            &&& op.result(env) is Ok <==> obeyed && stored
            &&& !obeyed ==> {
                &&& op.result(env) == Err::<(), Error>(Error::Unauthorized)
                &&& done.len() == 0
                &&& op.leaves(env).entries == env.entries
            }
            &&& obeyed && !stored ==> {
                &&& op.result(env) == Err::<(), Error>(Error::InvalidTokenId)
                &&& done.len() == 1
                &&& done[0] == EffectView::RequireAuth(admin)
                &&& op.leaves(env).entries == env.entries
            }
            &&& obeyed && stored ==> {
                &&& done.len() == 3
                &&& done[0] == EffectView::RequireAuth(admin)
                &&& done[1] == EffectView::Remove(DataKey::Frozen(token_id))
                &&& done[2] == EffectView::Publish(Event::Unfrozen(TokenUnfrozenEvent { token_id }))
                &&& op.leaves(env).entries == env.entries.remove(DataKey::Frozen(token_id))
            }
        }),
{
}

/// Revoking an approval succeeds exactly if a token is stored, whatever it holds. It asks the stored
/// owner, and removes and announces the approval if there is one.
pub proof fn law_revoke_approval_of_any_stored_token(env: EnvView, token_id: TokenId)
    ensures
        ({
            let op = Operation::RevokeApproval { token_id };
            let done = op.effects(env);
            match env.entries.get(DataKey::Token(token_id)) {
                Some(ValueView::Token(token)) => {
                    &&& op.result(env) is Ok
                    &&& done[0] == EffectView::RequireAuth(token.owner)
                    &&& env.entries.contains_key(DataKey::Approved(token_id)) ==> {
                        &&& done.len() == 3
                        &&& done[1] == EffectView::Remove(DataKey::Approved(token_id))
                        &&& done[2] == EffectView::Publish(
                            Event::Approval(
                                ApprovalEvent {
                                    owner: token.owner,
                                    operator: env.contract,
                                    token_id,
                                },
                            ),
                        )
                    }
                    &&& !env.entries.contains_key(DataKey::Approved(token_id)) ==> done.len() == 1
                    &&& op.leaves(env).entries == env.entries.remove(DataKey::Approved(token_id))
                },
                _ => {
                    &&& op.result(env) == Err::<(), Error>(Error::InvalidTokenId)
                    &&& done.len() == 0
                    &&& op.leaves(env).entries == env.entries
                },
            }
        }),
{
    let op = Operation::RevokeApproval { token_id };
    if env.entries.get(DataKey::Token(token_id)) matches Some(ValueView::Token(_)) {
        assert(op.leaves(env).entries =~= env.entries.remove(DataKey::Approved(token_id)));
    }
}

/// Revoking an operator always succeeds. It asks the caller, and removes and announces the approval
/// that the caller has given the operator, if there is one.
pub proof fn law_revoke_all_approvals_of_the_caller(
    env: EnvView,
    caller: Address,
    operator: Address,
)
    ensures
        ({
            let op = Operation::RevokeAllApprovals { caller, operator };
            let done = op.effects(env);
            let key = DataKey::ApprovalForAll(caller, operator);
            &&& op.result(env) is Ok
            &&& done[0] == EffectView::RequireAuth(caller)
            &&& env.entries.contains_key(key) ==> {
                &&& done.len() == 3
                &&& done[1] == EffectView::Remove(key)
                &&& done[2] == EffectView::Publish(
                    Event::ApprovalForAll(
                        ApprovalForAllEvent { owner: caller, operator, approved: false },
                    ),
                )
            }
            &&& !env.entries.contains_key(key) ==> done.len() == 1
            &&& op.leaves(env).entries == env.entries.remove(key)
        }),
{
    let op = Operation::RevokeAllApprovals { caller, operator };
    let key = DataKey::ApprovalForAll(caller, operator);
    assert(op.leaves(env).entries =~= env.entries.remove(key));
}

/// Burning succeeds exactly if a token is stored, whatever it holds, and its freeze flag is not set.
/// It asks the stored owner, and ends by removing the token, the guard of its clip, its approval and
/// its metadata entries, and announcing that.
pub proof fn law_burn_removes_any_stored_token(
    env: EnvView,
    token_id: TokenId,
    refund_royalty: bool,
)
    ensures
        ({
            let op = Operation::Burn { token_id, refund_royalty };
            let done = op.effects(env);
            let n = done.len();
            match env.entries.get(DataKey::Token(token_id)) {
                Some(ValueView::Token(token)) => {
                    if env.entries.get(DataKey::Frozen(token_id)) == Some(ValueView::Bool(true)) {
                        &&& op.result(env) == Err::<(), Error>(Error::TokenFrozen)
                        &&& n == 1
                        &&& done[0] == EffectView::RequireAuth(token.owner)
                        &&& op.leaves(env).entries == env.entries
                    } else {
                        &&& op.result(env) is Ok
                        &&& n >= 8
                        &&& done[0] == EffectView::RequireAuth(token.owner)
                        &&& done[n - 7] == EffectView::Remove(DataKey::Token(token_id))
                        &&& done[n - 6] == EffectView::Remove(DataKey::ClipIdMinted(token.clip_id))
                        &&& done[n - 5] == EffectView::Remove(DataKey::Approved(token_id))
                        &&& done[n - 4] == EffectView::Remove(DataKey::CustomTokenUri(token_id))
                        &&& done[n - 3] == EffectView::Remove(
                            DataKey::MetadataUpdateCount(token_id),
                        )
                        &&& done[n - 2] == EffectView::Remove(
                            DataKey::MetadataRefreshTime(token_id),
                        )
                        &&& done[n - 1] == EffectView::Publish(
                            Event::Burned(
                                BurnEvent { owner: token.owner, token_id, clip_id: token.clip_id },
                            ),
                        )
                    }
                },
                _ => {
                    &&& op.result(env) == Err::<(), Error>(Error::InvalidTokenId)
                    &&& n == 0
                    &&& op.leaves(env).entries == env.entries
                },
            }
        }),
{
}

/// Between asking the owner and removing the token, burning with a refund pays out the stored
/// balance, whole, to the first stored recipient, in the stored asset (the native one if none is
/// stored), announces just that, and removes the balance. A balance that is not positive, or that
/// nobody is to receive, is removed without a payment. Without a refund, or without a stored
/// balance, nothing comes between.
pub proof fn law_burn_refunds_the_stored_balance(
    env: EnvView,
    token_id: TokenId,
    refund_royalty: bool,
)
    requires
        env.entries.get(DataKey::Token(token_id)) matches Some(ValueView::Token(_)),
        env.entries.get(DataKey::Frozen(token_id)) != Some(ValueView::Bool(true)),
    ensures
        ({
            let done = (Operation::Burn { token_id, refund_royalty }).effects(env);
            let royalty = env.entries[DataKey::Token(token_id)]->Token_0.royalty;
            let clear = EffectView::Remove(DataKey::RoyaltyBalance(token_id));
            match env.entries.get(DataKey::RoyaltyBalance(token_id)) {
                Some(ValueView::I128(balance)) if refund_royalty && balance > 0
                    && royalty.recipients.len() > 0 => {
                    let creator = royalty.recipients[0].recipient;
                    &&& done.len() == 11
                    &&& royalty.asset_address matches Some(asset) ==> done[1]
                        == (EffectView::Transfer {
                        asset,
                        from: env.contract,
                        to: creator,
                        amount: balance,
                    })
                    &&& royalty.asset_address is None ==> done[1] == (EffectView::TransferNative {
                        from: env.contract,
                        to: creator,
                        amount: balance,
                    })
                    &&& done[2] == EffectView::Publish(
                        Event::Refunded(
                            RefundedEvent { token_id, recipient: creator, amount: balance },
                        ),
                    )
                    &&& done[3] == clear
                },
                Some(_) if refund_royalty => done.len() == 9 && done[1] == clear,
                _ => done.len() == 8,
            }
        }),
{
}

/// After burning, the entries of the token and the guard of its clip are gone, and the balance if a
/// refund was asked for. Every other entry is as it was.
#[verifier::rlimit(40)]
pub proof fn law_burn_leaves_the_other_entries(
    env: EnvView,
    token_id: TokenId,
    refund_royalty: bool,
    key: DataKey,
)
    requires
        env.entries.get(DataKey::Token(token_id)) matches Some(ValueView::Token(_)),
        env.entries.get(DataKey::Frozen(token_id)) != Some(ValueView::Bool(true)),
    ensures
        ({
            let after = (Operation::Burn { token_id, refund_royalty }).leaves(env).entries;
            let token = env.entries[DataKey::Token(token_id)]->Token_0;
            if key == DataKey::Token(token_id) || key == DataKey::ClipIdMinted(token.clip_id) || key
                == DataKey::Approved(token_id) || key == DataKey::CustomTokenUri(token_id) || key
                == DataKey::MetadataUpdateCount(token_id) || key == DataKey::MetadataRefreshTime(
                token_id,
            ) || (refund_royalty && key == DataKey::RoyaltyBalance(token_id)) {
                !after.contains_key(key)
            } else {
                after.get(key) == env.entries.get(key)
            }
        }),
{
}

} // verus!
