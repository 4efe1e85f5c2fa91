//! What each kind of effect may come from, and what calls do not depend on.

use crate::env::{EffectView, EnvView};
use crate::error::Error;
use crate::event::{Event, WithdrawExecutedEvent};
use crate::key::DataKey;
use crate::operation::Operation;
use crate::types::TokenId;
use crate::value::ValueView;
use vstd::prelude::*;

verus! {

/// The code is replaced only by an upgrade, by the code that the upgrade names, and once.
pub proof fn law_code_is_replaced_only_by_upgrade(op: Operation, env: EnvView, i: int)
    requires
        0 <= i < op.effects(env).len(),
        op.effects(env)[i] is UpdateWasm,
    ensures
        op is Upgrade,
        op.effects(env)[i] == EffectView::UpdateWasm(op->Upgrade_new_wasm_hash),
        env.entries.get(DataKey::Admin) == Some(ValueView::Address(op->Upgrade_admin)),
        i == 1,
{
}

/// Every withdrawal that goes through is announced, at whatever time it is made: it publishes one
/// event, which reports the amount paid and the administrator who received it.
pub proof fn law_every_withdrawal_is_announced_once(op: Operation, env: EnvView)
    requires
        op is WithdrawAsset,
        op.result(env) is Ok,
    ensures
        exists|i: int|
            {
                &&& 0 <= i < op.effects(env).len()
                &&& #[trigger] op.effects(env)[i] == EffectView::Publish(
                    Event::WithdrawExecuted(
                        WithdrawExecutedEvent {
                            amount: op->WithdrawAsset_amount,
                            recipient: op->WithdrawAsset_admin,
                        },
                    ),
                )
                &&& forall|j: int|
                    0 <= j < op.effects(env).len() && #[trigger] op.effects(env)[j] is Publish
                        ==> j == i
            },
{
    assert(op.effects(env)[5] is Publish);
}

/// What is announced has happened: an event comes only from a call that succeeds, only from the
/// call that it is about, and a withdrawal or a refund is announced only next to its payment of
/// the same amount to the same address.
pub proof fn law_events_come_from_their_calls(op: Operation, env: EnvView, i: int)
    requires
        0 <= i < op.effects(env).len(),
        op.effects(env)[i] is Publish,
    ensures
        op.result(env) is Ok,
        !(op is Init),
        match op.effects(env)[i]->Publish_0 {
            Event::SignerUpdated(event) => op is SetSigner && event.new_pubkey
                == op->SetSigner_pubkey,
            Event::AdminChanged(event) => op is SetAdmin && event.old_admin
                == op->current_admin && event.new_admin == op->new_admin,
            Event::Upgraded(event) => op is Upgrade && event.new_wasm_hash
                == op->Upgrade_new_wasm_hash,
            Event::PauseScheduled(event) => op is Pause && op.effects(env)[i - 2]
                == EffectView::Put(DataKey::PauseUnlockTime, ValueView::U64(event.active_at)),
            Event::Unpaused => op is Unpause,
            Event::WithdrawRequested(event) => op is RequestWithdrawAsset && event.amount
                == op->RequestWithdrawAsset_amount && event.amount > 0,
            Event::WithdrawExecuted(event) => op is WithdrawAsset && op.effects(env)[i - 2]
                == (EffectView::Transfer {
                asset: op->WithdrawAsset_asset,
                from: env.contract,
                to: event.recipient,
                amount: event.amount,
            }),
            Event::Blacklisted(event) => op is BlacklistClip && event.clip_id
                == op->BlacklistClip_clip_id,
            Event::Frozen(event) => op is Freeze && event.token_id == op->Freeze_token_id,
            Event::Unfrozen(event) => op is Unfreeze && event.token_id == op->Unfreeze_token_id,
            Event::Approval(event) => op is RevokeApproval && event.token_id
                == op->RevokeApproval_token_id && op.effects(env)[0] == EffectView::RequireAuth(
                event.owner,
            ),
            Event::ApprovalForAll(event) => op is RevokeAllApprovals && !event.approved
                && op.effects(env)[0] == EffectView::RequireAuth(event.owner),
            Event::Refunded(event) => op is Burn && event.token_id == op->Burn_token_id
                && event.amount > 0 && env.entries.get(DataKey::RoyaltyBalance(event.token_id))
                == Some(ValueView::I128(event.amount)) && match op.effects(env)[i - 1] {
                EffectView::Transfer { from, to, amount, .. } => from == env.contract && to
                    == event.recipient && amount == event.amount,
                EffectView::TransferNative { from, to, amount } => from == env.contract && to
                    == event.recipient && amount == event.amount,
                _ => false,
            },
            Event::Burned(event) => op is Burn && event.token_id == op->Burn_token_id
                && op.effects(env)[0] == EffectView::RequireAuth(event.owner),
        },
{
}

/// Every call that succeeds ends by announcing what it was for, except that a withdrawal still
/// releases the lock after that, that initialization announces nothing, and that neither does
/// revoking an approval that was not given.
pub proof fn law_success_is_announced_last(op: Operation, env: EnvView)
    requires
        op.result(env) is Ok,
    ensures
        ({
            let done = op.effects(env);
            match op {
                Operation::Init { .. } => true,
                Operation::WithdrawAsset { .. } => {
                    &&& done[done.len() - 2] is Publish
                    &&& done.last() == EffectView::Remove(DataKey::ReentrancyLock)
                },
                Operation::RevokeApproval { token_id } => done.last() is Publish
                    <==> env.entries.contains_key(DataKey::Approved(token_id)),
                Operation::RevokeAllApprovals { caller, operator } => done.last() is Publish
                    <==> env.entries.contains_key(DataKey::ApprovalForAll(caller, operator)),
                _ => done.last() is Publish,
            }
        }),
{
}

/// A withdrawal makes one payment, and so does burning with a refund where a positive balance is
/// stored and somebody is to receive it. No other call makes any.
pub proof fn law_payments_are_single(op: Operation, env: EnvView, i: int)
    requires
        0 <= i < op.effects(env).len(),
        op.effects(env)[i] is Transfer || op.effects(env)[i] is TransferNative,
    ensures
        op is WithdrawAsset ==> i == 3 && op.effects(env)[i] is Transfer,
        op is Burn ==> i == 1 && op->refund_royalty,
        op is WithdrawAsset || op is Burn,
{
}

/// A value is put only where the call is about that entry: burning and revoking put nothing, and
/// only a withdrawal puts the lock.
pub proof fn law_values_are_put_by_their_calls(op: Operation, env: EnvView, i: int)
    requires
        0 <= i < op.effects(env).len(),
        op.effects(env)[i] is Put,
    ensures
        match op.effects(env)[i]->Put_0 {
            DataKey::Admin => op is Init || op is SetAdmin,
            DataKey::Paused => op is Init || op is Pause || op is Unpause,
            DataKey::PauseUnlockTime => op is Pause,
            DataKey::Signer => op is SetSigner,
            DataKey::WithdrawXlmRequest => op is RequestWithdrawAsset,
            DataKey::LastWithdrawalTime | DataKey::ReentrancyLock => op is WithdrawAsset,
            DataKey::BlacklistedClip(clip_id) => op is BlacklistClip && clip_id
                == op->BlacklistClip_clip_id,
            DataKey::Frozen(token_id) => op is Freeze && token_id == op->Freeze_token_id,
            DataKey::NextTokenId
            | DataKey::PlatformRecipient
            | DataKey::Name
            | DataKey::Symbol
            | DataKey::MintCooldownSeconds => op is Init,
            _ => false,
        },
{
}

/// Of a stored token, only its owner, its clip and its royalties decide what a call answers and
/// does. Two ledgers that differ in nothing but the texts, the pictures, the attributes and the
/// bond of their tokens are treated alike.
pub proof fn law_metadata_decides_nothing(op: Operation, a: EnvView, b: EnvView)
    requires
        a.timestamp == b.timestamp,
        a.contract == b.contract,
        forall|key: DataKey|
            !(key is Token) ==> #[trigger] a.entries.get(key) == b.entries.get(key),
        forall|id: TokenId|
            match (#[trigger] a.entries.get(DataKey::Token(id)), b.entries.get(DataKey::Token(id))) {
                (Some(ValueView::Token(s)), Some(ValueView::Token(t))) => s.owner == t.owner
                    && s.clip_id == t.clip_id && s.royalty == t.royalty,
                (s, t) => s == t,
            },
    ensures
        op.result(a) == op.result(b),
        op.effects(a) == op.effects(b),
{
    match op {
        Operation::Freeze { token_id, .. }
        | Operation::Unfreeze { token_id, .. }
        | Operation::RevokeApproval { token_id }
        | Operation::Burn { token_id, .. } => {
            assert(a.entries.get(DataKey::Token(token_id)) is Some == b.entries.get(
                DataKey::Token(token_id),
            ) is Some);
            assert(a.entries.get(DataKey::Admin) == b.entries.get(DataKey::Admin));
            assert(a.entries.get(DataKey::Frozen(token_id)) == b.entries.get(
                DataKey::Frozen(token_id),
            ));
            assert(a.entries.get(DataKey::Approved(token_id)) == b.entries.get(
                DataKey::Approved(token_id),
            ));
            assert(a.entries.get(DataKey::RoyaltyBalance(token_id)) == b.entries.get(
                DataKey::RoyaltyBalance(token_id),
            ));
        },
        Operation::RevokeAllApprovals { caller, operator } => {
            let key = DataKey::ApprovalForAll(caller, operator);
            assert(a.entries.get(key) == b.entries.get(key));
        },
        _ => {
            assert(a.entries.get(DataKey::Admin) == b.entries.get(DataKey::Admin));
            assert(a.entries.get(DataKey::ReentrancyLock) == b.entries.get(
                DataKey::ReentrancyLock,
            ));
            assert(a.entries.get(DataKey::WithdrawXlmRequest) == b.entries.get(
                DataKey::WithdrawXlmRequest,
            ));
        },
    }
}

/// Time decides only what pausing and requesting store, whether a withdrawal is unlocked, and when
/// it was made. Every other call answers and does the same at all times.
pub proof fn law_time_decides_only_delays(op: Operation, a: EnvView, b: EnvView)
    requires
        a.contract == b.contract,
        a.entries == b.entries,
    ensures
        !(op is WithdrawAsset) ==> op.result(a) == op.result(b),
        !(op is WithdrawAsset) && !(op is Pause) && !(op is RequestWithdrawAsset) ==> op.effects(a)
            == op.effects(b),
        op is WithdrawAsset && op.result(a) is Ok && a.timestamp <= b.timestamp ==> op.result(
            b,
        ) is Ok,
        op is WithdrawAsset && op.result(a) is Err && op.result(a) != Err::<(), Error>(
            Error::WithdrawalStillLocked,
        ) ==> op.result(b) == op.result(a),
        op.effects(a).len() == op.effects(b).len() || op is WithdrawAsset,
{
}

} // verus!
