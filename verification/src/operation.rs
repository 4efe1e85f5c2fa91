//! What each contract call does: its result and its effects, given the environment it meets.

use crate::contract::{
    DEFAULT_MINT_COOLDOWN_SECONDS, PAUSE_DELAY_SECONDS, WITHDRAWAL_DELAY_SECONDS,
};
use crate::env::{EffectView, EnvView};
use crate::error::Error;
use crate::event::{
    AdminChangedEvent, ApprovalEvent, ApprovalForAllEvent, BlacklistEvent, BurnEvent, Event,
    PauseScheduledEvent, RefundedEvent, SignerUpdatedEvent, TokenFrozenEvent, TokenUnfrozenEvent,
    UpgradeEvent, WithdrawExecutedEvent, WithdrawRequestedEvent,
};
use crate::key::DataKey;
use crate::types::{Address, Bytes32, TokenId, TokenView, WithdrawRequest};
use crate::value::ValueView;
use vstd::prelude::*;

verus! {

/// A contract call that may change the ledger, with its arguments.
#[derive(Copy, Clone, Debug, Eq, PartialEq, Structural)]
pub enum Operation {
    Init { admin: Address },
    SetSigner { admin: Address, pubkey: Bytes32 },
    SetAdmin { current_admin: Address, new_admin: Address },
    Upgrade { admin: Address, new_wasm_hash: Bytes32 },
    Pause { admin: Address },
    Unpause { admin: Address },
    RequestWithdrawAsset { admin: Address, amount: i128 },
    WithdrawAsset { admin: Address, asset: Address, amount: i128 },
    BlacklistClip { admin: Address, clip_id: u32 },
    Freeze { admin: Address, token_id: TokenId },
    Unfreeze { admin: Address, token_id: TokenId },
    RevokeApproval { token_id: TokenId },
    RevokeAllApprovals { caller: Address, operator: Address },
    Burn { token_id: TokenId, refund_royalty: bool },
}

/// A contract call that only reads the ledger, with its arguments.
#[derive(Copy, Clone, Debug, Eq, PartialEq, Structural)]
pub enum Query {
    GetSigner,
    IsPaused,
    PauseActiveAt,
    IsFrozen { token_id: TokenId },
}

/// A call begins by demanding that an address has authorized it.
pub open spec fn demand(address: Address) -> Seq<EffectView> {
    seq![EffectView::RequireAuth(address)]
}

/// A value is put under a key.
pub open spec fn put(key: DataKey, value: ValueView) -> EffectView {
    EffectView::Put(key, value)
}

/// An event is published.
pub open spec fn publish(event: Event) -> EffectView {
    EffectView::Publish(event)
}

/// An amount is paid, in a token asset if one is given, and in the native asset otherwise.
pub open spec fn pay(
    asset: Option<Address>,
    from: Address,
    to: Address,
    amount: i128,
) -> EffectView {
    match asset {
        Some(asset) => EffectView::Transfer { asset, from, to, amount },
        None => EffectView::TransferNative { from, to, amount },
    }
}

/// Whether an address is the administrator.
pub open spec fn is_admin(env: EnvView, address: Address) -> bool {
    env.address(DataKey::Admin) == Some(address)
}

/// Whether the contract is paused: a pause is set, and its timelock has elapsed.
pub open spec fn paused(env: EnvView) -> bool {
    &&& env.flag(DataKey::Paused)
    &&& env.time(DataKey::PauseUnlockTime) matches Some(active_at) ==> env.timestamp >= active_at
}

/// What taking the reentrancy lock answers.
pub open spec fn lock_result(env: EnvView) -> Result<(), Error> {
    if env.has(DataKey::ReentrancyLock) {
        Err(Error::Reentrancy)
    } else {
        Ok(())
    }
}

/// The environment once the reentrancy lock has been asked for: held, if it was free.
pub open spec fn locked(env: EnvView) -> EnvView {
    if env.has(DataKey::ReentrancyLock) {
        env
    } else {
        env.with(put(DataKey::ReentrancyLock, ValueView::Bool(true)))
    }
}

/// The environment once the reentrancy lock has been released.
pub open spec fn unlocked(env: EnvView) -> EnvView {
    env.with(EffectView::Remove(DataKey::ReentrancyLock))
}

/// What a withdrawal answers once the caller is known to be the administrator and holds the lock.
pub open spec fn withdrawal_result(env: EnvView, amount: i128) -> Result<(), Error> {
    match env.withdrawal() {
        None => Err(Error::NoWithdrawalRequest),
        Some(request) => if amount != request.amount {
            Err(Error::Unauthorized)
        } else if env.timestamp < request.unlock_time {
            Err(Error::WithdrawalStillLocked)
        } else {
            Ok(())
        },
    }
}

/// What a withdrawal does between taking and releasing the lock.
pub open spec fn withdrawal_effects(
    env: EnvView,
    admin: Address,
    asset: Address,
    amount: i128,
) -> Seq<EffectView> {
    if withdrawal_result(env, amount) is Ok {
        seq![EffectView::Remove(DataKey::WithdrawXlmRequest)]
            .push(EffectView::Transfer { asset, from: env.contract, to: admin, amount })
            .push(put(DataKey::LastWithdrawalTime, ValueView::U64(env.timestamp)))
            .push(publish(Event::WithdrawExecuted(
                WithdrawExecutedEvent { amount, recipient: admin },
            )))
    } else {
        Seq::empty()
    }
}

/// The royalties that burning a token refunds: who gets them, and how much.
///
/// There is a refund if it is asked for, the token has accrued a positive balance, and the token
/// has a royalty recipient: the first one gets it.
pub open spec fn refund(
    env: EnvView,
    token_id: TokenId,
    token: TokenView,
    refund_royalty: bool,
) -> Option<(Address, i128)> {
    match env.amount(DataKey::RoyaltyBalance(token_id)) {
        Some(balance) if refund_royalty && balance > 0 && token.royalty.recipients.len() > 0 =>
            Some((token.royalty.recipients[0].recipient, balance)),
        _ => None,
    }
}

/// What burning a token does about its accrued royalties. The refund is paid in the asset that the
/// royalties are in: the native one, unless the token names another.
pub open spec fn refund_effects(
    env: EnvView,
    token_id: TokenId,
    token: TokenView,
    refund_royalty: bool,
) -> Seq<EffectView> {
    let payment = match refund(env, token_id, token, refund_royalty) {
        None => Seq::empty(),
        Some((recipient, amount)) => {
            seq![pay(token.royalty.asset_address, env.contract, recipient, amount)]
                .push(publish(Event::Refunded(RefundedEvent { token_id, recipient, amount })))
        },
    };
    if refund_royalty && env.has(DataKey::RoyaltyBalance(token_id)) {
        payment.push(EffectView::Remove(DataKey::RoyaltyBalance(token_id)))
    } else {
        payment
    }
}

/// How burning a token clears its entries.
pub open spec fn clearing_effects(token_id: TokenId, token: TokenView) -> Seq<EffectView> {
    seq![EffectView::Remove(DataKey::Token(token_id))]
        .push(EffectView::Remove(DataKey::ClipIdMinted(token.clip_id)))
        .push(EffectView::Remove(DataKey::Approved(token_id)))
        .push(EffectView::Remove(DataKey::CustomTokenUri(token_id)))
        .push(EffectView::Remove(DataKey::MetadataUpdateCount(token_id)))
        .push(EffectView::Remove(DataKey::MetadataRefreshTime(token_id)))
        .push(publish(Event::Burned(
            BurnEvent { owner: token.owner, token_id, clip_id: token.clip_id },
        )))
}

/// Whether burning a token leaves no entry under a key.
pub open spec fn burn_erases(
    token_id: TokenId,
    clip_id: u32,
    refund_royalty: bool,
    key: DataKey,
) -> bool {
    ||| key == DataKey::Token(token_id)
    ||| key == DataKey::ClipIdMinted(clip_id)
    ||| key == DataKey::Approved(token_id)
    ||| key == DataKey::CustomTokenUri(token_id)
    ||| key == DataKey::MetadataUpdateCount(token_id)
    ||| key == DataKey::MetadataRefreshTime(token_id)
    ||| refund_royalty && key == DataKey::RoyaltyBalance(token_id)
}

impl Operation {
    /// Whether the operation may be called: the contract is initialized at most once.
    pub open spec fn allowed(self, env: EnvView) -> bool {
        self is Init ==> !env.has(DataKey::Admin)
    }

    /// The administrator that a privileged operation is called as.
    pub open spec fn claimed_admin(self) -> Option<Address> {
        match self {
            Operation::SetSigner { admin, .. } => Some(admin),
            Operation::SetAdmin { current_admin, .. } => Some(current_admin),
            Operation::Upgrade { admin, .. } => Some(admin),
            Operation::Pause { admin } => Some(admin),
            Operation::Unpause { admin } => Some(admin),
            Operation::RequestWithdrawAsset { admin, .. } => Some(admin),
            Operation::WithdrawAsset { admin, .. } => Some(admin),
            Operation::BlacklistClip { admin, .. } => Some(admin),
            Operation::Freeze { admin, .. } => Some(admin),
            Operation::Unfreeze { admin, .. } => Some(admin),
            _ => None,
        }
    }

    /// Whether a privileged operation is called as someone who is not the administrator.
    pub open spec fn refused(self, env: EnvView) -> bool {
        self.claimed_admin() matches Some(admin) && !is_admin(env, admin)
    }

    /// What the operation answers.
    pub open spec fn result(self, env: EnvView) -> Result<(), Error> {
        if self.refused(env) {
            Err(Error::Unauthorized)
        } else {
            match self {
                Operation::RequestWithdrawAsset { amount, .. } => if amount <= 0 {
                    Err(Error::InvalidSalePrice)
                } else {
                    Ok(())
                },
                Operation::WithdrawAsset { amount, .. } => if env.has(DataKey::ReentrancyLock) {
                    Err(Error::Reentrancy)
                } else {
                    withdrawal_result(env, amount)
                },
                Operation::Freeze { token_id, .. } | Operation::Unfreeze { token_id, .. } =>
                    if env.has(DataKey::Token(token_id)) {
                        Ok(())
                    } else {
                        Err(Error::InvalidTokenId)
                    },
                Operation::RevokeApproval { token_id } => if env.token(token_id) is Some {
                    Ok(())
                } else {
                    Err(Error::InvalidTokenId)
                },
                Operation::Burn { token_id, .. } => if env.token(token_id) is None {
                    Err(Error::InvalidTokenId)
                } else if env.flag(DataKey::Frozen(token_id)) {
                    Err(Error::TokenFrozen)
                } else {
                    Ok(())
                },
                _ => Ok(()),
            }
        }
    }

    /// What the operation does, in order.
    pub open spec fn effects(self, env: EnvView) -> Seq<EffectView> {
        if self.refused(env) {
            Seq::empty()
        } else {
            match self {
                Operation::Init { admin } => demand(admin)
                    .push(put(DataKey::Admin, ValueView::Address(admin)))
                    .push(put(DataKey::NextTokenId, ValueView::U32(1)))
                    .push(put(DataKey::Paused, ValueView::Bool(false)))
                    .push(put(DataKey::PlatformRecipient, ValueView::Address(admin)))
                    .push(put(DataKey::Name, ValueView::Text("ClipCash Clips"@)))
                    .push(put(DataKey::Symbol, ValueView::Text("CLIP"@)))
                    .push(put(
                        DataKey::MintCooldownSeconds,
                        ValueView::U64(DEFAULT_MINT_COOLDOWN_SECONDS),
                    )),
                Operation::SetSigner { admin, pubkey } => demand(admin)
                    .push(put(DataKey::Signer, ValueView::Bytes(pubkey)))
                    .push(publish(Event::SignerUpdated(
                        SignerUpdatedEvent { new_pubkey: pubkey },
                    ))),
                Operation::SetAdmin { current_admin, new_admin } => demand(current_admin)
                    .push(put(DataKey::Admin, ValueView::Address(new_admin)))
                    .push(publish(Event::AdminChanged(
                        AdminChangedEvent { old_admin: current_admin, new_admin },
                    ))),
                Operation::Upgrade { admin, new_wasm_hash } => demand(admin)
                    .push(EffectView::UpdateWasm(new_wasm_hash))
                    .push(publish(Event::Upgraded(UpgradeEvent { new_wasm_hash }))),
                Operation::Pause { admin } => {
                    let active_at = env.timestamp.saturating_add(PAUSE_DELAY_SECONDS);
                    demand(admin)
                        .push(put(DataKey::PauseUnlockTime, ValueView::U64(active_at)))
                        .push(put(DataKey::Paused, ValueView::Bool(true)))
                        .push(publish(Event::PauseScheduled(PauseScheduledEvent { active_at })))
                },
                Operation::Unpause { admin } => demand(admin)
                    .push(put(DataKey::Paused, ValueView::Bool(false)))
                    .push(EffectView::Remove(DataKey::PauseUnlockTime))
                    .push(publish(Event::Unpaused)),
                Operation::RequestWithdrawAsset { admin, amount } => if amount <= 0 {
                    demand(admin)
                } else {
                    let unlock_time = env.timestamp.saturating_add(WITHDRAWAL_DELAY_SECONDS);
                    demand(admin)
                        .push(put(
                            DataKey::WithdrawXlmRequest,
                            ValueView::Withdrawal(WithdrawRequest { amount, unlock_time }),
                        ))
                        .push(publish(Event::WithdrawRequested(
                            WithdrawRequestedEvent { amount, unlock_time },
                        )))
                },
                Operation::WithdrawAsset { admin, asset, amount } =>
                    if env.has(DataKey::ReentrancyLock) {
                        demand(admin)
                    } else {
                        (demand(admin).push(put(DataKey::ReentrancyLock, ValueView::Bool(true)))
                            + withdrawal_effects(env, admin, asset, amount))
                            .push(EffectView::Remove(DataKey::ReentrancyLock))
                    },
                Operation::BlacklistClip { admin, clip_id } => demand(admin)
                    .push(put(DataKey::BlacklistedClip(clip_id), ValueView::Bool(true)))
                    .push(publish(Event::Blacklisted(BlacklistEvent { clip_id }))),
                Operation::Freeze { admin, token_id } =>
                    if !env.has(DataKey::Token(token_id)) {
                        demand(admin)
                    } else {
                        demand(admin)
                            .push(put(DataKey::Frozen(token_id), ValueView::Bool(true)))
                            .push(publish(Event::Frozen(TokenFrozenEvent { token_id })))
                    },
                Operation::Unfreeze { admin, token_id } =>
                    if !env.has(DataKey::Token(token_id)) {
                        demand(admin)
                    } else {
                        demand(admin)
                            .push(EffectView::Remove(DataKey::Frozen(token_id)))
                            .push(publish(Event::Unfrozen(TokenUnfrozenEvent { token_id })))
                    },
                Operation::RevokeApproval { token_id } => match env.token(token_id) {
                    None => Seq::empty(),
                    Some(token) => if !env.has(DataKey::Approved(token_id)) {
                        demand(token.owner)
                    } else {
                        demand(token.owner)
                            .push(EffectView::Remove(DataKey::Approved(token_id)))
                            .push(publish(Event::Approval(
                                ApprovalEvent {
                                    owner: token.owner,
                                    operator: env.contract,
                                    token_id,
                                },
                            )))
                    },
                },
                Operation::RevokeAllApprovals { caller, operator } => {
                    let key = DataKey::ApprovalForAll(caller, operator);
                    if !env.has(key) {
                        demand(caller)
                    } else {
                        demand(caller)
                            .push(EffectView::Remove(key))
                            .push(publish(Event::ApprovalForAll(
                                ApprovalForAllEvent { owner: caller, operator, approved: false },
                            )))
                    }
                },
                Operation::Burn { token_id, refund_royalty } => match env.token(token_id) {
                    None => Seq::empty(),
                    Some(token) => if env.flag(DataKey::Frozen(token_id)) {
                        demand(token.owner)
                    } else {
                        demand(token.owner)
                            + refund_effects(env, token_id, token, refund_royalty)
                            + clearing_effects(token_id, token)
                    },
                },
            }
        }
    }

    /// The environment that the operation leaves.
    pub open spec fn leaves(self, env: EnvView) -> EnvView {
        env.after(self.effects(env))
    }

    /// Whether the operation may change the entry under a key.
    pub open spec fn touches(self, env: EnvView, key: DataKey) -> bool {
        match self {
            Operation::Init { .. } => {
                ||| key == DataKey::Admin
                ||| key == DataKey::NextTokenId
                ||| key == DataKey::Paused
                ||| key == DataKey::PlatformRecipient
                ||| key == DataKey::Name
                ||| key == DataKey::Symbol
                ||| key == DataKey::MintCooldownSeconds
            },
            Operation::SetSigner { .. } => key == DataKey::Signer,
            Operation::SetAdmin { .. } => key == DataKey::Admin,
            Operation::Upgrade { .. } => false,
            Operation::Pause { .. } | Operation::Unpause { .. } => {
                ||| key == DataKey::Paused
                ||| key == DataKey::PauseUnlockTime
            },
            Operation::RequestWithdrawAsset { .. } => key == DataKey::WithdrawXlmRequest,
            Operation::WithdrawAsset { .. } => {
                ||| key == DataKey::WithdrawXlmRequest
                ||| key == DataKey::LastWithdrawalTime
            },
            Operation::BlacklistClip { clip_id, .. } => key == DataKey::BlacklistedClip(clip_id),
            Operation::Freeze { token_id, .. } | Operation::Unfreeze { token_id, .. } => key
                == DataKey::Frozen(token_id),
            Operation::RevokeApproval { token_id } => key == DataKey::Approved(token_id),
            Operation::RevokeAllApprovals { caller, operator } => key == DataKey::ApprovalForAll(
                caller,
                operator,
            ),
            Operation::Burn { token_id, refund_royalty } => {
                &&& env.token(token_id) matches Some(token)
                &&& !env.flag(DataKey::Frozen(token_id))
                &&& burn_erases(token_id, token.clip_id, refund_royalty, key)
            },
        }
    }

    /// The keys of the entries that the operation may read.
    pub open spec fn spec_reads(self) -> Seq<DataKey> {
        match self {
            Operation::WithdrawAsset { .. } => seq![
                DataKey::Admin,
                DataKey::ReentrancyLock,
                DataKey::WithdrawXlmRequest,
            ],
            Operation::Freeze { token_id, .. } | Operation::Unfreeze { token_id, .. } => seq![
                DataKey::Admin,
                DataKey::Token(token_id),
            ],
            Operation::RevokeApproval { token_id } => seq![
                DataKey::Token(token_id),
                DataKey::Approved(token_id),
            ],
            Operation::RevokeAllApprovals { caller, operator } => seq![
                DataKey::ApprovalForAll(caller, operator),
            ],
            Operation::Burn { token_id, refund_royalty } => if refund_royalty {
                seq![
                    DataKey::Token(token_id),
                    DataKey::Frozen(token_id),
                    DataKey::RoyaltyBalance(token_id),
                ]
            } else {
                seq![DataKey::Token(token_id), DataKey::Frozen(token_id)]
            },
            _ => seq![DataKey::Admin],
        }
    }

    /// Returns the keys of the entries that the operation may read: those to load before it.
    pub fn reads(&self) -> (keys: Vec<DataKey>)
        ensures
            keys@ == self.spec_reads(),
    {
        match *self {
            Operation::WithdrawAsset { .. } => vec![
                DataKey::Admin,
                DataKey::ReentrancyLock,
                DataKey::WithdrawXlmRequest,
            ],
            Operation::Freeze { token_id, .. } | Operation::Unfreeze { token_id, .. } => vec![
                DataKey::Admin,
                DataKey::Token(token_id),
            ],
            Operation::RevokeApproval { token_id } => vec![
                DataKey::Token(token_id),
                DataKey::Approved(token_id),
            ],
            Operation::RevokeAllApprovals { caller, operator } => vec![
                DataKey::ApprovalForAll(caller, operator),
            ],
            Operation::Burn { token_id, refund_royalty } => if refund_royalty {
                vec![
                    DataKey::Token(token_id),
                    DataKey::Frozen(token_id),
                    DataKey::RoyaltyBalance(token_id),
                ]
            } else {
                vec![DataKey::Token(token_id), DataKey::Frozen(token_id)]
            },
            _ => vec![DataKey::Admin],
        }
    }
}

/// The environment after several calls, each with the ledger time at which it is made.
pub open spec fn run(env: EnvView, calls: Seq<(u64, Operation)>) -> EnvView
    decreases calls.len(),
{
    if calls.len() == 0 {
        env
    } else {
        let (timestamp, op) = calls.last();
        op.leaves(run(env, calls.drop_last()).next_call(timestamp))
    }
}

/// What one of several calls answers, made after those before it.
pub open spec fn answer(env: EnvView, calls: Seq<(u64, Operation)>, i: int) -> Result<(), Error> {
    calls[i].1.result(run(env, calls.take(i)).next_call(calls[i].0))
}

/// Whether several calls may be made one after the other.
pub open spec fn runs(env: EnvView, calls: Seq<(u64, Operation)>) -> bool
    decreases calls.len(),
{
    calls.len() > 0 ==> {
        &&& runs(env, calls.drop_last())
        &&& calls.last().1.allowed(run(env, calls.drop_last()).next_call(calls.last().0))
    }
}

impl Query {
    /// The keys of the entries that the query may read.
    pub open spec fn spec_reads(self) -> Seq<DataKey> {
        match self {
            Query::GetSigner => seq![DataKey::Signer],
            Query::IsPaused => seq![DataKey::Paused, DataKey::PauseUnlockTime],
            Query::PauseActiveAt => seq![DataKey::PauseUnlockTime],
            Query::IsFrozen { token_id } => seq![DataKey::Frozen(token_id)],
        }
    }

    /// Returns the keys of the entries that the query may read: those to load before it.
    pub fn reads(&self) -> (keys: Vec<DataKey>)
        ensures
            keys@ == self.spec_reads(),
    {
        match *self {
            Query::GetSigner => vec![DataKey::Signer],
            Query::IsPaused => vec![DataKey::Paused, DataKey::PauseUnlockTime],
            Query::PauseActiveAt => vec![DataKey::PauseUnlockTime],
            Query::IsFrozen { token_id } => vec![DataKey::Frozen(token_id)],
        }
    }
}

} // verus!
