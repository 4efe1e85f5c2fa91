//! The contract: every call takes the environment it works on, and answers with a result.

use crate::env::{group_after, EffectView, Env};
use crate::error::Error;
use crate::event::{
    AdminChangedEvent, ApprovalEvent, ApprovalForAllEvent, BlacklistEvent, BurnEvent, Event,
    PauseScheduledEvent, RefundedEvent, SignerUpdatedEvent, TokenFrozenEvent, TokenUnfrozenEvent,
    UpgradeEvent, WithdrawExecutedEvent, WithdrawRequestedEvent,
};
use crate::key::DataKey;
use crate::operation::{
    burn_erases, clearing_effects, is_admin, lock_result, locked, paused, refund_effects, unlocked,
    withdrawal_effects, withdrawal_result, Operation,
};
use crate::types::{Address, Bytes32, TokenId, WithdrawRequest};
use crate::value::{Value, ValueView};
use vstd::prelude::*;

verus! {

broadcast use group_after;

/// Contract version: bump on every breaking change.
pub const VERSION: u32 = 1;

/// Delay between two mints from one wallet, unless configured otherwise.
pub const DEFAULT_MINT_COOLDOWN_SECONDS: u64 = 0;

/// Time between scheduling a pause and its becoming active (24 hours).
pub const PAUSE_DELAY_SECONDS: u64 = 86_400;

/// Time between requesting a withdrawal and its being unlocked (48 hours).
pub const WITHDRAWAL_DELAY_SECONDS: u64 = 172_800;

/// ClipCash NFT contract.
pub struct ClipsNftContract;

impl ClipsNftContract {
    /// Initializes the contract and sets the admin. Can only be called once.
    ///
    /// The signer is not set here: call `set_signer` before minting.
    pub fn init(env: &mut Env, admin: Address)
        requires
            old(env).wf(),
            !old(env)@.has(DataKey::Admin),
        ensures
            final(env).wf(),
            final(env)@ == (Operation::Init { admin }).leaves(old(env)@),
            final(env)@.entries == old(env)@.entries.insert(
                DataKey::Admin,
                ValueView::Address(admin),
            ).insert(DataKey::NextTokenId, ValueView::U32(1)).insert(
                DataKey::Paused,
                ValueView::Bool(false),
            ).insert(DataKey::PlatformRecipient, ValueView::Address(admin)).insert(
                DataKey::Name,
                ValueView::Text("ClipCash Clips"@),
            ).insert(DataKey::Symbol, ValueView::Text("CLIP"@)).insert(
                DataKey::MintCooldownSeconds,
                ValueView::U64(0),
            ),
    {
        env.require_auth(admin);
        env.set(DataKey::Admin, Value::Address(admin));
        env.set(DataKey::NextTokenId, Value::U32(1));
        env.set(DataKey::Paused, Value::Bool(false));
        env.set(DataKey::PlatformRecipient, Value::Address(admin));
        env.set(DataKey::Name, Value::Text("ClipCash Clips".to_owned()));
        env.set(DataKey::Symbol, Value::Text("CLIP".to_owned()));
        env.set(DataKey::MintCooldownSeconds, Value::U64(DEFAULT_MINT_COOLDOWN_SECONDS));
    }

    /// Registers (or rotates) the backend Ed25519 public key used to verify clip ownership before
    /// minting. Admin only.
    pub fn set_signer(env: &mut Env, admin: Address, pubkey: Bytes32) -> (res: Result<(), Error>)
        requires
            old(env).wf(),
        ensures
            final(env).wf(),
            res == (Operation::SetSigner { admin, pubkey }).result(old(env)@),
            final(env)@ == (Operation::SetSigner { admin, pubkey }).leaves(old(env)@),
            res is Ok <==> is_admin(old(env)@, admin),
            res is Ok ==> final(env)@.entries == old(env)@.entries.insert(
                DataKey::Signer,
                ValueView::Bytes(pubkey),
            ),
            res is Err ==> res == Err::<(), Error>(Error::Unauthorized) && final(env)@ == old(env)@,
    {
        if let Err(e) = Self::require_admin(env, &admin) {
            return Err(e);
        }
        env.set(DataKey::Signer, Value::Bytes(pubkey));
        env.publish(Event::SignerUpdated(SignerUpdatedEvent { new_pubkey: pubkey }));
        Ok(())
    }

    /// Returns the currently registered backend signer public key, if any.
    pub fn get_signer(env: &Env) -> (signer: Option<Bytes32>)
        requires
            env.wf(),
        ensures
            signer == env@.bytes(DataKey::Signer),
            match signer {
                Some(pubkey) => env@.entries.get(DataKey::Signer) == Some(ValueView::Bytes(pubkey)),
                None => !env@.entries.contains_key(DataKey::Signer),
            },
    {
        proof {
            env.lemma_wf();
        }
        env.bytes(&DataKey::Signer)
    }

    /// Transfers contract admin rights to a new address. Current admin only.
    pub fn set_admin(env: &mut Env, current_admin: Address, new_admin: Address) -> (res: Result<
        (),
        Error,
    >)
        requires
            old(env).wf(),
        ensures
            final(env).wf(),
            res == (Operation::SetAdmin { current_admin, new_admin }).result(old(env)@),
            final(env)@ == (Operation::SetAdmin { current_admin, new_admin }).leaves(old(env)@),
            res is Ok <==> is_admin(old(env)@, current_admin),
            res is Ok ==> final(env)@.entries == old(env)@.entries.insert(
                DataKey::Admin,
                ValueView::Address(new_admin),
            ),
            res is Err ==> res == Err::<(), Error>(Error::Unauthorized) && final(env)@ == old(env)@,
    {
        if let Err(e) = Self::require_admin(env, &current_admin) {
            return Err(e);
        }
        env.set(DataKey::Admin, Value::Address(new_admin));
        env.publish(
            Event::AdminChanged(AdminChangedEvent { old_admin: current_admin, new_admin }),
        );
        Ok(())
    }

    /// Upgrades the contract to a new WASM implementation, preserving all storage. Admin only.
    pub fn upgrade(env: &mut Env, admin: Address, new_wasm_hash: Bytes32) -> (res: Result<
        (),
        Error,
    >)
        requires
            old(env).wf(),
        ensures
            final(env).wf(),
            res == (Operation::Upgrade { admin, new_wasm_hash }).result(old(env)@),
            final(env)@ == (Operation::Upgrade { admin, new_wasm_hash }).leaves(old(env)@),
            res is Ok <==> is_admin(old(env)@, admin),
            final(env)@.entries == old(env)@.entries,
            res is Err ==> res == Err::<(), Error>(Error::Unauthorized) && final(env)@ == old(env)@,
    {
        if let Err(e) = Self::require_admin(env, &admin) {
            return Err(e);
        }
        env.update_wasm(new_wasm_hash);
        env.publish(Event::Upgraded(UpgradeEvent { new_wasm_hash }));
        Ok(())
    }

    /// Schedules a contract pause with a 24-hour timelock. Admin only.
    ///
    /// The pause becomes active 24 hours after this call. Calling `pause` again while a pause is
    /// already scheduled or active resets the 24-hour window from the current time.
    pub fn pause(env: &mut Env, admin: Address) -> (res: Result<(), Error>)
        requires
            old(env).wf(),
        ensures
            final(env).wf(),
            res == (Operation::Pause { admin }).result(old(env)@),
            final(env)@ == (Operation::Pause { admin }).leaves(old(env)@),
            res is Ok <==> is_admin(old(env)@, admin),
            res is Ok ==> final(env)@.entries == old(env)@.entries.insert(
                DataKey::PauseUnlockTime,
                ValueView::U64(old(env)@.timestamp.saturating_add(PAUSE_DELAY_SECONDS)),
            ).insert(DataKey::Paused, ValueView::Bool(true)),
            res is Err ==> res == Err::<(), Error>(Error::Unauthorized) && final(env)@ == old(env)@,
    {
        if let Err(e) = Self::require_admin(env, &admin) {
            return Err(e);
        }
        let active_at: u64 = env.timestamp().saturating_add(PAUSE_DELAY_SECONDS);
        env.set(DataKey::PauseUnlockTime, Value::U64(active_at));
        env.set(DataKey::Paused, Value::Bool(true));
        env.publish(Event::PauseScheduled(PauseScheduledEvent { active_at }));
        Ok(())
    }

    /// Cancels a scheduled or active pause. Admin only.
    pub fn unpause(env: &mut Env, admin: Address) -> (res: Result<(), Error>)
        requires
            old(env).wf(),
        ensures
            final(env).wf(),
            res == (Operation::Unpause { admin }).result(old(env)@),
            final(env)@ == (Operation::Unpause { admin }).leaves(old(env)@),
            res is Ok <==> is_admin(old(env)@, admin),
            res is Ok ==> final(env)@.entries == old(env)@.entries.insert(
                DataKey::Paused,
                ValueView::Bool(false),
            ).remove(DataKey::PauseUnlockTime),
            res is Err ==> res == Err::<(), Error>(Error::Unauthorized) && final(env)@ == old(env)@,
    {
        if let Err(e) = Self::require_admin(env, &admin) {
            return Err(e);
        }
        env.set(DataKey::Paused, Value::Bool(false));
        env.remove(DataKey::PauseUnlockTime);
        env.publish(Event::Unpaused);
        Ok(())
    }

    /// Returns `true` if the contract is currently paused (the timelock has elapsed).
    pub fn is_paused(env: &Env) -> (res: bool)
        requires
            env.wf(),
        ensures
            res == paused(env@),
            res <==> {
                &&& env@.entries.get(DataKey::Paused) == Some(ValueView::Bool(true))
                &&& env@.entries.get(DataKey::PauseUnlockTime) matches Some(
                    ValueView::U64(active_at),
                ) ==> active_at <= env@.timestamp
            },
    {
        Self::check_paused(env)
    }

    /// Returns the timestamp at which a scheduled pause becomes active, or `None`.
    pub fn pause_active_at(env: &Env) -> (active_at: Option<u64>)
        requires
            env.wf(),
        ensures
            active_at == env@.time(DataKey::PauseUnlockTime),
            match active_at {
                Some(time) => env@.entries.get(DataKey::PauseUnlockTime) == Some(
                    ValueView::U64(time),
                ),
                None => !env@.entries.contains_key(DataKey::PauseUnlockTime),
            },
    {
        proof {
            env.lemma_wf();
        }
        env.time(&DataKey::PauseUnlockTime)
    }

    /// Requests an emergency withdrawal. Starts a 48-hour safety delay before the withdrawal can
    /// be executed. Admin only.
    pub fn request_withdraw_asset(env: &mut Env, admin: Address, amount: i128) -> (res: Result<
        (),
        Error,
    >)
        requires
            old(env).wf(),
        ensures
            final(env).wf(),
            res == (Operation::RequestWithdrawAsset { admin, amount }).result(old(env)@),
            final(env)@ == (Operation::RequestWithdrawAsset { admin, amount }).leaves(old(env)@),
            res is Ok <==> is_admin(old(env)@, admin) && amount > 0,
            res is Ok ==> final(env)@.entries == old(env)@.entries.insert(
                DataKey::WithdrawXlmRequest,
                ValueView::Withdrawal(
                    WithdrawRequest {
                        amount,
                        unlock_time: old(env)@.timestamp.saturating_add(WITHDRAWAL_DELAY_SECONDS),
                    },
                ),
            ),
            res is Err ==> final(env)@.entries == old(env)@.entries,
            res == Err::<(), Error>(Error::Unauthorized) <==> !is_admin(old(env)@, admin),
            res == Err::<(), Error>(Error::InvalidSalePrice) <==> is_admin(old(env)@, admin)
                && amount <= 0,
    {
        if let Err(e) = Self::require_admin(env, &admin) {
            return Err(e);
        }
        if amount <= 0 {
            return Err(Error::InvalidSalePrice);
        }
        let unlock_time: u64 = env.timestamp().saturating_add(WITHDRAWAL_DELAY_SECONDS);
        let request = WithdrawRequest { amount, unlock_time };
        env.set(DataKey::WithdrawXlmRequest, Value::Withdrawal(request));
        env.publish(Event::WithdrawRequested(WithdrawRequestedEvent { amount, unlock_time }));
        Ok(())
    }

    /// Executes a previously requested emergency withdrawal after the safety delay. Admin only.
    ///
    /// `amount` must match the requested amount. The request is cleared before the transfer, and
    /// the call holds the reentrancy lock while it works.
    pub fn withdraw_asset(env: &mut Env, admin: Address, asset: Address, amount: i128) -> (res:
        Result<(), Error>)
        requires
            old(env).wf(),
        ensures
            final(env).wf(),
            res == (Operation::WithdrawAsset { admin, asset, amount }).result(old(env)@),
            final(env)@ == (Operation::WithdrawAsset { admin, asset, amount }).leaves(old(env)@),
            res is Ok <==> {
                &&& is_admin(old(env)@, admin)
                &&& !old(env)@.has(DataKey::ReentrancyLock)
                &&& old(env)@.withdrawal() matches Some(request)
                &&& request.amount == amount
                &&& request.unlock_time <= old(env)@.timestamp
            },
            res is Ok ==> final(env)@.entries == old(env)@.entries.remove(
                DataKey::WithdrawXlmRequest,
            ).insert(DataKey::LastWithdrawalTime, ValueView::U64(old(env)@.timestamp)),
            res is Err ==> final(env)@.entries == old(env)@.entries,
            !is_admin(old(env)@, admin) ==> final(env)@ == old(env)@,
    {
        if let Err(e) = Self::require_admin(env, &admin) {
            return Err(e);
        }
        if let Err(e) = Self::acquire_reentrancy_lock(env) {
            return Err(e);
        }
        let result = Self::withdraw_asset_internal(env, &admin, &asset, amount);
        Self::release_reentrancy_lock(env);
        proof {
            if result is Ok {
                assert(env@.entries =~= old(env)@.entries.remove(
                    DataKey::WithdrawXlmRequest,
                ).insert(DataKey::LastWithdrawalTime, ValueView::U64(old(env)@.timestamp)));
            } else {
                assert(env@.entries =~= old(env)@.entries);
            }
        }
        result
    }

    /// Withdraws an asset. The caller must hold the reentrancy lock.
    fn withdraw_asset_internal(
        env: &mut Env,
        admin: &Address,
        asset: &Address,
        amount: i128,
    ) -> (res: Result<(), Error>)
        requires
            old(env).wf(),
            old(env)@.has(DataKey::ReentrancyLock),
        ensures
            final(env).wf(),
            res == withdrawal_result(old(env)@, amount),
            final(env)@ == old(env)@.after(
                withdrawal_effects(old(env)@, *admin, *asset, amount),
            ),
    {
        let request = match env.withdrawal() {
            Some(request) => request,
            None => return Err(Error::NoWithdrawalRequest),
        };
        if amount != request.amount {
            return Err(Error::Unauthorized);
        }
        if env.timestamp() < request.unlock_time {
            return Err(Error::WithdrawalStillLocked);
        }
        // The request is cleared first, so that it cannot be spent twice.
        env.remove(DataKey::WithdrawXlmRequest);
        let contract = env.current_contract_address();
        env.transfer(*asset, contract, *admin, amount);
        let now: u64 = env.timestamp();
        env.set(DataKey::LastWithdrawalTime, Value::U64(now));
        env.publish(
            Event::WithdrawExecuted(WithdrawExecutedEvent { amount, recipient: *admin }),
        );
        Ok(())
    }

    /// Blacklists a clip ID, preventing it from being minted. Admin only.
    pub fn blacklist_clip(env: &mut Env, admin: Address, clip_id: u32) -> (res: Result<(), Error>)
        requires
            old(env).wf(),
        ensures
            final(env).wf(),
            res == (Operation::BlacklistClip { admin, clip_id }).result(old(env)@),
            final(env)@ == (Operation::BlacklistClip { admin, clip_id }).leaves(old(env)@),
            res is Ok <==> is_admin(old(env)@, admin),
            res is Ok ==> final(env)@.entries == old(env)@.entries.insert(
                DataKey::BlacklistedClip(clip_id),
                ValueView::Bool(true),
            ),
            res is Err ==> res == Err::<(), Error>(Error::Unauthorized) && final(env)@ == old(env)@,
    {
        if let Err(e) = Self::require_admin(env, &admin) {
            return Err(e);
        }
        env.set(DataKey::BlacklistedClip(clip_id), Value::Bool(true));
        env.publish(Event::Blacklisted(BlacklistEvent { clip_id }));
        Ok(())
    }

    /// Freezes an NFT so that transfers and burns are blocked until it is unfrozen. Admin only.
    pub fn freeze(env: &mut Env, admin: Address, token_id: TokenId) -> (res: Result<(), Error>)
        requires
            old(env).wf(),
        ensures
            final(env).wf(),
            res == (Operation::Freeze { admin, token_id }).result(old(env)@),
            final(env)@ == (Operation::Freeze { admin, token_id }).leaves(old(env)@),
            res is Ok <==> is_admin(old(env)@, admin) && old(env)@.has(DataKey::Token(token_id)),
            res is Ok ==> final(env)@.entries == old(env)@.entries.insert(
                DataKey::Frozen(token_id),
                ValueView::Bool(true),
            ),
            res is Err ==> final(env)@.entries == old(env)@.entries,
            res == Err::<(), Error>(Error::Unauthorized) <==> !is_admin(old(env)@, admin),
            res == Err::<(), Error>(Error::InvalidTokenId) <==> is_admin(old(env)@, admin) && !old(
                env,
            )@.has(DataKey::Token(token_id)),
    {
        if let Err(e) = Self::require_admin(env, &admin) {
            return Err(e);
        }
        if !Self::token_exists(env, token_id) {
            return Err(Error::InvalidTokenId);
        }
        env.set(DataKey::Frozen(token_id), Value::Bool(true));
        env.publish(Event::Frozen(TokenFrozenEvent { token_id }));
        Ok(())
    }

    /// Unfreezes an NFT, re-enabling transfers and burning. Admin only.
    pub fn unfreeze(env: &mut Env, admin: Address, token_id: TokenId) -> (res: Result<(), Error>)
        requires
            old(env).wf(),
        ensures
            final(env).wf(),
            res == (Operation::Unfreeze { admin, token_id }).result(old(env)@),
            final(env)@ == (Operation::Unfreeze { admin, token_id }).leaves(old(env)@),
            res is Ok <==> is_admin(old(env)@, admin) && old(env)@.has(DataKey::Token(token_id)),
            res is Ok ==> final(env)@.entries == old(env)@.entries.remove(
                DataKey::Frozen(token_id),
            ),
            res is Err ==> final(env)@.entries == old(env)@.entries,
            res == Err::<(), Error>(Error::Unauthorized) <==> !is_admin(old(env)@, admin),
            res == Err::<(), Error>(Error::InvalidTokenId) <==> is_admin(old(env)@, admin) && !old(
                env,
            )@.has(DataKey::Token(token_id)),
    {
        if let Err(e) = Self::require_admin(env, &admin) {
            return Err(e);
        }
        if !Self::token_exists(env, token_id) {
            return Err(Error::InvalidTokenId);
        }
        env.remove(DataKey::Frozen(token_id));
        env.publish(Event::Unfrozen(TokenUnfrozenEvent { token_id }));
        Ok(())
    }

    /// Returns `true` if the token is currently frozen.
    pub fn is_frozen(env: &Env, token_id: TokenId) -> (res: bool)
        requires
            env.wf(),
        ensures
            res == env@.flag(DataKey::Frozen(token_id)),
            res <==> env@.entries.get(DataKey::Frozen(token_id)) == Some(ValueView::Bool(true)),
    {
        env.flag(&DataKey::Frozen(token_id))
    }

    /// Revokes the marketplace or operator approval for a specific token ID. Token owner only.
    pub fn revoke_approval(env: &mut Env, token_id: TokenId) -> (res: Result<(), Error>)
        requires
            old(env).wf(),
        ensures
            final(env).wf(),
            res == (Operation::RevokeApproval { token_id }).result(old(env)@),
            final(env)@ == (Operation::RevokeApproval { token_id }).leaves(old(env)@),
            res is Ok <==> old(env)@.token(token_id) is Some,
            res is Ok <==> old(env)@.entries.contains_key(DataKey::Token(token_id)),
            res is Ok ==> final(env)@.entries == old(env)@.entries.remove(
                DataKey::Approved(token_id),
            ),
            res is Err ==> res == Err::<(), Error>(Error::InvalidTokenId) && final(env)@ == old(
                env,
            )@,
    {
        proof {
            env.lemma_wf();
        }
        let owner = match env.get(&DataKey::Token(token_id)) {
            Some(Value::Token(token)) => token.owner,
            _ => return Err(Error::InvalidTokenId),
        };
        env.require_auth(owner);
        let approval_key = DataKey::Approved(token_id);
        if env.has(&approval_key) {
            env.remove(approval_key);
            let operator = env.current_contract_address();
            env.publish(Event::Approval(ApprovalEvent { owner, operator, token_id }));
        }
        assert(env@.entries =~= old(env)@.entries.remove(DataKey::Approved(token_id)));
        Ok(())
    }

    /// Revokes the general permissions of an operator managing the caller's items. The caller must
    /// authorize the call.
    pub fn revoke_all_approvals(env: &mut Env, caller: Address, operator: Address) -> (res: Result<
        (),
        Error,
    >)
        requires
            old(env).wf(),
        ensures
            final(env).wf(),
            res == (Operation::RevokeAllApprovals { caller, operator }).result(old(env)@),
            final(env)@ == (Operation::RevokeAllApprovals { caller, operator }).leaves(old(env)@),
            res is Ok,
            final(env)@.entries == old(env)@.entries.remove(
                DataKey::ApprovalForAll(caller, operator),
            ),
    {
        env.require_auth(caller);
        let approval_all_key = DataKey::ApprovalForAll(caller, operator);
        if env.has(&approval_all_key) {
            env.remove(approval_all_key);
            env.publish(
                Event::ApprovalForAll(
                    ApprovalForAllEvent { owner: caller, operator, approved: false },
                ),
            );
        }
        assert(env@.entries =~= old(env)@.entries.remove(
            DataKey::ApprovalForAll(caller, operator),
        ));
        Ok(())
    }

    /// Destroys an NFT and optionally claims outstanding accrued royalties back to the creator.
    /// Token owner only.
    pub fn burn(env: &mut Env, token_id: TokenId, refund_royalty: bool) -> (res: Result<(), Error>)
        requires
            old(env).wf(),
        ensures
            final(env).wf(),
            res == (Operation::Burn { token_id, refund_royalty }).result(old(env)@),
            final(env)@ == (Operation::Burn { token_id, refund_royalty }).leaves(old(env)@),
            res is Ok <==> old(env)@.entries.contains_key(DataKey::Token(token_id)) && old(
                env,
            )@.entries.get(DataKey::Frozen(token_id)) != Some(ValueView::Bool(true)),
            match old(env)@.token(token_id) {
                None => res == Err::<(), Error>(Error::InvalidTokenId) && final(env)@ == old(env)@,
                Some(token) => if old(env)@.flag(DataKey::Frozen(token_id)) {
                    &&& res == Err::<(), Error>(Error::TokenFrozen)
                    &&& final(env)@.entries == old(env)@.entries
                } else {
                    &&& res is Ok
                    &&& forall|key: DataKey| #[trigger]
                        final(env)@.get(key) == (if burn_erases(
                            token_id,
                            token.clip_id,
                            refund_royalty,
                            key,
                        ) {
                            None
                        } else {
                            old(env)@.get(key)
                        })
                },
            },
    {
        proof {
            env.lemma_wf();
        }
        let (owner, clip_id, creator, asset_address) = match env.get(&DataKey::Token(token_id)) {
            Some(Value::Token(token)) => {
                let recipients = &token.royalty.recipients;
                let creator = if recipients.len() > 0 {
                    Some(recipients[0].recipient)
                } else {
                    None
                };
                (token.owner, token.clip_id, creator, token.royalty.asset_address)
            },
            _ => return Err(Error::InvalidTokenId),
        };
        env.require_auth(owner);
        if Self::is_frozen(env, token_id) {
            return Err(Error::TokenFrozen);
        }
        let ghost demanded = env@;
        let ghost token = old(env)@.token(token_id)->0;
        if refund_royalty {
            let royalty_key = DataKey::RoyaltyBalance(token_id);
            if env.has(&royalty_key) {
                let accumulated_amount: i128 = env.amount(&royalty_key).unwrap_or(0);
                if accumulated_amount > 0 {
                    if let Some(target_creator) = creator {
                        let contract = env.current_contract_address();
                        match asset_address {
                            Some(asset) => {
                                env.transfer(asset, contract, target_creator, accumulated_amount);
                            },
                            None => {
                                env.transfer_native(contract, target_creator, accumulated_amount);
                            },
                        }
                        env.publish(
                            Event::Refunded(
                                RefundedEvent {
                                    token_id,
                                    recipient: target_creator,
                                    amount: accumulated_amount,
                                },
                            ),
                        );
                    }
                }
                env.remove(royalty_key);
            }
        }
        assert(env@ == demanded.after(refund_effects(old(env)@, token_id, token, refund_royalty)));
        let ghost refunded = env@;
        env.remove(DataKey::Token(token_id));
        env.remove(DataKey::ClipIdMinted(clip_id));
        env.remove(DataKey::Approved(token_id));
        env.remove(DataKey::CustomTokenUri(token_id));
        env.remove(DataKey::MetadataUpdateCount(token_id));
        env.remove(DataKey::MetadataRefreshTime(token_id));
        env.publish(Event::Burned(BurnEvent { owner, token_id, clip_id }));
        assert(env@ == refunded.after(clearing_effects(token_id, token)));
        Ok(())
    }

    /// Answers `Unauthorized` unless the address is the stored admin, and demands its
    /// authorization.
    fn require_admin(env: &mut Env, admin: &Address) -> (res: Result<(), Error>)
        requires
            old(env).wf(),
        ensures
            final(env).wf(),
            res == (if is_admin(old(env)@, *admin) {
                Ok(())
            } else {
                Err::<(), Error>(Error::Unauthorized)
            }),
            final(env)@ == (if is_admin(old(env)@, *admin) {
                old(env)@.with(EffectView::RequireAuth(*admin))
            } else {
                old(env)@
            }),
    {
        let stored_admin = match env.address(&DataKey::Admin) {
            Some(stored_admin) => stored_admin,
            None => return Err(Error::Unauthorized),
        };
        if *admin != stored_admin {
            return Err(Error::Unauthorized);
        }
        env.require_auth(*admin);
        Ok(())
    }

    /// Returns whether a pause is set and its timelock has elapsed.
    fn check_paused(env: &Env) -> (res: bool)
        requires
            env.wf(),
        ensures
            res == paused(env@),
    {
        env.flag(&DataKey::Paused) && match env.time(&DataKey::PauseUnlockTime) {
            Some(active_at) => env.timestamp() >= active_at,
            None => true,
        }
    }

    /// Returns whether the token exists.
    fn token_exists(env: &Env, token_id: TokenId) -> (res: bool)
        requires
            env.wf(),
        ensures
            res == env@.has(DataKey::Token(token_id)),
    {
        env.has(&DataKey::Token(token_id))
    }

    /// Takes the reentrancy lock, unless it is held.
    fn acquire_reentrancy_lock(env: &mut Env) -> (res: Result<(), Error>)
        requires
            old(env).wf(),
        ensures
            final(env).wf(),
            res == lock_result(old(env)@),
            final(env)@ == locked(old(env)@),
    {
        if env.has(&DataKey::ReentrancyLock) {
            return Err(Error::Reentrancy);
        }
        env.set(DataKey::ReentrancyLock, Value::Bool(true));
        Ok(())
    }

    /// Releases the reentrancy lock.
    fn release_reentrancy_lock(env: &mut Env)
        requires
            old(env).wf(),
        ensures
            final(env).wf(),
            final(env)@ == unlocked(old(env)@),
    {
        env.remove(DataKey::ReentrancyLock);
    }
}

} // verus!
