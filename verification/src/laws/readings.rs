//! What values, effects, environments, keys and names say.

use crate::env::{performed, replay, Effect, EffectView, EnvView};
use crate::error::Error;
use crate::event::Event;
use crate::key::{DataKey, Tier};
use crate::operation::{paused, run, Operation};
use crate::types::{Address, TokenData, TokenId};
use crate::value::{Value, ValueKind, ValueView};
use vstd::prelude::*;

verus! {

/// A stored value is seen as what it holds, whole, and as of the type that it has.
pub proof fn law_values_are_seen_whole(value: Value)
    ensures
        match value {
            Value::Bool(b) => value@ == ValueView::Bool(b) && value@.kind() == ValueKind::Bool,
            Value::U32(n) => value@ == ValueView::U32(n) && value@.kind() == ValueKind::U32,
            Value::U64(n) => value@ == ValueView::U64(n) && value@.kind() == ValueKind::U64,
            Value::I128(n) => value@ == ValueView::I128(n) && value@.kind() == ValueKind::I128,
            Value::Address(a) => value@ == ValueView::Address(a) && value@.kind()
                == ValueKind::Address,
            Value::Bytes(b) => value@ == ValueView::Bytes(b) && value@.kind() == ValueKind::Bytes,
            Value::Text(s) => value@ == ValueView::Text(s@) && value@.kind() == ValueKind::Text,
            Value::Withdrawal(r) => value@ == ValueView::Withdrawal(r) && value@.kind()
                == ValueKind::Withdrawal,
            Value::Token(t) => value@ == ValueView::Token(t@) && value@.kind() == ValueKind::Token,
        },
{
}

/// A token is seen with every field that it has.
pub proof fn law_tokens_are_seen_whole(token: TokenData, i: int)
    ensures
        token@.owner == token.owner,
        token@.clip_id == token.clip_id,
        token@.is_soulbound == token.is_soulbound,
        token@.metadata_uri == token.metadata_uri@,
        token.image matches Some(text) ==> token@.image == Some(text@),
        token.image is None ==> token@.image is None,
        token.animation_url matches Some(text) ==> token@.animation_url == Some(text@),
        token.animation_url is None ==> token@.animation_url is None,
        token.description matches Some(text) ==> token@.description == Some(text@),
        token.description is None ==> token@.description is None,
        token.external_url matches Some(text) ==> token@.external_url == Some(text@),
        token.external_url is None ==> token@.external_url is None,
        token@.attributes.len() == token.attributes@.len(),
        0 <= i < token.attributes@.len() ==> {
            &&& token@.attributes[i].trait_type == token.attributes@[i].trait_type@
            &&& token@.attributes[i].value == token.attributes@[i].value@
        },
        token@.royalty.recipients == token.royalty.recipients@,
        token@.royalty.asset_address == token.royalty.asset_address,
{
}

/// An effect is seen as what it holds, whole.
pub proof fn law_effects_are_seen_whole(effect: Effect)
    ensures
        match effect {
            Effect::RequireAuth(address) => effect@ == EffectView::RequireAuth(address),
            Effect::Put(key, value) => effect@ == EffectView::Put(key, value@),
            Effect::Remove(key) => effect@ == EffectView::Remove(key),
            Effect::Transfer { asset, from, to, amount } => effect@ == (EffectView::Transfer {
                asset,
                from,
                to,
                amount,
            }),
            Effect::TransferNative { from, to, amount } => effect@
                == (EffectView::TransferNative { from, to, amount }),
            Effect::UpdateWasm(hash) => effect@ == EffectView::UpdateWasm(hash),
            Effect::Publish(event) => effect@ == EffectView::Publish(event),
        },
{
}

/// What an environment says of a key is what the entry under it holds: there is an entry exactly
/// if the map has the key, and it reads as a value of a type exactly if it is one, unchanged.
pub proof fn law_readers_read_the_entries(env: EnvView, key: DataKey, id: TokenId)
    ensures
        env.get(key) == env.entries.get(key),
        env.has(key) <==> env.entries.contains_key(key),
        env.flag(key) <==> env.entries.get(key) == Some(ValueView::Bool(true)),
        match env.entries.get(key) {
            Some(ValueView::U64(time)) => env.time(key) == Some(time),
            _ => env.time(key) is None,
        },
        match env.entries.get(key) {
            Some(ValueView::Address(address)) => env.address(key) == Some(address),
            _ => env.address(key) is None,
        },
        match env.entries.get(key) {
            Some(ValueView::Bytes(bytes)) => env.bytes(key) == Some(bytes),
            _ => env.bytes(key) is None,
        },
        match env.entries.get(key) {
            Some(ValueView::I128(amount)) => env.amount(key) == Some(amount),
            _ => env.amount(key) is None,
        },
        match env.entries.get(DataKey::WithdrawXlmRequest) {
            Some(ValueView::Withdrawal(request)) => env.withdrawal() == Some(request),
            _ => env.withdrawal() is None,
        },
        match env.entries.get(DataKey::Token(id)) {
            Some(ValueView::Token(token)) => env.token(id) == Some(token),
            _ => env.token(id) is None,
        },
{
}

/// An effect changes the entry that it names and no other; only putting and removing change one.
/// Effects take place in order, the last one last, and are noted in that order.
pub proof fn law_effects_take_place_in_order(
    env: EnvView,
    effects: Seq<EffectView>,
    effect: EffectView,
)
    ensures
        match effect {
            EffectView::Put(key, value) => performed(env.entries, effect) == env.entries.insert(
                key,
                value,
            ),
            EffectView::Remove(key) => performed(env.entries, effect) == env.entries.remove(key),
            _ => performed(env.entries, effect) == env.entries,
        },
        replay(env.entries, Seq::<EffectView>::empty()) == env.entries,
        replay(env.entries, effects.push(effect)) == performed(
            replay(env.entries, effects),
            effect,
        ),
        env.with(effect) == (EnvView {
            timestamp: env.timestamp,
            contract: env.contract,
            loaded: env.loaded,
            entries: performed(env.entries, effect),
            effects: env.effects.push(effect),
        }),
        env.after(effects) == (EnvView {
            timestamp: env.timestamp,
            contract: env.contract,
            loaded: env.loaded,
            entries: replay(env.entries, effects),
            effects: env.effects + effects,
        }),
{
    assert(effects.push(effect).drop_last() =~= effects);
}

/// The next call meets the entries that the call before it has left, at its own time, with
/// nothing done yet. Several calls are made one after the other.
pub proof fn law_calls_follow_each_other(
    env: EnvView,
    calls: Seq<(u64, Operation)>,
    timestamp: u64,
    op: Operation,
)
    ensures
        env.next_call(timestamp) == (EnvView {
            timestamp,
            contract: env.contract,
            loaded: env.entries,
            entries: env.entries,
            effects: Seq::empty(),
        }),
        op.leaves(env) == env.after(op.effects(env)),
        run(env, Seq::empty()) == env,
        run(env, calls.push((timestamp, op))) == op.leaves(run(env, calls).next_call(timestamp)),
{
    assert(calls.push((timestamp, op)).drop_last() =~= calls);
}

/// The contract is paused exactly if the pause flag is set and the time of its activation, if one
/// is stored, has come. A pause does not end by waiting.
pub proof fn law_paused_from_activation_on(env: EnvView, later: u64)
    ensures
        paused(env) ==> env.entries.get(DataKey::Paused) == Some(ValueView::Bool(true)),
        env.entries.get(DataKey::Paused) == Some(ValueView::Bool(true)) ==> match env.entries.get(
            DataKey::PauseUnlockTime,
        ) {
            Some(ValueView::U64(active_at)) => paused(env) <==> active_at <= env.timestamp,
            _ => paused(env),
        },
        paused(env) && env.timestamp <= later ==> paused(env.next_call(later)),
{
}

/// What belongs to one token, clip or owner is persistent; what belongs to the contract is kept
/// with it.
pub proof fn law_tiers_go_by_the_subject(id: u32, a: Address, b: Address)
    ensures
        DataKey::Token(id).spec_tier() == Tier::Persistent,
        DataKey::ClipIdMinted(id).spec_tier() == Tier::Persistent,
        DataKey::CustomTokenUri(id).spec_tier() == Tier::Persistent,
        DataKey::Approved(id).spec_tier() == Tier::Persistent,
        DataKey::MetadataUpdateCount(id).spec_tier() == Tier::Persistent,
        DataKey::ApprovalForAll(a, b).spec_tier() == Tier::Persistent,
        DataKey::BlacklistedClip(id).spec_tier() == Tier::Persistent,
        DataKey::Balance(a).spec_tier() == Tier::Persistent,
        DataKey::Frozen(id).spec_tier() == Tier::Persistent,
        DataKey::MetadataRefreshTime(id).spec_tier() == Tier::Persistent,
        DataKey::RoyaltyBalance(id).spec_tier() == Tier::Persistent,
        DataKey::LastMintTimestamp(a).spec_tier() == Tier::Persistent,
        DataKey::Admin.spec_tier() == Tier::Instance,
        DataKey::NextTokenId.spec_tier() == Tier::Instance,
        DataKey::Paused.spec_tier() == Tier::Instance,
        DataKey::PauseReason.spec_tier() == Tier::Instance,
        DataKey::Name.spec_tier() == Tier::Instance,
        DataKey::Symbol.spec_tier() == Tier::Instance,
        DataKey::Signer.spec_tier() == Tier::Instance,
        DataKey::PlatformRecipient.spec_tier() == Tier::Instance,
        DataKey::WithdrawXlmRequest.spec_tier() == Tier::Instance,
        DataKey::LastWithdrawalTime.spec_tier() == Tier::Instance,
        DataKey::TotalSupply.spec_tier() == Tier::Instance,
        DataKey::TotalGasMint.spec_tier() == Tier::Instance,
        DataKey::CountMint.spec_tier() == Tier::Instance,
        DataKey::TotalGasTransfer.spec_tier() == Tier::Instance,
        DataKey::CountTransfer.spec_tier() == Tier::Instance,
        DataKey::PauseUnlockTime.spec_tier() == Tier::Instance,
        DataKey::PlatformFeeBps.spec_tier() == Tier::Instance,
        DataKey::DefaultRoyaltyBps.spec_tier() == Tier::Instance,
        DataKey::MintCooldownSeconds.spec_tier() == Tier::Instance,
        DataKey::ReentrancyLock.spec_tier() == Tier::Instance,
{
}

/// A key admits every value of its type and none of another. A key that the contract neither
/// reads nor fills with a fixed type admits every value, and has no kind.
pub proof fn law_keys_admit_their_type(
    value: ValueView,
    id: u32,
    a: Address,
    b: Address,
    key: DataKey,
)
    ensures
        DataKey::Paused.admits(value) <==> value is Bool,
        DataKey::ApprovalForAll(a, b).admits(value) <==> value is Bool,
        DataKey::BlacklistedClip(id).admits(value) <==> value is Bool,
        DataKey::Frozen(id).admits(value) <==> value is Bool,
        DataKey::ReentrancyLock.admits(value) <==> value is Bool,
        DataKey::NextTokenId.admits(value) <==> value is U32,
        DataKey::ClipIdMinted(id).admits(value) <==> value is U32,
        DataKey::LastWithdrawalTime.admits(value) <==> value is U64,
        DataKey::PauseUnlockTime.admits(value) <==> value is U64,
        DataKey::MintCooldownSeconds.admits(value) <==> value is U64,
        DataKey::RoyaltyBalance(id).admits(value) <==> value is I128,
        DataKey::Admin.admits(value) <==> value is Address,
        DataKey::PlatformRecipient.admits(value) <==> value is Address,
        DataKey::Approved(id).admits(value) <==> value is Address,
        DataKey::Signer.admits(value) <==> value is Bytes,
        DataKey::Name.admits(value) <==> value is Text,
        DataKey::Symbol.admits(value) <==> value is Text,
        DataKey::WithdrawXlmRequest.admits(value) <==> value is Withdrawal,
        DataKey::Token(id).admits(value) <==> value is Token,
        key.spec_kind() matches Some(kind) ==> (key.admits(value) <==> value.kind() == kind),
        key.spec_kind() is None ==> key.admits(value),
        key.spec_kind() is None <==> {
            ||| key is PauseReason
            ||| key is CustomTokenUri
            ||| key is MetadataUpdateCount
            ||| key is Balance
            ||| key is TotalSupply
            ||| key is TotalGasMint
            ||| key is CountMint
            ||| key is TotalGasTransfer
            ||| key is CountTransfer
            ||| key is MetadataRefreshTime
            ||| key is PlatformFeeBps
            ||| key is DefaultRoyaltyBps
            ||| key is LastMintTimestamp
        },
{
}

/// An event is published under the topic of its kind, whatever it reports.
pub proof fn law_topics_go_by_the_kind(event: Event)
    ensures
        event is SignerUpdated ==> event.spec_topic() == "sgn_upd"@,
        event is AdminChanged ==> event.spec_topic() == "adm_chg"@,
        event is Upgraded ==> event.spec_topic() == "upgrade"@,
        event is PauseScheduled ==> event.spec_topic() == "pause_sched"@,
        event is Unpaused ==> event.spec_topic() == "unpaused"@,
        event is WithdrawRequested ==> event.spec_topic() == "with_req"@,
        event is WithdrawExecuted ==> event.spec_topic() == "with_exe"@,
        event is Blacklisted ==> event.spec_topic() == "blacklist"@,
        event is Frozen ==> event.spec_topic() == "freeze"@,
        event is Unfrozen ==> event.spec_topic() == "unfreeze"@,
        event is Approval ==> event.spec_topic() == "approval"@,
        event is ApprovalForAll ==> event.spec_topic() == "app_all"@,
        event is Refunded ==> event.spec_topic() == "refunded"@,
        event is Burned ==> event.spec_topic() == "burn"@,
{
}

/// The errors are numbered from 1 to 24, in the order of their declaration.
pub proof fn law_codes_number_the_errors(error: Error)
    ensures
        error is Unauthorized <==> error.spec_code() == 1,
        error is InvalidTokenId <==> error.spec_code() == 2,
        error is ClipAlreadyMinted <==> error.spec_code() == 3,
        error is RoyaltyTooHigh <==> error.spec_code() == 4,
        error is InvalidRecipient <==> error.spec_code() == 5,
        error is InvalidSalePrice <==> error.spec_code() == 6,
        error is ContractPaused <==> error.spec_code() == 7,
        error is InvalidSignature <==> error.spec_code() == 8,
        error is SignerNotSet <==> error.spec_code() == 9,
        error is InvalidRoyaltySplit <==> error.spec_code() == 10,
        error is SoulboundTransferBlocked <==> error.spec_code() == 11,
        error is RoyaltyOverflow <==> error.spec_code() == 12,
        error is ClipBlacklisted <==> error.spec_code() == 13,
        error is NotAuthorizedToApprove <==> error.spec_code() == 14,
        error is WithdrawalStillLocked <==> error.spec_code() == 15,
        error is NoWithdrawalRequest <==> error.spec_code() == 16,
        error is BatchTooLarge <==> error.spec_code() == 17,
        error is TokenFrozen <==> error.spec_code() == 18,
        error is InsufficientBalance <==> error.spec_code() == 19,
        error is MetadataRefreshTooSoon <==> error.spec_code() == 20,
        error is InvalidImageUrl <==> error.spec_code() == 21,
        error is InvalidAnimationUrl <==> error.spec_code() == 22,
        error is MintCooldownActive <==> error.spec_code() == 23,
        error is Reentrancy <==> error.spec_code() == 24,
{
}

} // verus!
