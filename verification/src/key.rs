//! The keys of ledger entries.

use crate::types::{Address, TokenId};
use crate::value::{ValueKind, ValueView};
use vstd::prelude::*;

verus! {

/// Where an entry is kept.
#[derive(Copy, Clone, Debug, Eq, PartialEq, Structural)]
pub enum Tier {
    /// Loaded with the contract on every call, and shared by all calls.
    Instance,
    /// One entry at a time, with a fee and a lifetime of its own.
    Persistent,
}

/// Typed storage keys.
#[derive(Copy, Clone, Debug, Eq, PartialEq, Structural)]
pub enum DataKey {
    /// Contract administrator address (instance).
    Admin,
    /// Monotonically increasing token ID counter (instance).
    /// `total_supply = NextTokenId - 1`.
    NextTokenId,
    /// Pause flag (instance).
    Paused,
    /// Pause reason (instance).
    PauseReason,
    /// Collection name (instance).
    Name,
    /// Collection symbol (instance).
    Symbol,
    /// Packed owner + clip_id + metadata + royalty for a token (persistent).
    Token(TokenId),
    /// Dedup guard: clip_id to token_id (persistent).
    ClipIdMinted(u32),
    /// Custom metadata URI override per token (persistent).
    CustomTokenUri(TokenId),
    /// Ed25519 public key of the trusted backend signer (instance).
    Signer,
    /// Platform address that always receives the default 1 % royalty cut (instance).
    PlatformRecipient,
    /// Per-token approval: token_id to approved operator (persistent).
    Approved(TokenId),
    /// Metadata update count per token (persistent).
    MetadataUpdateCount(TokenId),
    /// Operator approval for all tokens of an owner: (owner, operator) to flag (persistent).
    ApprovalForAll(Address, Address),
    /// Blacklist flag for a clip_id (persistent).
    BlacklistedClip(u32),
    /// Pending withdrawal request (instance).
    WithdrawXlmRequest,
    /// Timestamp of the last successfully executed withdrawal (instance).
    LastWithdrawalTime,
    /// Per-address balance (persistent).
    Balance(Address),
    /// Current total supply of tokens (instance).
    TotalSupply,
    /// Gas spent on mints (instance).
    TotalGasMint,
    /// Number of mints whose gas was tracked (instance).
    CountMint,
    /// Gas spent on transfers (instance).
    TotalGasTransfer,
    /// Number of transfers whose gas was tracked (instance).
    CountTransfer,
    /// Frozen status per token (persistent).
    Frozen(TokenId),
    /// Timestamp of the last metadata refresh per token (persistent).
    MetadataRefreshTime(TokenId),
    /// Ledger timestamp at which a scheduled pause becomes active (instance).
    PauseUnlockTime,
    /// Platform fee in basis points (instance).
    PlatformFeeBps,
    /// Default royalty in basis points (instance).
    DefaultRoyaltyBps,
    /// Accumulated royalty balance per token (persistent).
    RoyaltyBalance(TokenId),
    /// Last successful mint timestamp per wallet (persistent).
    LastMintTimestamp(Address),
    /// Required delay between mints from one wallet (instance).
    MintCooldownSeconds,
    /// Reentrancy guard for calls into token contracts (instance).
    ReentrancyLock,
}

impl DataKey {
    /// Where the entry under this key is kept.
    pub open spec fn spec_tier(self) -> Tier {
        match self {
            DataKey::Token(_) | DataKey::ClipIdMinted(_) | DataKey::CustomTokenUri(_)
            | DataKey::Approved(_) | DataKey::MetadataUpdateCount(_)
            | DataKey::ApprovalForAll(_, _) | DataKey::BlacklistedClip(_) | DataKey::Balance(_)
            | DataKey::Frozen(_) | DataKey::MetadataRefreshTime(_) | DataKey::RoyaltyBalance(_)
            | DataKey::LastMintTimestamp(_) => Tier::Persistent,
            _ => Tier::Instance,
        }
    }

    /// The type of the value under this key, where the contract fixes one.
    pub open spec fn spec_kind(self) -> Option<ValueKind> {
        match self {
            DataKey::Paused | DataKey::ApprovalForAll(_, _) | DataKey::BlacklistedClip(_)
            | DataKey::Frozen(_) | DataKey::ReentrancyLock => Some(ValueKind::Bool),
            DataKey::NextTokenId | DataKey::ClipIdMinted(_) => Some(ValueKind::U32),
            DataKey::LastWithdrawalTime | DataKey::PauseUnlockTime
            | DataKey::MintCooldownSeconds => Some(ValueKind::U64),
            DataKey::RoyaltyBalance(_) => Some(ValueKind::I128),
            DataKey::Admin | DataKey::PlatformRecipient
            | DataKey::Approved(_) => Some(ValueKind::Address),
            DataKey::Signer => Some(ValueKind::Bytes),
            DataKey::Name | DataKey::Symbol => Some(ValueKind::Text),
            DataKey::WithdrawXlmRequest => Some(ValueKind::Withdrawal),
            DataKey::Token(_) => Some(ValueKind::Token),
            _ => None,
        }
    }

    /// Whether a value may stand under this key.
    pub open spec fn admits(self, value: ValueView) -> bool {
        match self.spec_kind() {
            Some(kind) => value.kind() == kind,
            None => true,
        }
    }

    /// Returns where the entry under this key is kept.
    pub fn tier(&self) -> (tier: Tier)
        ensures
            tier == self.spec_tier(),
    {
        match self {
            DataKey::Token(_) | DataKey::ClipIdMinted(_) | DataKey::CustomTokenUri(_)
            | DataKey::Approved(_) | DataKey::MetadataUpdateCount(_)
            | DataKey::ApprovalForAll(_, _) | DataKey::BlacklistedClip(_) | DataKey::Balance(_)
            | DataKey::Frozen(_) | DataKey::MetadataRefreshTime(_) | DataKey::RoyaltyBalance(_)
            | DataKey::LastMintTimestamp(_) => Tier::Persistent,
            _ => Tier::Instance,
        }
    }

    /// Returns the type of the value under this key, where the contract fixes one.
    pub fn kind(&self) -> (kind: Option<ValueKind>)
        ensures
            kind == self.spec_kind(),
    {
        match self {
            DataKey::Paused | DataKey::ApprovalForAll(_, _) | DataKey::BlacklistedClip(_)
            | DataKey::Frozen(_) | DataKey::ReentrancyLock => Some(ValueKind::Bool),
            DataKey::NextTokenId | DataKey::ClipIdMinted(_) => Some(ValueKind::U32),
            DataKey::LastWithdrawalTime | DataKey::PauseUnlockTime
            | DataKey::MintCooldownSeconds => Some(ValueKind::U64),
            DataKey::RoyaltyBalance(_) => Some(ValueKind::I128),
            DataKey::Admin | DataKey::PlatformRecipient
            | DataKey::Approved(_) => Some(ValueKind::Address),
            DataKey::Signer => Some(ValueKind::Bytes),
            DataKey::Name | DataKey::Symbol => Some(ValueKind::Text),
            DataKey::WithdrawXlmRequest => Some(ValueKind::Withdrawal),
            DataKey::Token(_) => Some(ValueKind::Token),
            _ => None,
        }
    }
}

} // verus!
