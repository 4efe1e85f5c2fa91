//! The events of the contract.

use crate::types::{Address, Bytes32, TokenId};
use vstd::prelude::*;

verus! {

/// Emitted when a withdrawal is requested.
#[derive(Copy, Clone, Debug, Eq, PartialEq, Structural)]
pub struct WithdrawRequestedEvent {
    pub amount: i128,
    pub unlock_time: u64,
}

/// Emitted when a withdrawal is executed.
#[derive(Copy, Clone, Debug, Eq, PartialEq, Structural)]
pub struct WithdrawExecutedEvent {
    pub amount: i128,
    pub recipient: Address,
}

/// Emitted when a new NFT is minted.
#[derive(Clone, Debug, Eq, PartialEq)]
pub struct MintEvent {
    pub to: Address,
    pub clip_id: u32,
    pub token_id: TokenId,
    pub metadata_uri: String,
}

/// Emitted when an NFT is burned.
#[derive(Copy, Clone, Debug, Eq, PartialEq, Structural)]
pub struct BurnEvent {
    pub owner: Address,
    pub token_id: TokenId,
    pub clip_id: u32,
}

/// Emitted when NFT ownership changes.
#[derive(Copy, Clone, Debug, Eq, PartialEq, Structural)]
pub struct TransferEvent {
    pub token_id: TokenId,
    pub from: Address,
    pub to: Address,
}

/// Emitted when a clip ID is blacklisted.
#[derive(Copy, Clone, Debug, Eq, PartialEq, Structural)]
pub struct BlacklistEvent {
    pub clip_id: u32,
}

/// Emitted when the operator of a specific token changes.
#[derive(Copy, Clone, Debug, Eq, PartialEq, Structural)]
pub struct ApprovalEvent {
    pub owner: Address,
    pub operator: Address,
    pub token_id: TokenId,
}

/// Emitted when approval-for-all is set or revoked.
#[derive(Copy, Clone, Debug, Eq, PartialEq, Structural)]
pub struct ApprovalForAllEvent {
    pub owner: Address,
    pub operator: Address,
    pub approved: bool,
}

/// Emitted when a royalty is paid.
#[derive(Copy, Clone, Debug, Eq, PartialEq, Structural)]
pub struct RoyaltyPaidEvent {
    pub token_id: TokenId,
    pub from: Address,
    pub to: Address,
    pub amount: i128,
}

/// Emitted when a royalty recipient is updated.
#[derive(Copy, Clone, Debug, Eq, PartialEq, Structural)]
pub struct RoyaltyRecipientUpdatedEvent {
    pub token_id: TokenId,
    pub old_recipient: Address,
    pub new_recipient: Address,
}

/// Emitted when a token URI is updated by the owner.
#[derive(Clone, Debug, Eq, PartialEq)]
pub struct TokenUriChangedEvent {
    pub token_id: TokenId,
    pub owner: Address,
    pub new_uri: String,
}

/// Emitted when the contract is upgraded.
#[derive(Copy, Clone, Debug, Eq, PartialEq, Structural)]
pub struct UpgradeEvent {
    pub new_wasm_hash: Bytes32,
}

/// Emitted when multiple NFTs are batch-minted.
#[derive(Copy, Clone, Debug, Eq, PartialEq, Structural)]
pub struct BatchMintEvent {
    pub to: Address,
    pub count: u32,
    pub first_token_id: TokenId,
}

/// Emitted when token metadata is updated.
#[derive(Clone, Debug, Eq, PartialEq)]
pub struct MetadataUpdatedEvent {
    pub token_id: TokenId,
    pub old_uri: String,
    pub new_uri: String,
}

/// Emitted when an NFT is frozen.
#[derive(Copy, Clone, Debug, Eq, PartialEq, Structural)]
pub struct TokenFrozenEvent {
    pub token_id: TokenId,
}

/// Emitted when an NFT is unfrozen.
#[derive(Copy, Clone, Debug, Eq, PartialEq, Structural)]
pub struct TokenUnfrozenEvent {
    pub token_id: TokenId,
}

/// Emitted when the backend signer key is registered or rotated.
#[derive(Copy, Clone, Debug, Eq, PartialEq, Structural)]
pub struct SignerUpdatedEvent {
    pub new_pubkey: Bytes32,
}

/// Emitted when a token's royalty configuration is updated by the admin.
#[derive(Copy, Clone, Debug, Eq, PartialEq, Structural)]
pub struct RoyaltyUpdatedEvent {
    pub token_id: TokenId,
}

/// Emitted when a pause is scheduled (24-hour timelock starts).
#[derive(Copy, Clone, Debug, Eq, PartialEq, Structural)]
pub struct PauseScheduledEvent {
    /// Ledger timestamp at which the pause becomes active.
    pub active_at: u64,
}

/// Emitted when the collection name or symbol is updated.
#[derive(Clone, Debug, Eq, PartialEq)]
pub struct CollectionUpdatedEvent {
    /// "name" or "symbol"
    pub field: String,
    pub new_value: String,
}

/// Emitted when a platform config value is updated.
#[derive(Clone, Debug, Eq, PartialEq)]
pub struct ConfigUpdatedEvent {
    pub key: String,
    pub new_value: u32,
}

/// Emitted when accumulated royalties are claimed.
#[derive(Copy, Clone, Debug, Eq, PartialEq, Structural)]
pub struct RoyaltyClaimedEvent {
    pub token_id: TokenId,
    pub recipient: Address,
    pub amount: i128,
}

/// Emitted when the contract admin is changed.
#[derive(Copy, Clone, Debug, Eq, PartialEq, Structural)]
pub struct AdminChangedEvent {
    pub old_admin: Address,
    pub new_admin: Address,
}

/// Emitted when an NFT is burned and unclaimed royalties are refunded.
#[derive(Copy, Clone, Debug, Eq, PartialEq, Structural)]
pub struct RefundedEvent {
    pub token_id: TokenId,
    pub recipient: Address,
    pub amount: i128,
}

/// An event as a contract call publishes it.
#[derive(Copy, Clone, Debug, Eq, PartialEq, Structural)]
pub enum Event {
    SignerUpdated(SignerUpdatedEvent),
    AdminChanged(AdminChangedEvent),
    Upgraded(UpgradeEvent),
    PauseScheduled(PauseScheduledEvent),
    Unpaused,
    WithdrawRequested(WithdrawRequestedEvent),
    WithdrawExecuted(WithdrawExecutedEvent),
    Blacklisted(BlacklistEvent),
    Frozen(TokenFrozenEvent),
    Unfrozen(TokenUnfrozenEvent),
    Approval(ApprovalEvent),
    ApprovalForAll(ApprovalForAllEvent),
    Refunded(RefundedEvent),
    Burned(BurnEvent),
}

impl Event {
    /// The topic that the event is published under.
    pub open spec fn spec_topic(self) -> Seq<char> {
        match self {
            Event::SignerUpdated(_) => "sgn_upd"@,
            Event::AdminChanged(_) => "adm_chg"@,
            Event::Upgraded(_) => "upgrade"@,
            Event::PauseScheduled(_) => "pause_sched"@,
            Event::Unpaused => "unpaused"@,
            Event::WithdrawRequested(_) => "with_req"@,
            Event::WithdrawExecuted(_) => "with_exe"@,
            Event::Blacklisted(_) => "blacklist"@,
            Event::Frozen(_) => "freeze"@,
            Event::Unfrozen(_) => "unfreeze"@,
            Event::Approval(_) => "approval"@,
            Event::ApprovalForAll(_) => "app_all"@,
            Event::Refunded(_) => "refunded"@,
            Event::Burned(_) => "burn"@,
        }
    }

    /// Returns the topic that the event is published under.
    pub fn topic(&self) -> (topic: &'static str)
        ensures
            topic@ == self.spec_topic(),
    {
        match self {
            Event::SignerUpdated(_) => "sgn_upd",
            Event::AdminChanged(_) => "adm_chg",
            Event::Upgraded(_) => "upgrade",
            Event::PauseScheduled(_) => "pause_sched",
            Event::Unpaused => "unpaused",
            Event::WithdrawRequested(_) => "with_req",
            Event::WithdrawExecuted(_) => "with_exe",
            Event::Blacklisted(_) => "blacklist",
            Event::Frozen(_) => "freeze",
            Event::Unfrozen(_) => "unfreeze",
            Event::Approval(_) => "approval",
            Event::ApprovalForAll(_) => "app_all",
            Event::Refunded(_) => "refunded",
            Event::Burned(_) => "burn",
        }
    }
}

} // verus!
