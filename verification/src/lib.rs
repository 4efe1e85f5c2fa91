//! ClipCash NFT: the contract logic of a video-clip NFT collection, verified.
//!
//! A contract call works on an [`Env`]: the ledger entries the call may read,
//! the ledger time, and the address of the contract. The call answers with a
//! result, and leaves in the `Env` the list of [`Effect`]s that carry it out:
//! authorizations to demand, entries to write or remove, transfers, code updates and
//! events, in order. Whoever hosts the contract performs them.

#![allow(unused_imports)]

pub mod contract;
pub mod env;
pub mod error;
pub mod event;
pub mod key;
pub mod laws;
pub mod operation;
pub mod standard;
pub mod store;
pub mod types;
pub mod value;

pub use contract::{
    ClipsNftContract, DEFAULT_MINT_COOLDOWN_SECONDS, PAUSE_DELAY_SECONDS, VERSION,
    WITHDRAWAL_DELAY_SECONDS,
};
pub use env::{Effect, Env};
pub use error::Error;
pub use event::{
    AdminChangedEvent, ApprovalEvent, ApprovalForAllEvent, BatchMintEvent, BlacklistEvent,
    BurnEvent, CollectionUpdatedEvent, ConfigUpdatedEvent, Event, MetadataUpdatedEvent, MintEvent,
    PauseScheduledEvent, RefundedEvent, RoyaltyClaimedEvent, RoyaltyPaidEvent,
    RoyaltyRecipientUpdatedEvent, RoyaltyUpdatedEvent, SignerUpdatedEvent, TokenFrozenEvent,
    TokenUnfrozenEvent, TokenUriChangedEvent, TransferEvent, UpgradeEvent, WithdrawExecutedEvent,
    WithdrawRequestedEvent,
};
pub use key::{DataKey, Tier};
pub use operation::{Operation, Query};
pub use standard::NftStandard;
pub use types::{
    Address, Attribute, Bytes32, ContractInfo, Royalty, RoyaltyInfo, RoyaltyRecipient, TokenData,
    TokenId, WithdrawRequest,
};
pub use value::{Value, ValueKind};
