//! The errors a contract call can return.

use vstd::prelude::*;

verus! {

/// All errors returned by the contract.
#[derive(Copy, Clone, Debug, Eq, PartialEq, PartialOrd, Ord, Structural)]
pub enum Error {
    /// Caller is not authorized for this operation.
    Unauthorized,
    /// Token ID does not exist.
    InvalidTokenId,
    /// Clip has already been minted.
    ClipAlreadyMinted,
    /// Total royalty basis points exceed 10 000 (100 %).
    RoyaltyTooHigh,
    /// Royalty recipient address is invalid or missing.
    InvalidRecipient,
    /// Sale price must be greater than zero.
    InvalidSalePrice,
    /// Contract is paused: minting and transfers are blocked.
    ContractPaused,
    /// Backend Ed25519 signature over the mint payload is invalid.
    InvalidSignature,
    /// No backend signer public key has been registered yet.
    SignerNotSet,
    /// Royalty split configuration is invalid.
    InvalidRoyaltySplit,
    /// Token is soulbound (non-transferable).
    SoulboundTransferBlocked,
    /// Royalty calculation would overflow `i128`.
    RoyaltyOverflow,
    /// Clip ID has been blacklisted by the admin.
    ClipBlacklisted,
    /// Caller is not the owner or an approved operator.
    NotAuthorizedToApprove,
    /// Withdrawal is still locked by its safety delay.
    WithdrawalStillLocked,
    /// No active withdrawal request found.
    NoWithdrawalRequest,
    /// Batch mint request exceeds the configured gas-safe limit.
    BatchTooLarge,
    /// Token is frozen and cannot be transferred or burned.
    TokenFrozen,
    /// Insufficient balance for this operation.
    InsufficientBalance,
    /// Metadata was refreshed too recently (30-day cooldown not elapsed).
    MetadataRefreshTooSoon,
    /// Image URL must start with "https://" or "ipfs://".
    InvalidImageUrl,
    /// Animation URL must start with "https://" or "ipfs://".
    InvalidAnimationUrl,
    /// Mint attempted before the wallet cooldown elapsed.
    MintCooldownActive,
    /// Reentrant call detected while a guarded entrypoint is executing.
    Reentrancy,
}

impl Error {
    /// The number under which callers of the contract see this error.
    pub open spec fn spec_code(self) -> u32 {
        match self {
            Error::Unauthorized => 1,
            Error::InvalidTokenId => 2,
            Error::ClipAlreadyMinted => 3,
            Error::RoyaltyTooHigh => 4,
            Error::InvalidRecipient => 5,
            Error::InvalidSalePrice => 6,
            Error::ContractPaused => 7,
            Error::InvalidSignature => 8,
            Error::SignerNotSet => 9,
            Error::InvalidRoyaltySplit => 10,
            Error::SoulboundTransferBlocked => 11,
            Error::RoyaltyOverflow => 12,
            Error::ClipBlacklisted => 13,
            Error::NotAuthorizedToApprove => 14,
            Error::WithdrawalStillLocked => 15,
            Error::NoWithdrawalRequest => 16,
            Error::BatchTooLarge => 17,
            Error::TokenFrozen => 18,
            Error::InsufficientBalance => 19,
            Error::MetadataRefreshTooSoon => 20,
            Error::InvalidImageUrl => 21,
            Error::InvalidAnimationUrl => 22,
            Error::MintCooldownActive => 23,
            Error::Reentrancy => 24,
        }
    }

    /// Returns the number under which callers of the contract see this error.
    pub fn code(self) -> (code: u32)
        ensures
            code == self.spec_code(),
            1 <= code <= 24,
    {
        match self {
            Error::Unauthorized => 1,
            Error::InvalidTokenId => 2,
            Error::ClipAlreadyMinted => 3,
            Error::RoyaltyTooHigh => 4,
            Error::InvalidRecipient => 5,
            Error::InvalidSalePrice => 6,
            Error::ContractPaused => 7,
            Error::InvalidSignature => 8,
            Error::SignerNotSet => 9,
            Error::InvalidRoyaltySplit => 10,
            Error::SoulboundTransferBlocked => 11,
            Error::RoyaltyOverflow => 12,
            Error::ClipBlacklisted => 13,
            Error::NotAuthorizedToApprove => 14,
            Error::WithdrawalStillLocked => 15,
            Error::NoWithdrawalRequest => 16,
            Error::BatchTooLarge => 17,
            Error::TokenFrozen => 18,
            Error::InsufficientBalance => 19,
            Error::MetadataRefreshTooSoon => 20,
            Error::InvalidImageUrl => 21,
            Error::InvalidAnimationUrl => 22,
            Error::MintCooldownActive => 23,
            Error::Reentrancy => 24,
        }
    }
}

} // verus!
