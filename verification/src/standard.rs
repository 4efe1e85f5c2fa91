//! The interface that marketplaces expect of an NFT contract.

use crate::env::Env;
use crate::error::Error;
use crate::types::{Address, TokenId};
use vstd::prelude::*;

verus! {

/// Emerging Soroban NFT standard interface (ERC-721 adapted).
/// Documents the expected API surface for marketplace interoperability.
pub trait NftStandard {
    /// Returns how many tokens `owner` holds.
    fn balance_of(env: &Env, owner: Address) -> u32;

    /// Returns the owner of `token_id`.
    fn owner_of(env: &Env, token_id: TokenId) -> Result<Address, Error>;

    /// Transfers `token_id` from `from` to `to`.
    fn transfer(env: &mut Env, from: Address, to: Address, token_id: TokenId) -> Result<(), Error>;

    /// Approves `operator` to manage `token_id` (or clears approval when `None`).
    fn approve(
        env: &mut Env,
        caller: Address,
        operator: Option<Address>,
        token_id: TokenId,
    ) -> Result<(), Error>;

    /// Returns the per-token approved operator, if any.
    fn get_approved(env: &Env, token_id: TokenId) -> Option<Address>;

    /// Grants or revokes operator rights for all tokens owned by `caller`.
    fn set_approval_for_all(
        env: &mut Env,
        caller: Address,
        operator: Address,
        approved: bool,
    ) -> Result<(), Error>;

    /// Returns whether `operator` may manage all tokens for `owner`.
    fn is_approved_for_all(env: &Env, owner: Address, operator: Address) -> bool;

    /// Returns the number of minted tokens.
    fn total_supply(env: &Env) -> u32;

    /// Returns the metadata URI for `token_id`.
    fn token_uri(env: &Env, token_id: TokenId) -> Result<String, Error>;

    /// Returns the collection name.
    fn name(env: &Env) -> String;

    /// Returns the collection symbol.
    fn symbol(env: &Env) -> String;

    /// Revokes approval for a specific token ID.
    fn revoke_approval(env: &mut Env, token_id: TokenId) -> Result<(), Error>;

    /// Revokes approval for an operator managing all caller tokens.
    fn revoke_all_approvals(
        env: &mut Env,
        caller: Address,
        operator: Address,
    ) -> Result<(), Error>;

    /// Destroys a token and handles the optional refund of remaining royalties.
    fn burn(env: &mut Env, token_id: TokenId, refund_royalty: bool) -> Result<(), Error>;
}

} // verus!
