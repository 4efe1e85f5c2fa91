//! Addresses, tokens and royalties.

use vstd::prelude::*;

verus! {

/// A 256-bit value (a public key, a hash), as its two big-endian halves.
#[derive(Copy, Clone, Debug, Eq, PartialEq, Structural)]
pub struct Bytes32 {
    /// The first sixteen bytes.
    pub high: u128,
    /// The last sixteen bytes.
    pub low: u128,
}

/// An address on the ledger.
#[derive(Copy, Clone, Debug, Eq, PartialEq, Structural)]
pub enum Address {
    /// An account, by its Ed25519 public key.
    Account(Bytes32),
    /// A contract, by its hash.
    Contract(Bytes32),
}

/// Opaque token identifier (auto-incremented).
pub type TokenId = u32;

/// A trait of a token, after the OpenSea metadata standard.
#[derive(Debug, Eq, PartialEq)]
pub struct Attribute {
    /// OpenSea trait type (e.g. "Quality").
    pub trait_type: String,
    /// OpenSea trait value (e.g. "Gold").
    pub value: String,
}

/// All per-token state, packed into a single persistent storage entry.
#[derive(Debug, Eq, PartialEq)]
pub struct TokenData {
    /// Current owner of the token.
    pub owner: Address,
    /// Off-chain clip identifier this token was minted for.
    pub clip_id: u32,
    /// When `true` the token cannot be transferred (soulbound).
    pub is_soulbound: bool,
    /// Metadata URI (IPFS or Arweave).
    pub metadata_uri: String,
    /// Static thumbnail URL (optional). Recommended formats: PNG, JPEG, GIF
    /// (static), SVG. Max 100 MB. Must be a fully-qualified URL.
    pub image: Option<String>,
    /// Animated preview URL (optional). Recommended formats: GIF, MP4, WEBM,
    /// GLB/GLTF, HTML. Max 100 MB. Must be a fully-qualified URL. Takes
    /// precedence for playback; `image` is used as the fallback thumbnail.
    pub animation_url: Option<String>,
    /// Optional OpenSea description.
    pub description: Option<String>,
    /// Optional OpenSea external URL.
    pub external_url: Option<String>,
    /// Optional OpenSea trait attributes.
    pub attributes: Vec<Attribute>,
    /// Royalty configuration for secondary sales.
    pub royalty: Royalty,
}

/// A single royalty split recipient.
#[derive(Copy, Clone, Debug, Eq, PartialEq, Structural)]
pub struct RoyaltyRecipient {
    /// Address that receives this portion of the royalty.
    pub recipient: Address,
    /// Share expressed in basis points (1 bp = 0.01 %).
    pub basis_points: u32,
}

/// Royalty configuration stored per token.
///
/// `asset_address = None` means royalties are expected in native XLM.
/// `asset_address = Some(addr)` means a SEP-0041 token at `addr`.
#[derive(Debug, Eq, PartialEq)]
pub struct Royalty {
    /// Ordered list of recipients. The first one is the creator.
    pub recipients: Vec<RoyaltyRecipient>,
    /// Optional SEP-0041 asset contract address.
    pub asset_address: Option<Address>,
}

/// Royalty payment info for a sale.
#[derive(Copy, Clone, Debug, Eq, PartialEq, Structural)]
pub struct RoyaltyInfo {
    /// Primary royalty receiver (first recipient in the split).
    pub receiver: Address,
    /// Total royalty amount in the same denomination as the sale price.
    pub royalty_amount: i128,
    /// `None`: pay in XLM; `Some(addr)`: pay in that SEP-0041 token.
    pub asset_address: Option<Address>,
}

/// Contract metadata and key settings for frontend bootstrap.
#[derive(Debug, Eq, PartialEq)]
pub struct ContractInfo {
    pub name: String,
    pub symbol: String,
    pub version: u32,
    pub owner: Address,
    pub platform_fee: u32,
}

/// Emergency withdrawal request.
#[derive(Copy, Clone, Debug, Eq, PartialEq, Structural)]
pub struct WithdrawRequest {
    pub amount: i128,
    pub unlock_time: u64,
}

/// What an [`Attribute`] says.
pub ghost struct AttributeView {
    pub trait_type: Seq<char>,
    pub value: Seq<char>,
}

/// What a [`Royalty`] says.
pub ghost struct RoyaltyView {
    pub recipients: Seq<RoyaltyRecipient>,
    pub asset_address: Option<Address>,
}

/// What a [`TokenData`] says.
pub ghost struct TokenView {
    pub owner: Address,
    pub clip_id: u32,
    pub is_soulbound: bool,
    pub metadata_uri: Seq<char>,
    pub image: Option<Seq<char>>,
    pub animation_url: Option<Seq<char>>,
    pub description: Option<Seq<char>>,
    pub external_url: Option<Seq<char>>,
    pub attributes: Seq<AttributeView>,
    pub royalty: RoyaltyView,
}

/// The characters of an optional text.
pub open spec fn text_view(text: Option<String>) -> Option<Seq<char>> {
    match text {
        Some(s) => Some(s@),
        None => None,
    }
}

impl View for Attribute {
    type V = AttributeView;

    open spec fn view(&self) -> AttributeView {
        AttributeView { trait_type: self.trait_type@, value: self.value@ }
    }
}

impl View for Royalty {
    type V = RoyaltyView;

    open spec fn view(&self) -> RoyaltyView {
        RoyaltyView { recipients: self.recipients@, asset_address: self.asset_address }
    }
}

impl View for TokenData {
    type V = TokenView;

    open spec fn view(&self) -> TokenView {
        TokenView {
            owner: self.owner,
            clip_id: self.clip_id,
            is_soulbound: self.is_soulbound,
            metadata_uri: self.metadata_uri@,
            image: text_view(self.image),
            animation_url: text_view(self.animation_url),
            description: text_view(self.description),
            external_url: text_view(self.external_url),
            attributes: self.attributes@.map_values(|a: Attribute| a@),
            royalty: self.royalty@,
        }
    }
}

impl Clone for Attribute {
    fn clone(&self) -> (copy: Self)
        ensures
            copy@ == self@,
    {
        Attribute { trait_type: self.trait_type.clone(), value: self.value.clone() }
    }
}

impl Clone for Royalty {
    fn clone(&self) -> (copy: Self)
        ensures
            copy@ == self@,
    {
        let copy = Royalty {
            recipients: self.recipients.clone(),
            asset_address: self.asset_address,
        };
        assert(copy.recipients@ =~= self.recipients@);
        copy
    }
}

impl Clone for TokenData {
    fn clone(&self) -> (copy: Self)
        ensures
            copy@ == self@,
    {
        let copy = TokenData {
            owner: self.owner,
            clip_id: self.clip_id,
            is_soulbound: self.is_soulbound,
            metadata_uri: self.metadata_uri.clone(),
            image: self.image.clone(),
            animation_url: self.animation_url.clone(),
            description: self.description.clone(),
            external_url: self.external_url.clone(),
            attributes: self.attributes.clone(),
            royalty: self.royalty.clone(),
        };
        assert(copy@.attributes =~= self@.attributes);
        copy
    }
}

} // verus!
