//! Collections, their settings, and the errors of the contract endpoints.

use vstd::prelude::*;

use crate::token::{EgldOrEsdtToken, MintPrice};

verus! {

/// Longest collection id accepted by `add_collection`.
pub const MAX_COLLECTION_ID_LEN: usize = 50;

/// The EGLD (in its smallest unit) that issuing a collection token costs: 0.05 EGLD.
pub const NFT_ISSUE_COST: u128 = 50_000_000_000_000_000;

/// Royalties in basis points; this value is 100%.
pub const ROYALTIES_MAX: u128 = 10_000;

/// How many NFTs a purchase buys when the buyer names no count.
pub const NFT_AMOUNT: u32 = 1;

/// The mint window: minting is open from `start` (inclusive) to `end` (exclusive).
#[derive(Debug, Clone, PartialEq, Eq)]
pub struct TimePeriod {
    pub start: u64,
    pub end: u64,
}

/// The stored description of a collection.
#[derive(Debug, Clone, PartialEq, Eq)]
pub struct CollectionInfo {
    pub collection_hash: Vec<u8>,
    pub token_display_name: Vec<u8>,
    pub media_type: Vec<u8>,
    pub royalties: u128,
    pub mint_period: TimePeriod,
    pub whitelist_expire_timestamp: u64,
}

/// Size and price of a collection, kept while its token is being issued.
#[derive(Debug, Clone, PartialEq, Eq)]
pub struct TempCallbackTierInfo {
    pub total_nfts: usize,
    pub mint_price: MintPrice,
}

/// Everything `add_collection` keeps for the issue callback.
#[derive(Debug, Clone, PartialEq, Eq)]
pub struct TempCallbackStorageInfo {
    pub collection_info: CollectionInfo,
    pub tags: Vec<Vec<u8>>,
    pub tier_info: TempCallbackTierInfo,
}

/// Why an endpoint refuses a call. A refused call changes nothing.
#[derive(Debug, PartialEq, Eq, Structural, Clone, Copy)]
pub enum ContractError {
    /// The endpoint is reserved to the contract owner.
    OnlyOwner,
    /// The caller is not on the admin whitelist.
    NotAdmin,
    /// The collection id is empty, too long, or not registered.
    InvalidCollectionId,
    /// The EGLD paid is not the issue cost.
    InvalidIssuePayment,
    InvalidMediaType,
    RoyaltiesTooHigh,
    InvalidPriceToken,
    CollectionHashAlreadyExists,
    CollectionAlreadyExists,
    InvalidTimestamps,
    InvalidTotalNfts,
    InvalidMintPriceAmount,
    /// A storage entry that the endpoint reads was never written.
    MissingStorageValue,
    InvalidPayment,
    MintNotStarted,
    MintEnded,
    NotInWhitelist,
    InvalidClaimAmount,
    NotEnoughNftsAvailable,
    AlreadyClaimedThisEpoch,
    /// The issued token's identifier is not a valid ESDT identifier.
    InvalidTokenId,
}

impl ContractError {
    /// The text of the message with which a refused transaction fails.
    pub open spec fn message_text(self) -> Seq<char> {
        match self {
            ContractError::OnlyOwner => "Endpoint can only be called by owner"@,
            ContractError::NotAdmin => "Item not whitelisted"@,
            ContractError::InvalidCollectionId => "Invalid collection id"@,
            ContractError::InvalidIssuePayment => "Invalid payment amount. Issue costs exactly 0.05 EGLD"@,
            ContractError::InvalidMediaType => "Invalid media type"@,
            ContractError::RoyaltiesTooHigh => "Royalties cannot be over 100%"@,
            ContractError::InvalidPriceToken => "Invalid price token"@,
            ContractError::CollectionHashAlreadyExists => "Collection hash already exists"@,
            ContractError::CollectionAlreadyExists => "Collection already exists"@,
            ContractError::InvalidTimestamps => "Invalid timestamps"@,
            ContractError::InvalidTotalNfts => "Invalid total nfts"@,
            ContractError::InvalidMintPriceAmount => "Invalid mint price token amount"@,
            ContractError::MissingStorageValue => "storage decode error: input too short"@,
            ContractError::InvalidPayment => "Invalid payment"@,
            ContractError::MintNotStarted => "May not mint yet"@,
            ContractError::MintEnded => "May not mint after deadline"@,
            ContractError::NotInWhitelist => "Not in whitelist"@,
            ContractError::InvalidClaimAmount => "Claim amount must be greater than 0"@,
            ContractError::NotEnoughNftsAvailable => "Not enough NFTs available"@,
            ContractError::AlreadyClaimedThisEpoch => "Already claimed this epoch"@,
            ContractError::InvalidTokenId => "Invalid token ID"@,
        }
    }

    /// The message with which the transaction fails.
    pub fn message(&self) -> (r: &'static str)
        ensures
            r@ == self.message_text(),
    {
        match self {
            ContractError::OnlyOwner => "Endpoint can only be called by owner",
            ContractError::NotAdmin => "Item not whitelisted",
            ContractError::InvalidCollectionId => "Invalid collection id",
            ContractError::InvalidIssuePayment => "Invalid payment amount. Issue costs exactly 0.05 EGLD",
            ContractError::InvalidMediaType => "Invalid media type",
            ContractError::RoyaltiesTooHigh => "Royalties cannot be over 100%",
            ContractError::InvalidPriceToken => "Invalid price token",
            ContractError::CollectionHashAlreadyExists => "Collection hash already exists",
            ContractError::CollectionAlreadyExists => "Collection already exists",
            ContractError::InvalidTimestamps => "Invalid timestamps",
            ContractError::InvalidTotalNfts => "Invalid total nfts",
            ContractError::InvalidMintPriceAmount => "Invalid mint price token amount",
            ContractError::MissingStorageValue => "storage decode error: input too short",
            ContractError::InvalidPayment => "Invalid payment",
            ContractError::MintNotStarted => "May not mint yet",
            ContractError::MintEnded => "May not mint after deadline",
            ContractError::NotInWhitelist => "Not in whitelist",
            ContractError::InvalidClaimAmount => "Claim amount must be greater than 0",
            ContractError::NotEnoughNftsAvailable => "Not enough NFTs available",
            ContractError::AlreadyClaimedThisEpoch => "Already claimed this epoch",
            ContractError::InvalidTokenId => "Invalid token ID",
        }
    }
}

/// The token issue that `add_collection` asks the host to start, with the
/// arguments its callback is to receive.
#[derive(Debug, Clone, PartialEq, Eq)]
pub struct IssueRequest {
    pub issue_cost: u128,
    pub token_display_name: Vec<u8>,
    pub token_ticker: Vec<u8>,
    pub callback_collection_hash: Vec<u8>,
    pub callback_collection_id: Vec<u8>,
}

/// A collection whose token was issued: the host sets `total_nfts` ids
/// available for the collection and announces the creation.
#[derive(Debug, Clone, PartialEq, Eq)]
pub struct CollectionCreated {
    pub collection_id: Vec<u8>,
    pub token_id: Vec<u8>,
    pub total_nfts: usize,
}

/// A purchase that `mint_nft` accepted. The host credits the payment to the
/// accumulated mint payments, mints `nfts` NFTs of the collection to the
/// buyer, announces the purchase, and returns the NFTs sent.
#[derive(Debug, Clone, PartialEq, Eq)]
pub struct Purchase {
    pub buyer: Vec<u8>,
    pub collection_id: Vec<u8>,
    pub nfts: usize,
    pub paid_token: EgldOrEsdtToken,
    pub paid_amount: u128,
}

/// NFTs to mint to `to`: `amount` NFTs of the collection.
#[derive(Debug, Clone, PartialEq, Eq)]
pub struct MintRequest {
    pub to: Vec<u8>,
    pub collection_id: Vec<u8>,
    pub amount: usize,
}

/// One NFT to create when NFTs are claimed by id: `amount` NFTs of
/// `token_id` named `name`, with `royalties` and an empty hash. Its
/// attributes are built from the collection hash, the collection id and the
/// NFT id; its URIs, in this order, are the main file (collection hash, NFT
/// id, media type), the NFT's JSON (collection hash, NFT id) and the
/// collection's JSON (collection hash).
#[derive(Debug, Clone, PartialEq, Eq)]
pub struct NftCreation {
    pub token_id: Vec<u8>,
    pub amount: u128,
    pub name: Vec<u8>,
    pub royalties: u128,
    pub hash: Vec<u8>,
    pub collection_hash: Vec<u8>,
    pub collection_id: Vec<u8>,
    pub nft_id: usize,
    pub media_type: Vec<u8>,
}

/// Which accumulated balance a claim pays out.
#[derive(Debug, PartialEq, Eq, Structural, Clone, Copy)]
pub enum ClaimSource {
    Royalties,
    MintPayments,
}

/// A payout of an accumulated balance to the address set for it.
#[derive(Debug, Clone, PartialEq, Eq)]
pub struct ClaimRequest {
    pub to: Vec<u8>,
    pub source: ClaimSource,
}

/// Why an asynchronous call failed, as the callback receives it.
#[derive(Debug, Clone, PartialEq, Eq)]
pub struct AsyncCallError {
    pub err_code: u32,
    pub err_msg: Vec<u8>,
}

} // verus!
