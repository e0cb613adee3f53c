//! The NFT collection minter: its storage and its endpoints.

use vstd::prelude::*;

use crate::collection::{
    AsyncCallError, ClaimRequest, MintRequest, NftCreation, Purchase, ClaimSource, CollectionCreated, CollectionInfo, ContractError, IssueRequest,
    TempCallbackStorageInfo, TempCallbackTierInfo, TimePeriod, MAX_COLLECTION_ID_LEN, NFT_AMOUNT,
    NFT_ISSUE_COST, ROYALTIES_MAX,
};
use crate::store::{KeyMap, KeySet, StorageKey};
use crate::whitelist::{add_all, list_add_all, list_remove_all, remove_all};
use crate::token::{
    is_exact_total, is_valid_esdt_identifier, valid_esdt_identifier, valid_token, EgldOrEsdtToken,
    EsdtTokenPayment, MintPrice, Payment,
};

verus! {

/// The storage of the minter as values.
pub struct MinterState {
    pub royalties_claim_address: Seq<u8>,
    pub mint_payments_claim_address: Seq<u8>,
    /// Addresses allowed to manage collections.
    pub admins: Set<Seq<u8>>,
    pub collection_hashes: Set<Seq<u8>>,
    pub collections: Set<Seq<u8>>,
    /// Collections whose token is being issued, with what the callback stores.
    pub pending: Map<Seq<u8>, TempCallbackStorageInfo>,
    pub nft_token: Map<Seq<u8>, Vec<u8>>,
    pub collection_info: Map<Seq<u8>, CollectionInfo>,
    pub total_nfts: Map<Seq<u8>, usize>,
    pub price_for_tier: Map<Seq<u8>, MintPrice>,
    pub tags: Map<Seq<u8>, Vec<Vec<u8>>>,
    /// For each collection id, the addresses allowed to mint before the
    /// whitelist expires, in the order kept; empty where none were added.
    pub mint_whitelist: Map<Seq<u8>, Seq<Seq<u8>>>,
}

impl MinterState {
    /// What every reachable storage satisfies: a registered collection is
    /// either waiting for its token or has one, never both; a collection with
    /// a token has its description and size stored, and tags only then; the
    /// registered hashes are those under which the registered collections
    /// were added, one per collection; every mint period starts before it
    /// ends.
    pub open spec fn inv(self) -> bool {
        &&& forall|id: Seq<u8>| #[trigger] self.collections.contains(id)
            <==> (self.pending.contains_key(id) || self.nft_token.contains_key(id))
        &&& forall|id: Seq<u8>| !(#[trigger] self.pending.contains_key(id) && self.nft_token.contains_key(id))
        &&& self.collection_info.dom() == self.nft_token.dom()
        &&& self.total_nfts.dom() == self.nft_token.dom()
        &&& self.tags.dom().subset_of(self.nft_token.dom())
        &&& self.collections.finite()
        &&& self.collection_hashes.finite()
        &&& self.collections.len() == self.collection_hashes.len()
        &&& forall|id: Seq<u8>| #[trigger] self.collections.contains(id)
            ==> self.collection_hashes.contains(self.registered_hash(id))
        &&& forall|a: Seq<u8>, b: Seq<u8>|
            #[trigger] self.collections.contains(a) && #[trigger] self.collections.contains(b) && a != b
                ==> self.registered_hash(a) != self.registered_hash(b)
        &&& forall|id: Seq<u8>| #[trigger] self.pending.contains_key(id)
            ==> self.pending[id].collection_info.mint_period.start < self.pending[id].collection_info.mint_period.end
        &&& forall|id: Seq<u8>| #[trigger] self.collection_info.contains_key(id)
            ==> self.collection_info[id].mint_period.start < self.collection_info[id].mint_period.end
    }

    /// The hash under which a registered collection was added.
    pub open spec fn registered_hash(self, id: Seq<u8>) -> Seq<u8> {
        if self.pending.contains_key(id) {
            self.pending[id].collection_info.collection_hash@
        } else {
            self.collection_info[id].collection_hash@
        }
    }
}

/// A collection registered in `s` is still registered in `t`, under the
/// same hash.
pub open spec fn keeps_registration(s: MinterState, t: MinterState, id: Seq<u8>) -> bool {
    s.collections.contains(id) ==> t.collections.contains(id) && t.registered_hash(id) == s.registered_hash(id)
}

/// An issue pending in `s` is still pending in `t`, with the same data kept
/// for its callback.
pub open spec fn keeps_pending_issue(s: MinterState, t: MinterState, id: Seq<u8>) -> bool {
    s.pending.contains_key(id) ==> t.pending.contains_key(id) && t.pending[id] == s.pending[id]
}

/// The step from `s` to `t` keeps every registration and every pending
/// issue, except those of the collection `except`.
pub open spec fn keeps_collections(s: MinterState, t: MinterState, except: Option<Seq<u8>>) -> bool {
    &&& forall|id: Seq<u8>| except != Some(id) ==> #[trigger] keeps_registration(s, t, id)
    &&& forall|id: Seq<u8>| except != Some(id) ==> #[trigger] keeps_pending_issue(s, t, id)
}

/// The first rule that `add_collection` finds broken, if any.
pub open spec fn add_collection_error(
    s: MinterState,
    caller: Seq<u8>,
    payment_amount: u128,
    media_type_supported: bool,
    collection_hash: Seq<u8>,
    collection_id: Seq<u8>,
    royalties: u128,
    mint_start_timestamp: u64,
    mint_end_timestamp: u64,
    mint_price_token_id: Option<Seq<u8>>,
    total_nfts: usize,
    mint_price_token_amount: u128,
) -> Option<ContractError> {
    if !s.admins.contains(caller) {
        Some(ContractError::NotAdmin)
    } else if !(0 < collection_id.len() <= MAX_COLLECTION_ID_LEN) {
        Some(ContractError::InvalidCollectionId)
    } else if payment_amount != NFT_ISSUE_COST {
        Some(ContractError::InvalidIssuePayment)
    } else if !media_type_supported {
        Some(ContractError::InvalidMediaType)
    } else if royalties > ROYALTIES_MAX {
        Some(ContractError::RoyaltiesTooHigh)
    } else if !valid_token(mint_price_token_id) {
        Some(ContractError::InvalidPriceToken)
    } else if s.collection_hashes.contains(collection_hash) {
        Some(ContractError::CollectionHashAlreadyExists)
    } else if s.collections.contains(collection_id) {
        Some(ContractError::CollectionAlreadyExists)
    } else if !(mint_start_timestamp < mint_end_timestamp) {
        Some(ContractError::InvalidTimestamps)
    } else if total_nfts == 0 {
        Some(ContractError::InvalidTotalNfts)
    } else if mint_price_token_amount == 0 {
        Some(ContractError::InvalidMintPriceAmount)
    } else {
        None
    }
}

/// The storage after an accepted `add_collection`.
pub open spec fn after_add_collection(
    s: MinterState,
    collection_hash: Seq<u8>,
    collection_id: Seq<u8>,
    pending: TempCallbackStorageInfo,
) -> MinterState {
    MinterState {
        collection_hashes: s.collection_hashes.insert(collection_hash),
        collections: s.collections.insert(collection_id),
        pending: s.pending.insert(collection_id, pending),
        ..s
    }
}

/// The storage after the issue of a collection's token failed.
pub open spec fn after_issue_failure(
    s: MinterState,
    collection_hash: Seq<u8>,
    collection_id: Seq<u8>,
) -> MinterState {
    MinterState {
        collection_hashes: s.collection_hashes.remove(collection_hash),
        collections: s.collections.remove(collection_id),
        pending: s.pending.remove(collection_id),
        ..s
    }
}

/// The storage after a collection's token was issued as `token_id`.
pub open spec fn after_issue_success(
    s: MinterState,
    collection_id: Seq<u8>,
    token_id: Vec<u8>,
) -> MinterState {
    let p = s.pending[collection_id];
    MinterState {
        pending: s.pending.remove(collection_id),
        nft_token: s.nft_token.insert(collection_id, token_id),
        collection_info: s.collection_info.insert(collection_id, p.collection_info),
        total_nfts: s.total_nfts.insert(collection_id, p.tier_info.total_nfts),
        price_for_tier: s.price_for_tier.insert(collection_id, p.tier_info.mint_price),
        tags: if p.tags.len() > 0 {
            s.tags.insert(collection_id, p.tags)
        } else {
            s.tags
        },
        ..s
    }
}

/// The number of NFTs that a `mint_nft` call sells, or why it is refused.
/// Zero NFTs asked for sells nothing and keeps the payment.
pub open spec fn mint_nft_result(
    s: MinterState,
    caller: Seq<u8>,
    collection_id: Seq<u8>,
    opt_nfts_to_buy: Option<usize>,
    payment: Payment,
    current_timestamp: u64,
) -> Result<usize, ContractError> {
    if !s.collections.contains(collection_id) {
        Err(ContractError::InvalidCollectionId)
    } else if opt_nfts_to_buy == Some(0usize) {
        Ok(0)
    } else {
        let nfts = match opt_nfts_to_buy {
            Some(n) => n,
            None => NFT_AMOUNT as usize,
        };
        if !s.price_for_tier.contains_key(collection_id) {
            Err(ContractError::MissingStorageValue)
        } else if !(payment.token@ == s.price_for_tier[collection_id].token_id@ && payment.amount
            == s.price_for_tier[collection_id].amount * (nfts as u32)) {
            Err(ContractError::InvalidPayment)
        } else if !s.collection_info.contains_key(collection_id) {
            Err(ContractError::MissingStorageValue)
        } else if current_timestamp < s.collection_info[collection_id].mint_period.start {
            Err(ContractError::MintNotStarted)
        } else if current_timestamp >= s.collection_info[collection_id].mint_period.end {
            Err(ContractError::MintEnded)
        } else if current_timestamp < s.collection_info[collection_id].whitelist_expire_timestamp
            && !s.mint_whitelist[collection_id].contains(caller) {
            Err(ContractError::NotInWhitelist)
        } else {
            Ok(nfts)
        }
    }
}

/// `c` is the NFT to create for `nft_id` of the collection: one NFT of its
/// token, with its display name, royalties, hash, id and media type, and an
/// empty hash of its own.
pub open spec fn is_claim_creation(c: NftCreation, s: MinterState, collection_id: Seq<u8>, nft_id: usize) -> bool {
    let info = s.collection_info[collection_id];
    &&& c.token_id@ == s.nft_token[collection_id]@
    &&& c.amount == NFT_AMOUNT
    &&& c.name@ == info.token_display_name@
    &&& c.royalties == info.royalties
    &&& c.hash@ == Seq::<u8>::empty()
    &&& c.collection_hash@ == info.collection_hash@
    &&& c.collection_id@ == collection_id
    &&& c.nft_id == nft_id
    &&& c.media_type@ == info.media_type@
}

/// Why an admin operation on an issued collection is refused, if it is.
pub open spec fn issued_collection_error(
    s: MinterState,
    caller: Seq<u8>,
    collection_id: Seq<u8>,
) -> Option<ContractError> {
    if !s.admins.contains(caller) {
        Some(ContractError::NotAdmin)
    } else if !s.collections.contains(collection_id) {
        Some(ContractError::InvalidCollectionId)
    } else if !s.collection_info.contains_key(collection_id) {
        Some(ContractError::MissingStorageValue)
    } else {
        None
    }
}

/// The pairs with a positive amount, in order.
pub open spec fn positive_amounts(s: Seq<(Vec<u8>, usize)>) -> Seq<(Vec<u8>, usize)>
    decreases s.len(),
{
    if s.len() == 0 {
        Seq::empty()
    } else if s[0].1 > 0 {
        seq![s[0]] + positive_amounts(s.drop_first())
    } else {
        positive_amounts(s.drop_first())
    }
}

/// The sum of the amounts.
pub open spec fn total_amount(s: Seq<(Vec<u8>, usize)>) -> nat
    decreases s.len(),
{
    if s.len() == 0 {
        0
    } else {
        s[0].1 as nat + total_amount(s.drop_first())
    }
}

/// The NFTs that a giveaway sends: each destination with a positive amount,
/// and how many in all.
#[derive(Debug, Clone, PartialEq, Eq)]
pub struct GiveawayPlan {
    pub mints: Vec<(Vec<u8>, usize)>,
    pub total: usize,
}

/// The storage of the minter contract.
pub struct DutyNftMinter {
    royalties_claim_address: Vec<u8>,
    mint_payments_claim_address: Vec<u8>,
    admin_whitelist: KeySet<Vec<u8>>,
    registered_collection_hashes: KeySet<Vec<u8>>,
    registered_collections: KeySet<Vec<u8>>,
    temporary_callback_storage: KeyMap<Vec<u8>, TempCallbackStorageInfo>,
    nft_token: KeyMap<Vec<u8>, Vec<u8>>,
    collection_info: KeyMap<Vec<u8>, CollectionInfo>,
    total_nfts: KeyMap<Vec<u8>, usize>,
    price_for_tier: KeyMap<Vec<u8>, MintPrice>,
    tags_for_collection: KeyMap<Vec<u8>, Vec<Vec<u8>>>,
    mint_whitelist: KeyMap<Vec<u8>, KeySet<Vec<u8>>>,
}

impl View for DutyNftMinter {
    type V = MinterState;

    closed spec fn view(&self) -> MinterState {
        MinterState {
            royalties_claim_address: self.royalties_claim_address@,
            mint_payments_claim_address: self.mint_payments_claim_address@,
            admins: self.admin_whitelist@,
            collection_hashes: self.registered_collection_hashes@,
            collections: self.registered_collections@,
            pending: self.temporary_callback_storage@,
            nft_token: self.nft_token@,
            collection_info: self.collection_info@,
            total_nfts: self.total_nfts@,
            price_for_tier: self.price_for_tier@,
            tags: self.tags_for_collection@,
            mint_whitelist: Map::new(
                |id: Seq<u8>| true,
                |id: Seq<u8>|
                    if self.mint_whitelist@.contains_key(id) {
                        self.mint_whitelist@[id].seq()
                    } else {
                        Seq::empty()
                    },
            ),
        }
    }
}

impl DutyNftMinter {
    pub closed spec fn wf(&self) -> bool {
        &&& self.admin_whitelist.wf()
        &&& self.registered_collection_hashes.wf()
        &&& self.registered_collections.wf()
        &&& self.temporary_callback_storage.wf()
        &&& self.nft_token.wf()
        &&& self.collection_info.wf()
        &&& self.total_nfts.wf()
        &&& self.price_for_tier.wf()
        &&& self.tags_for_collection.wf()
        &&& self.mint_whitelist.wf()
        &&& forall|id: Seq<u8>| #[trigger] self.mint_whitelist@.contains_key(id) ==> self.mint_whitelist@[id].wf()
        &&& self@.inv()
    }

    /// Deploys the contract with the addresses that receive royalties and
    /// mint payments; nothing else is stored.
    pub fn init(royalties_claim_address: Vec<u8>, mint_payments_claim_address: Vec<u8>) -> (s: Self)
        ensures
            s.wf(),
            s@.royalties_claim_address == royalties_claim_address@,
            s@.mint_payments_claim_address == mint_payments_claim_address@,
            s@.admins.is_empty(),
            s@.collection_hashes.is_empty(),
            s@.collections.is_empty(),
            s@.pending.is_empty(),
            s@.nft_token.is_empty(),
            s@.collection_info.is_empty(),
            s@.total_nfts.is_empty(),
            s@.price_for_tier.is_empty(),
            s@.tags.is_empty(),
            forall|id: Seq<u8>| #[trigger] s@.mint_whitelist[id] == Seq::<Seq<u8>>::empty(),
    {
        let s = DutyNftMinter {
            royalties_claim_address,
            mint_payments_claim_address,
            admin_whitelist: KeySet::new(),
            registered_collection_hashes: KeySet::new(),
            registered_collections: KeySet::new(),
            temporary_callback_storage: KeyMap::new(),
            nft_token: KeyMap::new(),
            collection_info: KeyMap::new(),
            total_nfts: KeyMap::new(),
            price_for_tier: KeyMap::new(),
            tags_for_collection: KeyMap::new(),
            mint_whitelist: KeyMap::new(),
        };
        assert(s@.collection_info.dom() =~= s@.nft_token.dom());
        assert(s@.total_nfts.dom() =~= s@.nft_token.dom());
        s
    }
}

impl DutyNftMinter {
    /// Owner only: lets `address` manage collections.
    pub fn add_user_to_admin_list(&mut self, caller: &Vec<u8>, owner: &Vec<u8>, address: Vec<u8>) -> (r:
        Result<(), ContractError>)
        requires
            old(self).wf(),
        ensures
            final(self).wf(),
            keeps_collections(old(self)@, final(self)@, None),
            caller@ != owner@ ==> r == Err::<(), ContractError>(ContractError::OnlyOwner) && final(self)@
                == old(self)@,
            caller@ == owner@ ==> r is Ok && final(self)@ == (MinterState {
                admins: old(self)@.admins.insert(address@),
                ..old(self)@
            }),
    {
        if !caller.same_key(owner) {
            return Err(ContractError::OnlyOwner);
        }
        let _ = self.admin_whitelist.insert(address);
        Ok(())
    }

    /// Owner only: takes `address` off the admin whitelist.
    pub fn remove_user_from_admin_list(&mut self, caller: &Vec<u8>, owner: &Vec<u8>, address: &Vec<u8>) -> (r:
        Result<(), ContractError>)
        requires
            old(self).wf(),
        ensures
            final(self).wf(),
            keeps_collections(old(self)@, final(self)@, None),
            caller@ != owner@ ==> r == Err::<(), ContractError>(ContractError::OnlyOwner) && final(self)@
                == old(self)@,
            caller@ == owner@ ==> r is Ok && final(self)@ == (MinterState {
                admins: old(self)@.admins.remove(address@),
                ..old(self)@
            }),
    {
        if !caller.same_key(owner) {
            return Err(ContractError::OnlyOwner);
        }
        let _ = self.admin_whitelist.remove(address);
        Ok(())
    }

    /// Admin only: sets the price of one NFT of the collection, registered
    /// or not.
    pub fn set_mint_token(
        &mut self,
        caller: &Vec<u8>,
        collection_id: Vec<u8>,
        mint_price_token_id: EgldOrEsdtToken,
        mint_price_token_amount: u128,
    ) -> (r: Result<(), ContractError>)
        requires
            old(self).wf(),
        ensures
            final(self).wf(),
            keeps_collections(old(self)@, final(self)@, None),
            !old(self)@.admins.contains(caller@) ==> r == Err::<(), ContractError>(ContractError::NotAdmin)
                && final(self)@ == old(self)@,
            old(self)@.admins.contains(caller@) ==> r is Ok && final(self)@ == (MinterState {
                price_for_tier: old(self)@.price_for_tier.insert(
                    collection_id@,
                    MintPrice { token_id: mint_price_token_id, amount: mint_price_token_amount },
                ),
                ..old(self)@
            }),
    {
        if !self.admin_whitelist.contains(caller) {
            return Err(ContractError::NotAdmin);
        }
        self.price_for_tier.set(
            collection_id,
            MintPrice { token_id: mint_price_token_id, amount: mint_price_token_amount },
        );
        Ok(())
    }

    /// Admin only: registers a new collection and asks for its token to be
    /// issued; the callback of the issue completes or undoes the registration.
    /// The caller pays the issue cost in EGLD; whether the media type is
    /// supported is decided before the call.
    pub fn add_collection(
        &mut self,
        caller: &Vec<u8>,
        payment_amount: u128,
        media_type_supported: bool,
        collection_hash: Vec<u8>,
        collection_id: Vec<u8>,
        media_type: Vec<u8>,
        royalties: u128,
        mint_start_timestamp: u64,
        mint_end_timestamp: u64,
        mint_price_token_id: EgldOrEsdtToken,
        token_display_name: Vec<u8>,
        token_ticker: Vec<u8>,
        whitelist_expire_timestamp: u64,
        tags: Vec<Vec<u8>>,
        total_nfts: usize,
        mint_price_token_amount: u128,
    ) -> (r: Result<IssueRequest, ContractError>)
        requires
            old(self).wf(),
        ensures
            final(self).wf(),
            keeps_collections(old(self)@, final(self)@, None),
            match add_collection_error(
                old(self)@,
                caller@,
                payment_amount,
                media_type_supported,
                collection_hash@,
                collection_id@,
                royalties,
                mint_start_timestamp,
                mint_end_timestamp,
                mint_price_token_id@,
                total_nfts,
                mint_price_token_amount,
            ) {
                Some(e) => r == Err::<IssueRequest, ContractError>(e) && final(self)@ == old(self)@,
                None => r matches Ok(req) && final(self)@ == after_add_collection(
                    old(self)@,
                    collection_hash@,
                    collection_id@,
                    (TempCallbackStorageInfo {
                        collection_info: CollectionInfo {
                            collection_hash,
                            token_display_name,
                            media_type,
                            royalties,
                            mint_period: TimePeriod {
                                start: mint_start_timestamp,
                                end: mint_end_timestamp,
                            },
                            whitelist_expire_timestamp,
                        },
                        tags,
                        tier_info: TempCallbackTierInfo {
                            total_nfts,
                            mint_price: MintPrice {
                                token_id: mint_price_token_id,
                                amount: mint_price_token_amount,
                            },
                        },
                    }),
                ) && req.issue_cost == payment_amount && req.token_display_name@
                    == token_display_name@ && req.token_ticker == token_ticker
                    && req.callback_collection_hash@ == collection_hash@
                    && req.callback_collection_id@ == collection_id@,
            },
    {
        if !self.admin_whitelist.contains(caller) {
            return Err(ContractError::NotAdmin);
        }
        let id_len = collection_id.len();
        if !(id_len > 0 && id_len <= MAX_COLLECTION_ID_LEN) {
            return Err(ContractError::InvalidCollectionId);
        }
        if payment_amount != NFT_ISSUE_COST {
            return Err(ContractError::InvalidIssuePayment);
        }
        if !media_type_supported {
            return Err(ContractError::InvalidMediaType);
        }
        if royalties > ROYALTIES_MAX {
            return Err(ContractError::RoyaltiesTooHigh);
        }
        if !mint_price_token_id.is_valid() {
            return Err(ContractError::InvalidPriceToken);
        }
        if self.registered_collection_hashes.contains(&collection_hash) {
            return Err(ContractError::CollectionHashAlreadyExists);
        }
        if self.registered_collections.contains(&collection_id) {
            return Err(ContractError::CollectionAlreadyExists);
        }
        if !(mint_start_timestamp < mint_end_timestamp) {
            return Err(ContractError::InvalidTimestamps);
        }
        if total_nfts == 0 {
            return Err(ContractError::InvalidTotalNfts);
        }
        if mint_price_token_amount == 0 {
            return Err(ContractError::InvalidMintPriceAmount);
        }
        let ghost s0 = self@;
        let _ = self.registered_collection_hashes.insert(collection_hash.copy_key());
        let _ = self.registered_collections.insert(collection_id.copy_key());
        let request = IssueRequest {
            issue_cost: payment_amount,
            token_display_name: token_display_name.copy_key(),
            token_ticker,
            callback_collection_hash: collection_hash.copy_key(),
            callback_collection_id: collection_id.copy_key(),
        };
        let ghost id = collection_id@;
        let pending = TempCallbackStorageInfo {
            collection_info: CollectionInfo {
                collection_hash,
                token_display_name,
                media_type,
                royalties,
                mint_period: TimePeriod { start: mint_start_timestamp, end: mint_end_timestamp },
                whitelist_expire_timestamp,
            },
            tags,
            tier_info: TempCallbackTierInfo {
                total_nfts,
                mint_price: MintPrice { token_id: mint_price_token_id, amount: mint_price_token_amount },
            },
        };
        self.temporary_callback_storage.set(collection_id, pending);
        assert(self@.collections =~= s0.collections.insert(id));
        Ok(request)
    }
}

impl DutyNftMinter {
    /// The callback of the token issue started by `add_collection`. On
    /// success the collection's token, description, size, price and tags are
    /// stored; on failure its registration is undone. Either way the kept
    /// issue data is cleared. A token whose identifier is not a valid ESDT
    /// identifier is refused. The host calls it once for each issue, with the
    /// hash and id that `add_collection` handed over.
    pub fn issue_callback(
        &mut self,
        collection_hash: &Vec<u8>,
        collection_id: &Vec<u8>,
        result: Result<Vec<u8>, AsyncCallError>,
    ) -> (r: Result<Option<CollectionCreated>, ContractError>)
        requires
            old(self).wf(),
            old(self)@.pending.contains_key(collection_id@),
            old(self)@.pending[collection_id@].collection_info.collection_hash@ == collection_hash@,
        ensures
            final(self).wf(),
            keeps_collections(old(self)@, final(self)@, Some(collection_id@)),
            match result {
                Ok(token_id) => if valid_esdt_identifier(token_id@) {
                    &&& final(self)@ == after_issue_success(old(self)@, collection_id@, token_id)
                    &&& r matches Ok(Some(c))
                    &&& c.collection_id@ == collection_id@
                    &&& c.token_id@ == token_id@
                    &&& c.total_nfts == old(self)@.pending[collection_id@].tier_info.total_nfts
                } else {
                    &&& r == Err::<Option<CollectionCreated>, ContractError>(ContractError::InvalidTokenId)
                    &&& final(self)@ == old(self)@
                },
                Err(_) => {
                    &&& final(self)@ == after_issue_failure(old(self)@, collection_hash@, collection_id@)
                    &&& r matches Ok(None)
                },
            },
    {
        let ghost s0 = self@;
        let ghost id = collection_id@;
        match result {
            Ok(token_id) => {
                if !is_valid_esdt_identifier(&token_id) {
                    return Err(ContractError::InvalidTokenId);
                }
                let taken = self.temporary_callback_storage.remove(collection_id);
                match taken {
                    Some(cb) => {
                        let TempCallbackStorageInfo { collection_info, tags, tier_info } = cb;
                        let event_token = token_id.copy_key();
                        self.nft_token.set(collection_id.copy_key(), token_id);
                        self.collection_info.set(collection_id.copy_key(), collection_info);
                        let total = tier_info.total_nfts;
                        self.total_nfts.set(collection_id.copy_key(), total);
                        self.price_for_tier.set(collection_id.copy_key(), tier_info.mint_price);
                        if tags.len() > 0 {
                            self.tags_for_collection.set(collection_id.copy_key(), tags);
                        }
                        assert(self@.collection_info.dom() =~= self@.nft_token.dom());
                        assert(self@.total_nfts.dom() =~= self@.nft_token.dom());
                        assert(self@ == after_issue_success(s0, id, token_id));
                        Ok(
                            Some(
                                CollectionCreated {
                                    collection_id: collection_id.copy_key(),
                                    token_id: event_token,
                                    total_nfts: total,
                                },
                            ),
                        )
                    },
                    None => Ok(None),
                }
            },
            Err(_) => {
                let _ = self.registered_collections.remove(collection_id);
                let _ = self.registered_collection_hashes.remove(collection_hash);
                let _ = self.temporary_callback_storage.remove(collection_id);
                assert(self@.collections == s0.collections.remove(id));
                assert(self@.pending == s0.pending.remove(id));
                assert(self@.nft_token == s0.nft_token);
                Ok(None)
            },
        }
    }

    /// Admin only: adds each of `users`, in turn, to the end of the
    /// collection's mint whitelist, unless it is there already.
    pub fn add_to_whitelist(&mut self, caller: &Vec<u8>, collection_id: &Vec<u8>, users: &Vec<Vec<u8>>) -> (r:
        Result<(), ContractError>)
        requires
            old(self).wf(),
        ensures
            final(self).wf(),
            keeps_collections(old(self)@, final(self)@, None),
            !old(self)@.admins.contains(caller@) ==> r == Err::<(), ContractError>(ContractError::NotAdmin)
                && final(self)@ == old(self)@,
            old(self)@.admins.contains(caller@) ==> r is Ok && final(self)@ == (MinterState {
                mint_whitelist: old(self)@.mint_whitelist.insert(
                    collection_id@,
                    list_add_all(old(self)@.mint_whitelist[collection_id@], users@),
                ),
                ..old(self)@
            }),
    {
        if !self.admin_whitelist.contains(caller) {
            return Err(ContractError::NotAdmin);
        }
        let ghost s0 = self@;
        let mut list = self.take_whitelist(collection_id);
        add_all(&mut list, users);
        self.put_whitelist(collection_id, list);
        assert(self@.mint_whitelist =~= s0.mint_whitelist.insert(
            collection_id@,
            list_add_all(s0.mint_whitelist[collection_id@], users@),
        ));
        Ok(())
    }

    /// Admin only: removes each of `users`, in turn, from the collection's
    /// mint whitelist, moving the last address into the place it leaves.
    pub fn remove_from_whitelist(&mut self, caller: &Vec<u8>, collection_id: &Vec<u8>, users: &Vec<Vec<u8>>) -> (r:
        Result<(), ContractError>)
        requires
            old(self).wf(),
        ensures
            final(self).wf(),
            keeps_collections(old(self)@, final(self)@, None),
            !old(self)@.admins.contains(caller@) ==> r == Err::<(), ContractError>(ContractError::NotAdmin)
                && final(self)@ == old(self)@,
            old(self)@.admins.contains(caller@) ==> r is Ok && final(self)@ == (MinterState {
                mint_whitelist: old(self)@.mint_whitelist.insert(
                    collection_id@,
                    list_remove_all(old(self)@.mint_whitelist[collection_id@], users@),
                ),
                ..old(self)@
            }),
    {
        if !self.admin_whitelist.contains(caller) {
            return Err(ContractError::NotAdmin);
        }
        let ghost s0 = self@;
        let mut list = self.take_whitelist(collection_id);
        remove_all(&mut list, users);
        self.put_whitelist(collection_id, list);
        assert(self@.mint_whitelist =~= s0.mint_whitelist.insert(
            collection_id@,
            list_remove_all(s0.mint_whitelist[collection_id@], users@),
        ));
        Ok(())
    }

    /// Takes the collection's whitelist out of storage, leaving it empty
    /// there.
    fn take_whitelist(&mut self, collection_id: &Vec<u8>) -> (list: KeySet<Vec<u8>>)
        requires
            old(self).wf(),
        ensures
            list.wf(),
            list.seq() == old(self)@.mint_whitelist[collection_id@],
            final(self).wf(),
            final(self)@ == (MinterState {
                mint_whitelist: old(self)@.mint_whitelist.insert(collection_id@, Seq::empty()),
                ..old(self)@
            }),
    {
        let ghost s0 = self@;
        proof {
            if self.mint_whitelist@.contains_key(collection_id@) {
                assert(self.mint_whitelist@[collection_id@].wf());
            }
        }
        let list = match self.mint_whitelist.remove(collection_id) {
            Some(list) => list,
            None => KeySet::new(),
        };
        assert(self@.mint_whitelist =~= s0.mint_whitelist.insert(collection_id@, Seq::empty()));
        assert(self@.collections == s0.collections);
        assert(self@.pending == s0.pending);
        assert(self@.nft_token == s0.nft_token);
        list
    }

    /// Stores `list` as the collection's whitelist.
    fn put_whitelist(&mut self, collection_id: &Vec<u8>, list: KeySet<Vec<u8>>)
        requires
            list.wf(),
            old(self).wf(),
        ensures
            final(self).wf(),
            final(self)@ == (MinterState {
                mint_whitelist: old(self)@.mint_whitelist.insert(collection_id@, list.seq()),
                ..old(self)@
            }),
    {
        let ghost s0 = self@;
        self.mint_whitelist.set(collection_id.copy_key(), list);
        assert(self@.mint_whitelist =~= s0.mint_whitelist.insert(collection_id@, list.seq()));
        assert(self@.collections == s0.collections);
        assert(self@.pending == s0.pending);
        assert(self@.nft_token == s0.nft_token);
    }
}

impl DutyNftMinter {
    /// Admin only: moves the end of the collection's whitelist period.
    pub fn set_mint_whitelist_expire_timestamp(&mut self, caller: &Vec<u8>, collection_id: Vec<u8>, timestamp: u64) -> (r:
        Result<(), ContractError>)
        requires
            old(self).wf(),
        ensures
            final(self).wf(),
            keeps_collections(old(self)@, final(self)@, None),
            !old(self)@.admins.contains(caller@) ==> r == Err::<(), ContractError>(ContractError::NotAdmin)
                && final(self)@ == old(self)@,
            old(self)@.admins.contains(caller@) && !old(self)@.collection_info.contains_key(collection_id@)
                ==> r == Err::<(), ContractError>(ContractError::MissingStorageValue) && final(self)@ == old(self)@,
            old(self)@.admins.contains(caller@) && old(self)@.collection_info.contains_key(collection_id@) ==> r is Ok
                && final(self)@ == (MinterState {
                collection_info: old(self)@.collection_info.insert(
                    collection_id@,
                    CollectionInfo {
                        whitelist_expire_timestamp: timestamp,
                        ..old(self)@.collection_info[collection_id@]
                    },
                ),
                ..old(self)@
            }),
    {
        if !self.admin_whitelist.contains(caller) {
            return Err(ContractError::NotAdmin);
        }
        if !self.collection_info.contains_key(&collection_id) {
            return Err(ContractError::MissingStorageValue);
        }
        let ghost s0 = self@;
        match self.collection_info.remove(&collection_id) {
            None => Err(ContractError::MissingStorageValue),
            Some(info) => {
                let updated = CollectionInfo { whitelist_expire_timestamp: timestamp, ..info };
                self.collection_info.set(collection_id, updated);
                assert(self@.collection_info =~= s0.collection_info.insert(
                    collection_id@,
                    CollectionInfo { whitelist_expire_timestamp: timestamp, ..s0.collection_info[collection_id@] },
                ));
                assert(self@.collection_info.dom() =~= self@.nft_token.dom());
                assert(self@.collections == s0.collections);
                assert(self@.pending == s0.pending);
                assert(self@.nft_token == s0.nft_token);
                Ok(())
            },
        }
    }

    /// Admin only: sets the address that claimed royalties are sent to.
    pub fn set_royalties_claim_address(&mut self, caller: &Vec<u8>, new_address: Vec<u8>) -> (r: Result<(), ContractError>)
        requires
            old(self).wf(),
        ensures
            final(self).wf(),
            keeps_collections(old(self)@, final(self)@, None),
            !old(self)@.admins.contains(caller@) ==> r == Err::<(), ContractError>(ContractError::NotAdmin)
                && final(self)@ == old(self)@,
            old(self)@.admins.contains(caller@) ==> r is Ok && final(self)@ == (MinterState {
                royalties_claim_address: new_address@,
                ..old(self)@
            }),
    {
        if !self.admin_whitelist.contains(caller) {
            return Err(ContractError::NotAdmin);
        }
        self.royalties_claim_address = new_address;
        Ok(())
    }

    /// Admin only: sets the address that claimed mint payments are sent to.
    pub fn set_mint_payments_claim_address(&mut self, caller: &Vec<u8>, new_address: Vec<u8>) -> (r: Result<(), ContractError>)
        requires
            old(self).wf(),
        ensures
            final(self).wf(),
            keeps_collections(old(self)@, final(self)@, None),
            !old(self)@.admins.contains(caller@) ==> r == Err::<(), ContractError>(ContractError::NotAdmin)
                && final(self)@ == old(self)@,
            old(self)@.admins.contains(caller@) ==> r is Ok && final(self)@ == (MinterState {
                mint_payments_claim_address: new_address@,
                ..old(self)@
            }),
    {
        if !self.admin_whitelist.contains(caller) {
            return Err(ContractError::NotAdmin);
        }
        self.mint_payments_claim_address = new_address;
        Ok(())
    }

    /// Anyone may call it: pays the accumulated royalties out to the
    /// royalties claim address.
    pub fn claim_royalties(&self) -> (r: ClaimRequest)
        ensures
            r.to@ == self@.royalties_claim_address,
            r.source == ClaimSource::Royalties,
    {
        ClaimRequest { to: self.royalties_claim_address.copy_key(), source: ClaimSource::Royalties }
    }

    /// Anyone may call it: pays the accumulated mint payments out to the
    /// mint payments claim address.
    pub fn claim_mint_payments(&self) -> (r: ClaimRequest)
        ensures
            r.to@ == self@.mint_payments_claim_address,
            r.source == ClaimSource::MintPayments,
    {
        ClaimRequest { to: self.mint_payments_claim_address.copy_key(), source: ClaimSource::MintPayments }
    }

    /// A purchase of NFTs of the collection by the caller with `payment` at
    /// `current_timestamp`. The buyer names a count or buys one; asking for
    /// zero buys nothing (no purchase, no credit) and keeps the payment. The
    /// payment must be exactly the price of the NFTs, in the price's token;
    /// minting is open in the mint period, and before the whitelist expires
    /// only to whitelisted callers. The accepted purchase says what the host
    /// then does: credit the payment, mint the NFTs to the buyer, announce it.
    pub fn mint_nft(
        &self,
        caller: &Vec<u8>,
        collection_id: &Vec<u8>,
        opt_nfts_to_buy: Option<usize>,
        payment: &Payment,
        current_timestamp: u64,
    ) -> (r: Result<Option<Purchase>, ContractError>)
        requires
            self.wf(),
        ensures
            match mint_nft_result(self@, caller@, collection_id@, opt_nfts_to_buy, *payment, current_timestamp) {
                Err(e) => r == Err::<Option<Purchase>, ContractError>(e),
                Ok(nfts) => if nfts == 0 {
                    r == Ok::<Option<Purchase>, ContractError>(None)
                } else {
                    &&& r matches Ok(Some(p))
                    &&& p.nfts == nfts
                    &&& p.buyer@ == caller@
                    &&& p.collection_id@ == collection_id@
                    &&& p.paid_token@ == payment.token@
                    &&& p.paid_amount == payment.amount
                },
            },
    {
        if !self.registered_collections.contains(collection_id) {
            return Err(ContractError::InvalidCollectionId);
        }
        let nfts_to_buy: usize = match opt_nfts_to_buy {
            Some(val) => {
                if val == 0 {
                    return Ok(None);
                }
                val
            },
            None => NFT_AMOUNT as usize,
        };
        let price = match self.price_for_tier.get(collection_id) {
            Some(p) => p,
            None => {
                return Err(ContractError::MissingStorageValue);
            },
        };
        if !(payment.token.same_token(&price.token_id) && is_exact_total(
            payment.amount,
            price.amount,
            nfts_to_buy as u32,
        )) {
            return Err(ContractError::InvalidPayment);
        }
        let info = match self.collection_info.get(collection_id) {
            Some(i) => i,
            None => {
                return Err(ContractError::MissingStorageValue);
            },
        };
        if current_timestamp < info.mint_period.start {
            return Err(ContractError::MintNotStarted);
        }
        if current_timestamp >= info.mint_period.end {
            return Err(ContractError::MintEnded);
        }
        if current_timestamp < info.whitelist_expire_timestamp {
            if !self.whitelist_contains(collection_id, caller) {
                return Err(ContractError::NotInWhitelist);
            }
        }
        Ok(
            Some(
                Purchase {
                    buyer: caller.copy_key(),
                    collection_id: collection_id.copy_key(),
                    nfts: nfts_to_buy,
                    paid_token: payment.token.copy_token(),
                    paid_amount: payment.amount,
                },
            ),
        )
    }

    /// Admin only: plans a giveaway of NFTs of an issued collection; each
    /// destination with a positive amount receives that many NFTs.
    pub fn giveaway_nfts(&self, caller: &Vec<u8>, collection_id: &Vec<u8>, dest_amount_pairs: Vec<(Vec<u8>, usize)>) -> (r:
        Result<GiveawayPlan, ContractError>)
        requires
            self.wf(),
            issued_collection_error(self@, caller@, collection_id@) is None ==> total_amount(dest_amount_pairs@)
                <= usize::MAX,
        ensures
            match issued_collection_error(self@, caller@, collection_id@) {
                Some(e) => r == Err::<GiveawayPlan, ContractError>(e),
                None => r matches Ok(plan) && plan.mints@ == positive_amounts(dest_amount_pairs@)
                    && plan.total == total_amount(dest_amount_pairs@),
            },
    {
        if !self.admin_whitelist.contains(caller) {
            return Err(ContractError::NotAdmin);
        }
        if !self.registered_collections.contains(collection_id) {
            return Err(ContractError::InvalidCollectionId);
        }
        if !self.collection_info.contains_key(collection_id) {
            return Err(ContractError::MissingStorageValue);
        }
        let ghost all = dest_amount_pairs@;
        let mut rest = dest_amount_pairs;
        let mut mints: Vec<(Vec<u8>, usize)> = Vec::new();
        let mut total: usize = 0;
        while rest.len() > 0
            invariant
                mints@ + positive_amounts(rest@) == positive_amounts(all),
                total + total_amount(rest@) == total_amount(all),
                total_amount(all) <= usize::MAX,
            decreases rest.len(),
        {
            let ghost before = rest@;
            let pair = rest.remove(0);
            assert(rest@ == before.drop_first());
            let nfts_to_send = pair.1;
            if nfts_to_send > 0 {
                total = total + nfts_to_send;
                mints.push(pair);
                assert(mints@ + positive_amounts(rest@) =~= positive_amounts(all)) by {
                    assert(positive_amounts(before) == seq![before[0]] + positive_amounts(rest@));
                }
            } else {
                assert(positive_amounts(before) == positive_amounts(rest@));
            }
        }
        Ok(GiveawayPlan { mints, total })
    }

    /// Admin only: a claim by the caller of `claim_amount` NFTs of an issued
    /// collection. The host mints the NFTs of the accepted request to its
    /// recipient and announces the claim.
    pub fn claim_nfts(&self, caller: &Vec<u8>, collection_id: &Vec<u8>, claim_amount: usize) -> (r: Result<
        MintRequest,
        ContractError,
    >)
        requires
            self.wf(),
        ensures
            !self@.admins.contains(caller@) ==> r == Err::<MintRequest, ContractError>(ContractError::NotAdmin),
            self@.admins.contains(caller@) && !self@.collections.contains(collection_id@) ==> r == Err::<
                MintRequest,
                ContractError,
            >(ContractError::InvalidCollectionId),
            self@.admins.contains(caller@) && self@.collections.contains(collection_id@) && claim_amount == 0 ==> r
                == Err::<MintRequest, ContractError>(ContractError::InvalidClaimAmount),
            self@.admins.contains(caller@) && self@.collections.contains(collection_id@) && claim_amount > 0
                && !self@.collection_info.contains_key(collection_id@) ==> r == Err::<MintRequest, ContractError>(
                ContractError::MissingStorageValue,
            ),
            self@.admins.contains(caller@) && self@.collections.contains(collection_id@) && claim_amount > 0
                && self@.collection_info.contains_key(collection_id@) ==> {
                &&& r matches Ok(req)
                &&& req.to@ == caller@
                &&& req.collection_id@ == collection_id@
                &&& req.amount == claim_amount
            },
    {
        if !self.admin_whitelist.contains(caller) {
            return Err(ContractError::NotAdmin);
        }
        if !self.registered_collections.contains(collection_id) {
            return Err(ContractError::InvalidCollectionId);
        }
        if claim_amount == 0 {
            return Err(ContractError::InvalidClaimAmount);
        }
        if !self.collection_info.contains_key(collection_id) {
            return Err(ContractError::MissingStorageValue);
        }
        Ok(MintRequest { to: caller.copy_key(), collection_id: collection_id.copy_key(), amount: claim_amount })
    }

    /// Admin only: a claim by the caller of NFTs of an issued collection
    /// chosen by their ids: the NFT to create for each id, in order. The host
    /// verifies and creates each of them, then `finish_claim_by_ids` decides,
    /// from the created nonces and the ids still available, what is sent to
    /// the caller.
    pub fn claim_nfts_by_ids(&self, caller: &Vec<u8>, collection_id: &Vec<u8>, nft_ids: &Vec<usize>) -> (r:
        Result<Vec<NftCreation>, ContractError>)
        requires
            self.wf(),
        ensures
            match issued_collection_error(self@, caller@, collection_id@) {
                Some(e) => r == Err::<Vec<NftCreation>, ContractError>(e),
                None => {
                    &&& r matches Ok(creations)
                    &&& creations.len() == nft_ids.len()
                    &&& forall|j: int|
                        0 <= j < creations.len() ==> is_claim_creation(
                            #[trigger] creations@[j],
                            self@,
                            collection_id@,
                            nft_ids@[j],
                        )
                },
            },
    {
        if !self.admin_whitelist.contains(caller) {
            return Err(ContractError::NotAdmin);
        }
        if !self.registered_collections.contains(collection_id) {
            return Err(ContractError::InvalidCollectionId);
        }
        let info = match self.collection_info.get(collection_id) {
            Some(i) => i,
            None => {
                return Err(ContractError::MissingStorageValue);
            },
        };
        let token = match self.nft_token.get(collection_id) {
            Some(t) => t,
            None => {
                return Err(ContractError::MissingStorageValue);
            },
        };
        let mut creations: Vec<NftCreation> = Vec::new();
        let mut j: usize = 0;
        while j < nft_ids.len()
            invariant
                self.wf(),
                j <= nft_ids.len(),
                creations.len() == j,
                self@.nft_token.contains_key(collection_id@),
                self@.collection_info.contains_key(collection_id@),
                *token == self@.nft_token[collection_id@],
                *info == self@.collection_info[collection_id@],
                forall|k: int|
                    0 <= k < j ==> is_claim_creation(#[trigger] creations@[k], self@, collection_id@, nft_ids@[k]),
            decreases nft_ids.len() - j,
        {
            creations.push(
                NftCreation {
                    token_id: token.copy_key(),
                    amount: NFT_AMOUNT as u128,
                    name: info.token_display_name.copy_key(),
                    royalties: info.royalties,
                    hash: Vec::new(),
                    collection_hash: info.collection_hash.copy_key(),
                    collection_id: collection_id.copy_key(),
                    nft_id: nft_ids[j],
                    media_type: info.media_type.copy_key(),
                },
            );
            j += 1;
        }
        Ok(creations)
    }

}

impl DutyNftMinter {
    pub fn royalties_claim_address(&self) -> (r: &Vec<u8>)
        ensures
            r@ == self@.royalties_claim_address,
    {
        &self.royalties_claim_address
    }

    pub fn mint_payments_claim_address(&self) -> (r: &Vec<u8>)
        ensures
            r@ == self@.mint_payments_claim_address,
    {
        &self.mint_payments_claim_address
    }

    pub fn is_admin(&self, address: &Vec<u8>) -> (r: bool)
        ensures
            r == self@.admins.contains(address@),
    {
        self.admin_whitelist.contains(address)
    }

    pub fn is_registered_collection(&self, collection_id: &Vec<u8>) -> (r: bool)
        ensures
            r == self@.collections.contains(collection_id@),
    {
        self.registered_collections.contains(collection_id)
    }

    pub fn is_registered_collection_hash(&self, collection_hash: &Vec<u8>) -> (r: bool)
        ensures
            r == self@.collection_hashes.contains(collection_hash@),
    {
        self.registered_collection_hashes.contains(collection_hash)
    }

    /// What `add_collection` kept for the issue callback, while the token
    /// of the collection is being issued.
    pub fn pending_issue(&self, collection_id: &Vec<u8>) -> (r: Option<&TempCallbackStorageInfo>)
        requires
            self.wf(),
        ensures
            match r {
                Some(p) => self@.pending.contains_key(collection_id@) && *p == self@.pending[collection_id@],
                None => !self@.pending.contains_key(collection_id@),
            },
    {
        self.temporary_callback_storage.get(collection_id)
    }

    pub fn nft_token_id(&self, collection_id: &Vec<u8>) -> (r: Option<&Vec<u8>>)
        requires
            self.wf(),
        ensures
            match r {
                Some(t) => self@.nft_token.contains_key(collection_id@) && *t == self@.nft_token[collection_id@],
                None => !self@.nft_token.contains_key(collection_id@),
            },
    {
        self.nft_token.get(collection_id)
    }

    pub fn collection_info(&self, collection_id: &Vec<u8>) -> (r: Option<&CollectionInfo>)
        requires
            self.wf(),
        ensures
            match r {
                Some(i) => self@.collection_info.contains_key(collection_id@) && *i
                    == self@.collection_info[collection_id@],
                None => !self@.collection_info.contains_key(collection_id@),
            },
    {
        self.collection_info.get(collection_id)
    }

    pub fn total_nfts(&self, collection_id: &Vec<u8>) -> (r: Option<usize>)
        requires
            self.wf(),
        ensures
            match r {
                Some(n) => self@.total_nfts.contains_key(collection_id@) && n == self@.total_nfts[collection_id@],
                None => !self@.total_nfts.contains_key(collection_id@),
            },
    {
        match self.total_nfts.get(collection_id) {
            Some(n) => Some(*n),
            None => None,
        }
    }

    pub fn price_for_tier(&self, collection_id: &Vec<u8>) -> (r: Option<&MintPrice>)
        requires
            self.wf(),
        ensures
            match r {
                Some(p) => self@.price_for_tier.contains_key(collection_id@) && *p
                    == self@.price_for_tier[collection_id@],
                None => !self@.price_for_tier.contains_key(collection_id@),
            },
    {
        self.price_for_tier.get(collection_id)
    }

    pub fn tags_for_collection(&self, collection_id: &Vec<u8>) -> (r: Option<&Vec<Vec<u8>>>)
        requires
            self.wf(),
        ensures
            match r {
                Some(t) => self@.tags.contains_key(collection_id@) && *t == self@.tags[collection_id@],
                None => !self@.tags.contains_key(collection_id@),
            },
    {
        self.tags_for_collection.get(collection_id)
    }

    /// Every storage that the endpoints reach satisfies the invariant.
    pub proof fn lemma_inv(&self)
        requires
            self.wf(),
        ensures
            self@.inv(),
    {
    }

    /// A stored whitelist holds each address once.
    pub proof fn lemma_whitelist_no_duplicates(&self, collection_id: Seq<u8>)
        requires
            self.wf(),
        ensures
            self@.mint_whitelist[collection_id].no_duplicates(),
    {
        if self.mint_whitelist@.contains_key(collection_id) {
            assert(self.mint_whitelist@[collection_id].wf());
            self.mint_whitelist@[collection_id].lemma_seq();
        }
    }

    fn whitelist_contains(&self, collection_id: &Vec<u8>, address: &Vec<u8>) -> (r: bool)
        requires
            self.wf(),
        ensures
            r == self@.mint_whitelist[collection_id@].contains(address@),
    {
        match self.mint_whitelist.get(collection_id) {
            Some(list) => {
                proof {
                    assert(self.mint_whitelist@[collection_id@].wf());
                    list.lemma_seq();
                }
                list.contains(address)
            },
            None => false,
        }
    }

    pub fn is_whitelisted(&self, collection_id: &Vec<u8>, address: &Vec<u8>) -> (r: bool)
        requires
            self.wf(),
        ensures
            r == self@.mint_whitelist[collection_id@].contains(address@),
    {
        self.whitelist_contains(collection_id, address)
    }

    /// The collection's mint whitelist, in order.
    pub fn mint_whitelist(&self, collection_id: &Vec<u8>) -> (r: Vec<Vec<u8>>)
        requires
            self.wf(),
        ensures
            r.len() == self@.mint_whitelist[collection_id@].len(),
            forall|j: int| 0 <= j < r.len() ==> (#[trigger] r@[j])@ == self@.mint_whitelist[collection_id@][j],
    {
        match self.mint_whitelist.get(collection_id) {
            Some(list) => list.to_vec(),
            None => Vec::new(),
        }
    }

}

/// The transfer that sends NFTs created by id to their claimer: one NFT of
/// the collection's token for each created nonce, in order.
pub fn claimed_nft_payments(token_id: &Vec<u8>, nonces: &Vec<u64>) -> (r: Vec<EsdtTokenPayment>)
    ensures
        r.len() == nonces.len(),
        forall|i: int|
            0 <= i < r.len() ==> {
                &&& (#[trigger] r@[i]).token_identifier@ == token_id@
                &&& r@[i].token_nonce == nonces@[i]
                &&& r@[i].amount == NFT_AMOUNT
            },
{
    let mut payments: Vec<EsdtTokenPayment> = Vec::new();
    let mut i: usize = 0;
    while i < nonces.len()
        invariant
            i <= nonces.len(),
            payments.len() == i,
            forall|j: int|
                0 <= j < i ==> {
                    &&& (#[trigger] payments@[j]).token_identifier@ == token_id@
                    &&& payments@[j].token_nonce == nonces@[j]
                    &&& payments@[j].amount == NFT_AMOUNT
                },
        decreases nonces.len() - i,
    {
        payments.push(
            EsdtTokenPayment {
                token_identifier: token_id.copy_key(),
                token_nonce: nonces[i],
                amount: NFT_AMOUNT as u128,
            },
        );
        i += 1;
    }
    payments
}

/// Finishes a claim of NFTs by id once the host created them as `nonces`:
/// refused unless at least as many ids are still available as NFTs were
/// created; otherwise the transfer of those NFTs to the claimer.
pub fn finish_claim_by_ids(token_id: &Vec<u8>, nonces: &Vec<u64>, available_ids: usize) -> (r: Result<
    Vec<EsdtTokenPayment>,
    ContractError,
>)
    ensures
        nonces.len() > available_ids ==> r == Err::<Vec<EsdtTokenPayment>, ContractError>(
            ContractError::NotEnoughNftsAvailable,
        ),
        nonces.len() <= available_ids ==> {
            &&& r matches Ok(payments)
            &&& payments.len() == nonces.len()
            &&& forall|i: int|
                0 <= i < payments.len() ==> {
                    &&& (#[trigger] payments@[i]).token_identifier@ == token_id@
                    &&& payments@[i].token_nonce == nonces@[i]
                    &&& payments@[i].amount == NFT_AMOUNT
                }
        },
{
    match enough_nfts_available(nonces.len(), available_ids) {
        Err(e) => Err(e),
        Ok(()) => Ok(claimed_nft_payments(token_id, nonces)),
    }
}

/// After NFTs were created by id: there must be at least as many ids still
/// available as NFTs were created.
pub fn enough_nfts_available(nfts_count: usize, available_ids: usize) -> (r: Result<(), ContractError>)
    ensures
        r == (if nfts_count <= available_ids {
            Ok::<(), ContractError>(())
        } else {
            Err(ContractError::NotEnoughNftsAvailable)
        }),
{
    if nfts_count <= available_ids {
        Ok(())
    } else {
        Err(ContractError::NotEnoughNftsAvailable)
    }
}

} // verus!
