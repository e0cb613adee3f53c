use nft_collection::collection::{
    AsyncCallError, MintRequest, Purchase, ClaimSource, ContractError, IssueRequest, MAX_COLLECTION_ID_LEN, NFT_ISSUE_COST,
    ROYALTIES_MAX,
};
use nft_collection::minter::{claimed_nft_payments, enough_nfts_available, finish_claim_by_ids, DutyNftMinter};
use nft_collection::token::{EgldOrEsdtToken, Payment};

fn b(s: &str) -> Vec<u8> {
    s.as_bytes().to_vec()
}

fn owner() -> Vec<u8> {
    b("owner")
}

fn admin() -> Vec<u8> {
    b("admin")
}

fn minter() -> DutyNftMinter {
    let mut m = DutyNftMinter::init(b("royalties-addr"), b("payments-addr"));
    m.add_user_to_admin_list(&owner(), &owner(), admin()).unwrap();
    m
}

struct Args {
    caller: Vec<u8>,
    payment: u128,
    media_ok: bool,
    hash: Vec<u8>,
    id: Vec<u8>,
    royalties: u128,
    start: u64,
    end: u64,
    token: EgldOrEsdtToken,
    total: usize,
    amount: u128,
    tags: Vec<Vec<u8>>,
    whitelist_expire: u64,
}

fn args() -> Args {
    Args {
        caller: admin(),
        payment: NFT_ISSUE_COST,
        media_ok: true,
        hash: b("QmHash1"),
        id: b("dogs"),
        royalties: 500,
        start: 100,
        end: 200,
        token: EgldOrEsdtToken::Egld,
        total: 10,
        amount: 1_000,
        tags: vec![b("art")],
        whitelist_expire: 0,
    }
}

fn add(m: &mut DutyNftMinter, a: Args) -> Result<IssueRequest, ContractError> {
    m.add_collection(
        &a.caller,
        a.payment,
        a.media_ok,
        a.hash,
        a.id,
        b("png"),
        a.royalties,
        a.start,
        a.end,
        a.token,
        b("Dogs"),
        b("DOGS"),
        a.whitelist_expire,
        a.tags,
        a.total,
        a.amount,
    )
}

/// A minter with the collection "dogs" issued as token "DOGS-abcdef".
fn issued(a: Args) -> DutyNftMinter {
    let mut m = minter();
    let hash = a.hash.clone();
    let id = a.id.clone();
    add(&mut m, a).unwrap();
    m.issue_callback(&hash, &id, Ok(b("DOGS-abcdef"))).unwrap().unwrap();
    m
}

/// How many NFTs a `mint_nft` call sells.
fn sold(r: Result<Option<Purchase>, ContractError>) -> Result<usize, ContractError> {
    r.map(|p| p.map_or(0, |p| p.nfts))
}

fn egld(amount: u128) -> Payment {
    Payment { token: EgldOrEsdtToken::Egld, nonce: 0, amount }
}

#[test]
fn init_stores_the_claim_addresses_only() {
    let m = DutyNftMinter::init(b("r"), b("p"));
    assert_eq!(m.royalties_claim_address(), &b("r"));
    assert_eq!(m.mint_payments_claim_address(), &b("p"));
    assert!(!m.is_admin(&admin()));
    assert!(!m.is_registered_collection(&b("dogs")));
}

#[test]
fn admin_list_is_managed_by_the_owner_only() {
    let mut m = DutyNftMinter::init(b("r"), b("p"));
    assert_eq!(m.add_user_to_admin_list(&admin(), &owner(), admin()), Err(ContractError::OnlyOwner));
    assert!(!m.is_admin(&admin()));
    assert_eq!(m.add_user_to_admin_list(&owner(), &owner(), admin()), Ok(()));
    assert!(m.is_admin(&admin()));
    assert_eq!(m.add_user_to_admin_list(&owner(), &owner(), admin()), Ok(()));
    assert_eq!(m.remove_user_from_admin_list(&admin(), &owner(), &admin()), Err(ContractError::OnlyOwner));
    assert!(m.is_admin(&admin()));
    assert_eq!(m.remove_user_from_admin_list(&owner(), &owner(), &admin()), Ok(()));
    assert!(!m.is_admin(&admin()));
}

#[test]
fn add_collection_registers_and_requests_the_issue() {
    let mut m = minter();
    let req = add(&mut m, args()).unwrap();
    assert_eq!(req.issue_cost, NFT_ISSUE_COST);
    assert_eq!(req.token_display_name, b("Dogs"));
    assert_eq!(req.token_ticker, b("DOGS"));
    assert_eq!(req.callback_collection_hash, b("QmHash1"));
    assert_eq!(req.callback_collection_id, b("dogs"));
    assert!(m.is_registered_collection(&b("dogs")));
    assert!(m.is_registered_collection_hash(&b("QmHash1")));
    let pending = m.pending_issue(&b("dogs")).unwrap();
    assert_eq!(pending.collection_info.collection_hash, b("QmHash1"));
    assert_eq!(pending.collection_info.media_type, b("png"));
    assert_eq!(pending.collection_info.royalties, 500);
    assert_eq!(pending.collection_info.mint_period.start, 100);
    assert_eq!(pending.collection_info.mint_period.end, 200);
    assert_eq!(pending.tier_info.total_nfts, 10);
    assert_eq!(pending.tier_info.mint_price.amount, 1_000);
    assert_eq!(pending.tags, vec![b("art")]);
    assert!(m.collection_info(&b("dogs")).is_none());
    assert!(m.nft_token_id(&b("dogs")).is_none());
}

fn refused(a: Args, expected: ContractError) {
    let mut m = minter();
    assert_eq!(add(&mut m, a).err(), Some(expected));
    assert!(!m.is_registered_collection(&b("dogs")));
    assert!(!m.is_registered_collection_hash(&b("QmHash1")));
    assert!(m.pending_issue(&b("dogs")).is_none());
}

#[test]
fn add_collection_refuses_a_caller_not_admin() {
    refused(Args { caller: b("someone"), ..args() }, ContractError::NotAdmin);
}

#[test]
fn add_collection_refuses_bad_collection_ids() {
    refused(Args { id: Vec::new(), ..args() }, ContractError::InvalidCollectionId);
    refused(Args { id: vec![b'a'; MAX_COLLECTION_ID_LEN + 1], ..args() }, ContractError::InvalidCollectionId);
    let mut m = minter();
    assert!(add(&mut m, Args { id: vec![b'a'; MAX_COLLECTION_ID_LEN], ..args() }).is_ok());
}

#[test]
fn add_collection_wants_exactly_the_issue_cost() {
    refused(Args { payment: NFT_ISSUE_COST - 1, ..args() }, ContractError::InvalidIssuePayment);
    refused(Args { payment: NFT_ISSUE_COST + 1, ..args() }, ContractError::InvalidIssuePayment);
    assert_eq!(NFT_ISSUE_COST, 50_000_000_000_000_000);
}

#[test]
fn add_collection_refuses_an_unsupported_media_type() {
    refused(Args { media_ok: false, ..args() }, ContractError::InvalidMediaType);
}

#[test]
fn add_collection_caps_royalties_at_one_hundred_percent() {
    refused(Args { royalties: ROYALTIES_MAX + 1, ..args() }, ContractError::RoyaltiesTooHigh);
    let mut m = minter();
    assert!(add(&mut m, Args { royalties: ROYALTIES_MAX, ..args() }).is_ok());
}

#[test]
fn add_collection_checks_the_price_token() {
    refused(Args { token: EgldOrEsdtToken::Esdt(b("usdc")), ..args() }, ContractError::InvalidPriceToken);
    let mut m = minter();
    assert!(add(&mut m, Args { token: EgldOrEsdtToken::Esdt(b("USDC-c76f1f")), ..args() }).is_ok());
}

#[test]
fn add_collection_refuses_a_known_hash_or_id() {
    let mut m = minter();
    add(&mut m, args()).unwrap();
    assert_eq!(add(&mut m, Args { id: b("cats"), ..args() }).err(), Some(ContractError::CollectionHashAlreadyExists));
    assert_eq!(add(&mut m, Args { hash: b("QmHash2"), ..args() }).err(), Some(ContractError::CollectionAlreadyExists));
    // with both known, the hash is reported
    assert_eq!(add(&mut m, args()).err(), Some(ContractError::CollectionHashAlreadyExists));
    assert!(!m.is_registered_collection(&b("cats")));
    assert!(!m.is_registered_collection_hash(&b("QmHash2")));
}

#[test]
fn add_collection_checks_timestamps_size_and_price() {
    refused(Args { start: 200, end: 200, ..args() }, ContractError::InvalidTimestamps);
    refused(Args { start: 300, end: 200, ..args() }, ContractError::InvalidTimestamps);
    refused(Args { total: 0, ..args() }, ContractError::InvalidTotalNfts);
    refused(Args { amount: 0, ..args() }, ContractError::InvalidMintPriceAmount);
}

#[test]
fn add_collection_reports_the_first_broken_rule() {
    refused(Args { caller: b("x"), id: Vec::new(), payment: 0, ..args() }, ContractError::NotAdmin);
    refused(Args { id: Vec::new(), payment: 0, ..args() }, ContractError::InvalidCollectionId);
    refused(Args { payment: 0, royalties: ROYALTIES_MAX + 1, ..args() }, ContractError::InvalidIssuePayment);
    refused(Args { total: 0, amount: 0, start: 5, end: 1, ..args() }, ContractError::InvalidTimestamps);
}

#[test]
fn successful_issue_stores_the_collection() {
    let mut m = minter();
    add(&mut m, args()).unwrap();
    let created = m.issue_callback(&b("QmHash1"), &b("dogs"), Ok(b("DOGS-abcdef"))).unwrap().unwrap();
    assert_eq!(created.collection_id, b("dogs"));
    assert_eq!(created.token_id, b("DOGS-abcdef"));
    assert_eq!(created.total_nfts, 10);
    assert!(m.pending_issue(&b("dogs")).is_none());
    assert!(m.is_registered_collection(&b("dogs")));
    assert_eq!(m.nft_token_id(&b("dogs")), Some(&b("DOGS-abcdef")));
    assert_eq!(m.total_nfts(&b("dogs")), Some(10));
    let info = m.collection_info(&b("dogs")).unwrap();
    assert_eq!(info.token_display_name, b("Dogs"));
    assert_eq!(info.royalties, 500);
    let price = m.price_for_tier(&b("dogs")).unwrap();
    assert_eq!(price.token_id, EgldOrEsdtToken::Egld);
    assert_eq!(price.amount, 1_000);
    assert_eq!(m.tags_for_collection(&b("dogs")), Some(&vec![b("art")]));
}

#[test]
fn successful_issue_without_tags_stores_none() {
    let m = issued(Args { tags: Vec::new(), ..args() });
    assert!(m.tags_for_collection(&b("dogs")).is_none());
    assert!(m.collection_info(&b("dogs")).is_some());
}

#[test]
fn failed_issue_undoes_the_registration() {
    let mut m = minter();
    add(&mut m, args()).unwrap();
    let err = AsyncCallError { err_code: 4, err_msg: b("failed") };
    assert_eq!(m.issue_callback(&b("QmHash1"), &b("dogs"), Err(err)), Ok(None));
    assert!(!m.is_registered_collection(&b("dogs")));
    assert!(!m.is_registered_collection_hash(&b("QmHash1")));
    assert!(m.pending_issue(&b("dogs")).is_none());
    assert!(m.nft_token_id(&b("dogs")).is_none());
    // the same collection can be added again
    assert!(add(&mut m, args()).is_ok());
}

#[test]
fn issue_with_an_invalid_token_id_is_refused() {
    let mut m = minter();
    add(&mut m, args()).unwrap();
    assert_eq!(
        m.issue_callback(&b("QmHash1"), &b("dogs"), Ok(b("dogs-ABCDEF"))),
        Err(ContractError::InvalidTokenId)
    );
    assert!(m.pending_issue(&b("dogs")).is_some());
    assert!(m.nft_token_id(&b("dogs")).is_none());
    assert!(m.is_registered_collection(&b("dogs")));
    assert!(m.issue_callback(&b("QmHash1"), &b("dogs"), Ok(b("DOGS-abcdef"))).unwrap().is_some());
}

#[test]
fn set_mint_token_changes_the_price() {
    let mut m = issued(args());
    assert_eq!(
        m.set_mint_token(&b("x"), b("dogs"), EgldOrEsdtToken::Egld, 7),
        Err(ContractError::NotAdmin)
    );
    assert_eq!(m.price_for_tier(&b("dogs")).unwrap().amount, 1_000);
    let usdc = EgldOrEsdtToken::Esdt(b("USDC-c76f1f"));
    assert_eq!(m.set_mint_token(&admin(), b("dogs"), usdc.clone(), 7), Ok(()));
    assert_eq!(m.price_for_tier(&b("dogs")).unwrap().token_id, usdc);
    assert_eq!(m.price_for_tier(&b("dogs")).unwrap().amount, 7);
    let pay = Payment { token: usdc, nonce: 0, amount: 21 };
    assert_eq!(sold(m.mint_nft(&b("buyer"), &b("dogs"), Some(3), &pay, 150)), Ok(3));
    assert_eq!(sold(m.mint_nft(&b("buyer"), &b("dogs"), Some(3), &egld(21), 150)), Err(ContractError::InvalidPayment));
}

#[test]
fn whitelist_add_and_remove() {
    let mut m = issued(args());
    let users = vec![b("alice"), b("bob")];
    assert_eq!(m.add_to_whitelist(&b("x"), &b("dogs"), &users), Err(ContractError::NotAdmin));
    assert!(!m.is_whitelisted(&b("dogs"), &b("alice")));
    assert_eq!(m.add_to_whitelist(&admin(), &b("dogs"), &users), Ok(()));
    assert!(m.is_whitelisted(&b("dogs"), &b("alice")));
    assert!(m.is_whitelisted(&b("dogs"), &b("bob")));
    assert!(!m.is_whitelisted(&b("cats"), &b("alice")));
    assert_eq!(m.remove_from_whitelist(&admin(), &b("dogs"), &vec![b("alice"), b("carol")]), Ok(()));
    assert!(!m.is_whitelisted(&b("dogs"), &b("alice")));
    assert!(m.is_whitelisted(&b("dogs"), &b("bob")));
    assert_eq!(m.remove_from_whitelist(&b("x"), &b("dogs"), &users), Err(ContractError::NotAdmin));
    assert!(m.is_whitelisted(&b("dogs"), &b("bob")));
}

#[test]
fn whitelist_expire_timestamp_needs_an_issued_collection() {
    let mut m = minter();
    add(&mut m, args()).unwrap();
    assert_eq!(
        m.set_mint_whitelist_expire_timestamp(&admin(), b("dogs"), 150),
        Err(ContractError::MissingStorageValue)
    );
    m.issue_callback(&b("QmHash1"), &b("dogs"), Ok(b("DOGS-abcdef"))).unwrap().unwrap();
    assert_eq!(m.set_mint_whitelist_expire_timestamp(&b("x"), b("dogs"), 150), Err(ContractError::NotAdmin));
    assert_eq!(m.set_mint_whitelist_expire_timestamp(&admin(), b("dogs"), 150), Ok(()));
    let info = m.collection_info(&b("dogs")).unwrap();
    assert_eq!(info.whitelist_expire_timestamp, 150);
    assert_eq!(info.royalties, 500);
}

#[test]
fn mint_sells_at_the_price_inside_the_period() {
    let m = issued(args());
    assert_eq!(sold(m.mint_nft(&b("buyer"), &b("dogs"), Some(2), &egld(2_000), 100)), Ok(2));
    assert_eq!(sold(m.mint_nft(&b("buyer"), &b("dogs"), None, &egld(1_000), 199)), Ok(1));
    assert_eq!(sold(m.mint_nft(&b("buyer"), &b("dogs"), None, &egld(2_000), 150)), Err(ContractError::InvalidPayment));
    assert_eq!(sold(m.mint_nft(&b("buyer"), &b("dogs"), Some(2), &egld(2_001), 150)), Err(ContractError::InvalidPayment));
    let usdc = Payment { token: EgldOrEsdtToken::Esdt(b("USDC-c76f1f")), nonce: 0, amount: 2_000 };
    assert_eq!(sold(m.mint_nft(&b("buyer"), &b("dogs"), Some(2), &usdc, 150)), Err(ContractError::InvalidPayment));
    assert_eq!(sold(m.mint_nft(&b("buyer"), &b("dogs"), Some(2), &egld(2_000), 99)), Err(ContractError::MintNotStarted));
    assert_eq!(sold(m.mint_nft(&b("buyer"), &b("dogs"), Some(2), &egld(2_000), 200)), Err(ContractError::MintEnded));
}

#[test]
fn mint_of_zero_nfts_sells_nothing_whatever_is_paid() {
    let m = issued(args());
    assert_eq!(sold(m.mint_nft(&b("buyer"), &b("dogs"), Some(0), &egld(5), 0)), Ok(0));
    assert_eq!(sold(m.mint_nft(&b("buyer"), &b("cats"), Some(0), &egld(5), 0)), Err(ContractError::InvalidCollectionId));
}

#[test]
fn mint_needs_a_registered_issued_collection() {
    let mut m = minter();
    assert_eq!(sold(m.mint_nft(&b("buyer"), &b("dogs"), None, &egld(1_000), 150)), Err(ContractError::InvalidCollectionId));
    add(&mut m, args()).unwrap();
    assert_eq!(sold(m.mint_nft(&b("buyer"), &b("dogs"), None, &egld(1_000), 150)), Err(ContractError::MissingStorageValue));
    m.set_mint_token(&admin(), b("dogs"), EgldOrEsdtToken::Egld, 1_000).unwrap();
    assert_eq!(sold(m.mint_nft(&b("buyer"), &b("dogs"), None, &egld(1_000), 150)), Err(ContractError::MissingStorageValue));
    assert_eq!(sold(m.mint_nft(&b("buyer"), &b("dogs"), None, &egld(999), 150)), Err(ContractError::InvalidPayment));
}

#[test]
fn mint_before_the_whitelist_expires_needs_a_whitelisted_buyer() {
    let mut m = issued(Args { whitelist_expire: 150, ..args() });
    assert_eq!(sold(m.mint_nft(&b("alice"), &b("dogs"), None, &egld(1_000), 149)), Err(ContractError::NotInWhitelist));
    assert_eq!(sold(m.mint_nft(&b("alice"), &b("dogs"), None, &egld(1_000), 150)), Ok(1));
    m.add_to_whitelist(&admin(), &b("dogs"), &vec![b("alice")]).unwrap();
    assert_eq!(sold(m.mint_nft(&b("alice"), &b("dogs"), None, &egld(1_000), 149)), Ok(1));
    assert_eq!(sold(m.mint_nft(&b("bob"), &b("dogs"), None, &egld(1_000), 149)), Err(ContractError::NotInWhitelist));
}

#[test]
fn mint_total_beyond_u128_is_an_invalid_payment() {
    let m = issued(Args { amount: u128::MAX, ..args() });
    assert_eq!(sold(m.mint_nft(&b("buyer"), &b("dogs"), Some(2), &egld(u128::MAX), 150)), Err(ContractError::InvalidPayment));
    assert_eq!(sold(m.mint_nft(&b("buyer"), &b("dogs"), Some(1), &egld(u128::MAX), 150)), Ok(1));
}

#[test]
fn giveaway_skips_zero_amounts_and_sums_the_rest() {
    let m = issued(args());
    let pairs = vec![(b("a"), 2), (b("b"), 0), (b("c"), 3)];
    let plan = m.giveaway_nfts(&admin(), &b("dogs"), pairs).unwrap();
    assert_eq!(plan.mints, vec![(b("a"), 2), (b("c"), 3)]);
    assert_eq!(plan.total, 5);
    let empty = m.giveaway_nfts(&admin(), &b("dogs"), Vec::new()).unwrap();
    assert!(empty.mints.is_empty());
    assert_eq!(empty.total, 0);
}

#[test]
fn giveaway_is_for_admins_and_issued_collections() {
    let mut m = minter();
    assert_eq!(m.giveaway_nfts(&b("x"), &b("dogs"), Vec::new()).err(), Some(ContractError::NotAdmin));
    assert_eq!(m.giveaway_nfts(&admin(), &b("dogs"), Vec::new()).err(), Some(ContractError::InvalidCollectionId));
    add(&mut m, args()).unwrap();
    assert_eq!(m.giveaway_nfts(&admin(), &b("dogs"), Vec::new()).err(), Some(ContractError::MissingStorageValue));
}

#[test]
fn claim_nfts_checks() {
    let m = issued(args());
    assert_eq!(m.claim_nfts(&b("x"), &b("dogs"), 1).err(), Some(ContractError::NotAdmin));
    assert_eq!(m.claim_nfts(&admin(), &b("cats"), 1).err(), Some(ContractError::InvalidCollectionId));
    assert_eq!(m.claim_nfts(&admin(), &b("dogs"), 0).err(), Some(ContractError::InvalidClaimAmount));
    assert_eq!(
        m.claim_nfts(&admin(), &b("dogs"), 3),
        Ok(MintRequest { to: admin(), collection_id: b("dogs"), amount: 3 })
    );
    let mut p = minter();
    add(&mut p, args()).unwrap();
    assert_eq!(p.claim_nfts(&admin(), &b("dogs"), 3).err(), Some(ContractError::MissingStorageValue));
}

#[test]
fn claim_nfts_by_ids_hands_back_the_token() {
    let m = issued(args());
    let creations = m.claim_nfts_by_ids(&admin(), &b("dogs"), &vec![4, 2]).unwrap();
    assert_eq!(creations.len(), 2);
    assert_eq!(creations[0].token_id, b("DOGS-abcdef"));
    assert_eq!(creations[0].amount, 1);
    assert_eq!(creations[0].name, b("Dogs"));
    assert_eq!(creations[0].royalties, 500);
    assert!(creations[0].hash.is_empty());
    assert_eq!(creations[0].collection_hash, b("QmHash1"));
    assert_eq!(creations[0].collection_id, b("dogs"));
    assert_eq!(creations[0].media_type, b("png"));
    assert_eq!(creations[0].nft_id, 4);
    assert_eq!(creations[1].nft_id, 2);
    assert_eq!(m.claim_nfts_by_ids(&admin(), &b("dogs"), &Vec::new()), Ok(Vec::new()));
    assert_eq!(m.claim_nfts_by_ids(&b("x"), &b("dogs"), &vec![1]), Err(ContractError::NotAdmin));
    assert_eq!(m.claim_nfts_by_ids(&admin(), &b("cats"), &vec![1]), Err(ContractError::InvalidCollectionId));
    let mut p = minter();
    add(&mut p, args()).unwrap();
    assert_eq!(p.claim_nfts_by_ids(&admin(), &b("dogs"), &vec![1]), Err(ContractError::MissingStorageValue));
    assert_eq!(enough_nfts_available(3, 3), Ok(()));
    assert_eq!(enough_nfts_available(0, 0), Ok(()));
    assert_eq!(enough_nfts_available(4, 3), Err(ContractError::NotEnoughNftsAvailable));
}

#[test]
fn claims_go_to_the_claim_addresses() {
    let mut m = minter();
    let r = m.claim_royalties();
    assert_eq!(r.to, b("royalties-addr"));
    assert_eq!(r.source, ClaimSource::Royalties);
    let p = m.claim_mint_payments();
    assert_eq!(p.to, b("payments-addr"));
    assert_eq!(p.source, ClaimSource::MintPayments);
    assert_eq!(m.set_royalties_claim_address(&b("x"), b("new")), Err(ContractError::NotAdmin));
    assert_eq!(m.set_mint_payments_claim_address(&b("x"), b("new")), Err(ContractError::NotAdmin));
    m.set_royalties_claim_address(&admin(), b("r2")).unwrap();
    m.set_mint_payments_claim_address(&admin(), b("p2")).unwrap();
    assert_eq!(m.claim_royalties().to, b("r2"));
    assert_eq!(m.claim_mint_payments().to, b("p2"));
}

#[test]
fn error_messages() {
    assert_eq!(ContractError::InvalidIssuePayment.message(), "Invalid payment amount. Issue costs exactly 0.05 EGLD");
    assert_eq!(ContractError::AlreadyClaimedThisEpoch.message(), "Already claimed this epoch");
    assert_eq!(ContractError::NotInWhitelist.message(), "Not in whitelist");
    assert_eq!(ContractError::MissingStorageValue.message(), "storage decode error: input too short");
}

#[test]
fn claimed_nfts_are_sent_one_per_nonce() {
    let payments = claimed_nft_payments(&b("DOGS-abcdef"), &vec![7, 3, 9]);
    assert_eq!(payments.len(), 3);
    assert_eq!(payments[0].token_identifier, b("DOGS-abcdef"));
    assert_eq!(payments[0].token_nonce, 7);
    assert_eq!(payments[1].token_nonce, 3);
    assert_eq!(payments[2].token_nonce, 9);
    assert!(payments.iter().all(|p| p.amount == 1));
    assert!(claimed_nft_payments(&b("DOGS-abcdef"), &Vec::new()).is_empty());
}

#[test]
fn law_failed_issue_restores_the_state_on_concrete_values() {
    let mut m = issued(Args { hash: b("QmOther"), id: b("cats"), ..args() });
    m.add_to_whitelist(&admin(), &b("cats"), &vec![b("alice")]).unwrap();
    add(&mut m, args()).unwrap();
    m.issue_callback(&b("QmHash1"), &b("dogs"), Err(AsyncCallError { err_code: 1, err_msg: Vec::new() })).unwrap();
    assert!(!m.is_registered_collection(&b("dogs")));
    assert!(m.is_registered_collection(&b("cats")));
    assert!(m.is_registered_collection_hash(&b("QmOther")));
    assert!(!m.is_registered_collection_hash(&b("QmHash1")));
    assert!(m.is_whitelisted(&b("cats"), &b("alice")));
    assert_eq!(m.nft_token_id(&b("cats")), Some(&b("DOGS-abcdef")));
}

#[test]
fn purchase_of_two_for_twenty_egld() {
    let mut m = issued(Args { id: b("COL"), amount: 10, start: 100, end: 200, whitelist_expire: 100, ..args() });
    assert!(m.is_registered_collection(&b("COL")));
    let p = m.mint_nft(&b("A"), &b("COL"), Some(2), &egld(20), 150).unwrap().unwrap();
    assert_eq!(
        p,
        Purchase { buyer: b("A"), collection_id: b("COL"), nfts: 2, paid_token: EgldOrEsdtToken::Egld, paid_amount: 20 }
    );
    assert_eq!(m.mint_nft(&b("A"), &b("COL"), Some(0), &egld(20), 150), Ok(None));
    m.set_mint_token(&admin(), b("COL"), EgldOrEsdtToken::Esdt(b("USDC-c76f1f")), 5).unwrap();
    let usdc = Payment { token: EgldOrEsdtToken::Esdt(b("USDC-c76f1f")), nonce: 3, amount: 15 };
    let q = m.mint_nft(&b("B"), &b("COL"), None, &usdc, 150);
    assert_eq!(q.err(), Some(ContractError::InvalidPayment));
    let q = m.mint_nft(&b("B"), &b("COL"), Some(3), &usdc, 150).unwrap().unwrap();
    assert_eq!(q.paid_token, EgldOrEsdtToken::Esdt(b("USDC-c76f1f")));
    assert_eq!(q.paid_amount, 15);
    assert_eq!(q.buyer, b("B"));
}

#[test]
fn whitelist_keeps_order_and_repeats_nothing() {
    let mut m = issued(args());
    let users = vec![b("alice"), b("bob"), b("carol")];
    m.add_to_whitelist(&admin(), &b("dogs"), &users).unwrap();
    assert_eq!(m.mint_whitelist(&b("dogs")), users);
    m.add_to_whitelist(&admin(), &b("dogs"), &users).unwrap();
    assert_eq!(m.mint_whitelist(&b("dogs")), users);
    m.add_to_whitelist(&admin(), &b("dogs"), &vec![b("dave"), b("bob")]).unwrap();
    assert_eq!(m.mint_whitelist(&b("dogs")), vec![b("alice"), b("bob"), b("carol"), b("dave")]);
    // removing moves the last address into the freed place
    m.remove_from_whitelist(&admin(), &b("dogs"), &vec![b("alice")]).unwrap();
    assert_eq!(m.mint_whitelist(&b("dogs")), vec![b("dave"), b("bob"), b("carol")]);
    m.remove_from_whitelist(&admin(), &b("dogs"), &vec![b("carol"), b("zed")]).unwrap();
    assert_eq!(m.mint_whitelist(&b("dogs")), vec![b("dave"), b("bob")]);
    assert!(m.mint_whitelist(&b("cats")).is_empty());
    m.remove_from_whitelist(&admin(), &b("cats"), &vec![b("dave")]).unwrap();
    assert!(m.mint_whitelist(&b("cats")).is_empty());
}

#[test]
fn a_hash_stays_taken_across_collections() {
    let mut m = issued(args());
    assert_eq!(add(&mut m, Args { id: b("cats"), ..args() }).err(), Some(ContractError::CollectionHashAlreadyExists));
    add(&mut m, Args { id: b("cats"), hash: b("QmCats"), ..args() }).unwrap();
    assert_eq!(add(&mut m, Args { id: b("birds"), hash: b("QmCats"), ..args() }).err(), Some(ContractError::CollectionHashAlreadyExists));
    m.issue_callback(&b("QmCats"), &b("cats"), Err(AsyncCallError { err_code: 1, err_msg: Vec::new() })).unwrap();
    assert!(add(&mut m, Args { id: b("birds"), hash: b("QmCats"), ..args() }).is_ok());
    assert_eq!(add(&mut m, Args { hash: b("QmNew"), ..args() }).err(), Some(ContractError::CollectionAlreadyExists));
}

#[test]
fn finishing_a_claim_by_ids() {
    let sent = finish_claim_by_ids(&b("DOGS-abcdef"), &vec![5, 6], 2).unwrap();
    assert_eq!(sent.len(), 2);
    assert_eq!(sent[0].token_identifier, b("DOGS-abcdef"));
    assert_eq!(sent[1].token_nonce, 6);
    assert_eq!(sent[1].amount, 1);
    assert_eq!(finish_claim_by_ids(&b("DOGS-abcdef"), &vec![5, 6], 1), Err(ContractError::NotEnoughNftsAvailable));
    assert_eq!(finish_claim_by_ids(&b("DOGS-abcdef"), &Vec::new(), 0), Ok(Vec::new()));
}

#[test]
fn giveaway_refusals_come_before_any_sum() {
    let m = issued(args());
    let huge = vec![(b("a"), usize::MAX), (b("b"), 1)];
    assert_eq!(m.giveaway_nfts(&b("x"), &b("dogs"), huge.clone()).err(), Some(ContractError::NotAdmin));
    assert_eq!(m.giveaway_nfts(&admin(), &b("cats"), huge).err(), Some(ContractError::InvalidCollectionId));
}

#[test]
fn settings_survive_calls_on_other_collections_before_the_issue() {
    let mut m = minter();
    add(&mut m, args()).unwrap();
    add(&mut m, Args { id: b("cats"), hash: b("QmCats"), ..args() }).unwrap();
    m.set_mint_token(&admin(), b("cats"), EgldOrEsdtToken::Egld, 77).unwrap();
    m.add_to_whitelist(&admin(), &b("cats"), &vec![b("z")]).unwrap();
    m.issue_callback(&b("QmCats"), &b("cats"), Err(AsyncCallError { err_code: 2, err_msg: Vec::new() })).unwrap();
    m.issue_callback(&b("QmHash1"), &b("dogs"), Ok(b("DOGS-abcdef"))).unwrap().unwrap();
    let info = m.collection_info(&b("dogs")).unwrap();
    assert_eq!(info.collection_hash, b("QmHash1"));
    assert_eq!(info.media_type, b("png"));
    assert_eq!(info.mint_period.start, 100);
    assert_eq!(m.price_for_tier(&b("dogs")).unwrap().amount, 1_000);
    assert_eq!(m.total_nfts(&b("dogs")), Some(10));
    assert!(m.is_registered_collection_hash(&b("QmHash1")));
    assert_eq!(add(&mut m, Args { id: b("birds"), ..args() }).err(), Some(ContractError::CollectionHashAlreadyExists));
}
