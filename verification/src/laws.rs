//! Properties that relate several endpoint calls.

use vstd::prelude::*;

use crate::collection::{
    ContractError, NFT_AMOUNT, TempCallbackStorageInfo, MAX_COLLECTION_ID_LEN, NFT_ISSUE_COST, ROYALTIES_MAX,
};
use crate::minter::{
    add_collection_error, after_add_collection, after_issue_failure, after_issue_success,
    issued_collection_error, keeps_pending_issue, keeps_registration, mint_nft_result, positive_amounts, total_amount,
    MinterState,
};
use crate::reward::{claim_error, InteractorState};
use crate::token::{valid_esdt_identifier, valid_token, MintPrice, Payment};
use crate::whitelist::{is_listed, lemma_add_all, lemma_add_all_listed, lemma_remove_all, list_add_all, list_remove_all};

verus! {

/// A collection whose token issue fails leaves no trace: the failure callback
/// undoes exactly what the accepted `add_collection` stored.
pub proof fn law_failed_issue_undoes_registration(
    s: MinterState,
    caller: Seq<u8>,
    payment_amount: u128,
    media_type_supported: bool,
    collection_hash: Seq<u8>,
    collection_id: Seq<u8>,
    royalties: u128,
    mint_start_timestamp: u64,
    mint_end_timestamp: u64,
    mint_price_token_id: Option<Seq<u8>>,
    total_nfts: usize,
    mint_price_token_amount: u128,
    pending: TempCallbackStorageInfo,
)
    requires
        s.inv(),
        add_collection_error(
            s,
            caller,
            payment_amount,
            media_type_supported,
            collection_hash,
            collection_id,
            royalties,
            mint_start_timestamp,
            mint_end_timestamp,
            mint_price_token_id,
            total_nfts,
            mint_price_token_amount,
        ) is None,
    ensures
        after_issue_failure(after_add_collection(s, collection_hash, collection_id, pending), collection_hash, collection_id)
            == s,
{
    let t = after_issue_failure(after_add_collection(s, collection_hash, collection_id, pending), collection_hash, collection_id);
    assert(!s.pending.contains_key(collection_id));
    assert(t.collection_hashes =~= s.collection_hashes);
    assert(t.collections =~= s.collections);
    assert(t.pending =~= s.pending);
}

/// Once a collection id or a collection hash is registered, no other
/// collection can be added under it.
pub proof fn law_registration_is_unique(
    s: MinterState,
    caller: Seq<u8>,
    payment_amount: u128,
    media_type_supported: bool,
    collection_hash: Seq<u8>,
    collection_id: Seq<u8>,
    royalties: u128,
    mint_start_timestamp: u64,
    mint_end_timestamp: u64,
    mint_price_token_id: Option<Seq<u8>>,
    total_nfts: usize,
    mint_price_token_amount: u128,
)
    requires
        s.collections.contains(collection_id) || s.collection_hashes.contains(collection_hash),
    ensures
        add_collection_error(
            s,
            caller,
            payment_amount,
            media_type_supported,
            collection_hash,
            collection_id,
            royalties,
            mint_start_timestamp,
            mint_end_timestamp,
            mint_price_token_id,
            total_nfts,
            mint_price_token_amount,
        ) is Some,
{
}

/// An accepted collection is neither pending nor issued before: its token is
/// issued at most once.
pub proof fn law_accepted_collection_is_new(
    s: MinterState,
    caller: Seq<u8>,
    payment_amount: u128,
    media_type_supported: bool,
    collection_hash: Seq<u8>,
    collection_id: Seq<u8>,
    royalties: u128,
    mint_start_timestamp: u64,
    mint_end_timestamp: u64,
    mint_price_token_id: Option<Seq<u8>>,
    total_nfts: usize,
    mint_price_token_amount: u128,
)
    requires
        s.inv(),
        add_collection_error(
            s,
            caller,
            payment_amount,
            media_type_supported,
            collection_hash,
            collection_id,
            royalties,
            mint_start_timestamp,
            mint_end_timestamp,
            mint_price_token_id,
            total_nfts,
            mint_price_token_amount,
        ) is None,
    ensures
        !s.pending.contains_key(collection_id),
        !s.nft_token.contains_key(collection_id),
        !s.collection_info.contains_key(collection_id),
{
    assert(!s.collections.contains(collection_id));
}

/// A registered collection's hash and id stay taken until its issue fails:
/// adding a collection under its hash is refused, with the hash error once
/// the checks before it pass; adding one under its id with a new hash is
/// refused with the id error.
pub proof fn law_registered_hash_and_id_stay_taken(
    s: MinterState,
    existing: Seq<u8>,
    caller: Seq<u8>,
    payment_amount: u128,
    media_type_supported: bool,
    collection_hash: Seq<u8>,
    collection_id: Seq<u8>,
    royalties: u128,
    mint_start_timestamp: u64,
    mint_end_timestamp: u64,
    mint_price_token_id: Option<Seq<u8>>,
    total_nfts: usize,
    mint_price_token_amount: u128,
)
    requires
        s.inv(),
        s.collections.contains(existing),
    ensures
        ({
            let err = add_collection_error(
                s,
                caller,
                payment_amount,
                media_type_supported,
                collection_hash,
                collection_id,
                royalties,
                mint_start_timestamp,
                mint_end_timestamp,
                mint_price_token_id,
                total_nfts,
                mint_price_token_amount,
            );
            let earlier_checks_pass = s.admins.contains(caller) && 0 < collection_id.len()
                <= MAX_COLLECTION_ID_LEN && payment_amount == NFT_ISSUE_COST && media_type_supported
                && royalties <= ROYALTIES_MAX && valid_token(mint_price_token_id);
            &&& collection_hash == s.registered_hash(existing) ==> err is Some
            &&& collection_hash == s.registered_hash(existing) && earlier_checks_pass ==> err == Some(
                ContractError::CollectionHashAlreadyExists,
            )
            &&& collection_id == existing ==> err is Some
            &&& collection_id == existing && !s.collection_hashes.contains(collection_hash)
                && earlier_checks_pass ==> err == Some(ContractError::CollectionAlreadyExists)
        }),
{
}

proof fn lemma_registration_kept(states: Seq<MinterState>, id: Seq<u8>, n: int)
    requires
        0 <= n < states.len(),
        states[0].collections.contains(id),
        forall|i: int| 0 <= i < states.len() - 1 ==> #[trigger] keeps_registration(states[i], states[i + 1], id),
    ensures
        states[n].collections.contains(id),
        states[n].registered_hash(id) == states[0].registered_hash(id),
    decreases n,
{
    if n > 0 {
        lemma_registration_kept(states, id, n - 1);
        assert(keeps_registration(states[n - 1], states[n - 1 + 1], id));
    }
}

/// Over any sequence of calls none of which fails the issue of collection
/// `id` (each step keeps its registration, as every endpoint but that
/// failure callback does), `id` stays registered under the hash it was
/// added with; so at the end a collection added under that hash is refused,
/// with the hash error once the checks before it pass, and one added under
/// `id` with a new hash is refused with the id error.
pub proof fn law_registration_survives_calls(
    states: Seq<MinterState>,
    id: Seq<u8>,
    caller: Seq<u8>,
    payment_amount: u128,
    media_type_supported: bool,
    collection_id: Seq<u8>,
    new_hash: Seq<u8>,
    royalties: u128,
    mint_start_timestamp: u64,
    mint_end_timestamp: u64,
    mint_price_token_id: Option<Seq<u8>>,
    total_nfts: usize,
    mint_price_token_amount: u128,
)
    requires
        states.len() > 0,
        states[0].collections.contains(id),
        forall|i: int| 0 <= i < states.len() - 1 ==> #[trigger] keeps_registration(states[i], states[i + 1], id),
        states.last().inv(),
    ensures
        ({
            let s = states.last();
            let h = states[0].registered_hash(id);
            let earlier_checks_pass = s.admins.contains(caller) && 0 < collection_id.len()
                <= MAX_COLLECTION_ID_LEN && payment_amount == NFT_ISSUE_COST && media_type_supported
                && royalties <= ROYALTIES_MAX && valid_token(mint_price_token_id);
            &&& s.collections.contains(id)
            &&& s.registered_hash(id) == h
            &&& s.collection_hashes.contains(h)
            &&& earlier_checks_pass ==> add_collection_error(
                s,
                caller,
                payment_amount,
                media_type_supported,
                h,
                collection_id,
                royalties,
                mint_start_timestamp,
                mint_end_timestamp,
                mint_price_token_id,
                total_nfts,
                mint_price_token_amount,
            ) == Some(ContractError::CollectionHashAlreadyExists)
            &&& earlier_checks_pass && 0 < id.len() <= MAX_COLLECTION_ID_LEN && !s.collection_hashes.contains(new_hash)
                ==> add_collection_error(
                s,
                caller,
                payment_amount,
                media_type_supported,
                new_hash,
                id,
                royalties,
                mint_start_timestamp,
                mint_end_timestamp,
                mint_price_token_id,
                total_nfts,
                mint_price_token_amount,
            ) == Some(ContractError::CollectionAlreadyExists)
        }),
{
    lemma_registration_kept(states, id, states.len() - 1);
}

proof fn lemma_pending_kept(states: Seq<MinterState>, id: Seq<u8>, n: int)
    requires
        0 <= n < states.len(),
        states[0].pending.contains_key(id),
        forall|i: int| 0 <= i < states.len() - 1 ==> #[trigger] keeps_pending_issue(states[i], states[i + 1], id),
    ensures
        states[n].pending.contains_key(id),
        states[n].pending[id] == states[0].pending[id],
    decreases n,
{
    if n > 0 {
        lemma_pending_kept(states, id, n - 1);
        assert(keeps_pending_issue(states[n - 1], states[n - 1 + 1], id));
    }
}

/// A collection added with settings `pending`, whose issue then succeeds
/// with `token_id` after any sequence of calls that keep its pending issue
/// (as every endpoint but its own callback does), is registered with that
/// token and exactly the description, size, price and tags it was added
/// with.
pub proof fn law_issue_stores_the_added_settings(
    s: MinterState,
    collection_hash: Seq<u8>,
    collection_id: Seq<u8>,
    pending: TempCallbackStorageInfo,
    states: Seq<MinterState>,
    token_id: Vec<u8>,
)
    requires
        states.len() > 0,
        states[0] == after_add_collection(s, collection_hash, collection_id, pending),
        forall|i: int|
            0 <= i < states.len() - 1 ==> #[trigger] keeps_pending_issue(states[i], states[i + 1], collection_id),
        states.last().inv(),
    ensures
        ({
            let t = after_issue_success(states.last(), collection_id, token_id);
            &&& t.collections.contains(collection_id)
            &&& !t.pending.contains_key(collection_id)
            &&& t.nft_token[collection_id] == token_id
            &&& t.collection_info[collection_id] == pending.collection_info
            &&& t.total_nfts[collection_id] == pending.tier_info.total_nfts
            &&& t.price_for_tier[collection_id] == pending.tier_info.mint_price
            &&& pending.tags.len() > 0 ==> t.tags[collection_id] == pending.tags
        }),
{
    assert(states[0].pending.contains_key(collection_id));
    lemma_pending_kept(states, collection_id, states.len() - 1);
    assert(states.last().collections.contains(collection_id));
}

/// The registered ids and the registered hashes are equally many.
pub proof fn law_registered_sets_have_equal_size(s: MinterState)
    requires
        s.inv(),
    ensures
        s.collections.finite(),
        s.collection_hashes.finite(),
        s.collections.len() == s.collection_hashes.len(),
{
}

/// A purchase pays exactly the price that was set: with the price of a
/// registered, issued collection set to `price`, a purchase of `nfts` NFTs
/// inside the mint period, by a caller whom the whitelist admits, succeeds
/// exactly when it pays `price.amount * nfts` in the price's token.
pub proof fn law_purchase_pays_the_set_price(
    s: MinterState,
    caller: Seq<u8>,
    collection_id: Seq<u8>,
    price: MintPrice,
    nfts: usize,
    payment: Payment,
    current_timestamp: u64,
)
    requires
        s.collections.contains(collection_id),
        s.collection_info.contains_key(collection_id),
        0 < nfts <= u32::MAX,
        s.collection_info[collection_id].mint_period.start <= current_timestamp,
        current_timestamp < s.collection_info[collection_id].mint_period.end,
        current_timestamp >= s.collection_info[collection_id].whitelist_expire_timestamp
            || s.mint_whitelist[collection_id].contains(caller),
    ensures
        ({
            let t = MinterState { price_for_tier: s.price_for_tier.insert(collection_id, price), ..s };
            mint_nft_result(t, caller, collection_id, Some(nfts), payment, current_timestamp) == if payment.token@
                == price.token_id@ && payment.amount == price.amount * nfts {
                Ok::<usize, ContractError>(nfts)
            } else {
                Err(ContractError::InvalidPayment)
            }
        }),
{
}

/// Minting is closed outside the mint period, whatever is paid.
pub proof fn law_no_mint_outside_the_period(
    s: MinterState,
    caller: Seq<u8>,
    collection_id: Seq<u8>,
    opt_nfts_to_buy: Option<usize>,
    payment: Payment,
    current_timestamp: u64,
)
    requires
        s.collection_info.contains_key(collection_id),
        current_timestamp < s.collection_info[collection_id].mint_period.start
            || current_timestamp >= s.collection_info[collection_id].mint_period.end,
    ensures
        !(mint_nft_result(s, caller, collection_id, opt_nfts_to_buy, payment, current_timestamp) matches Ok(n)
            && n > 0),
{
}

/// Whitelisting keeps order and repeats nothing: after adding users each of
/// them is listed, adding the same users again changes nothing (the same
/// addresses in the same order), and removing them again leaves exactly the
/// addresses listed before that are not among them.
pub proof fn law_whitelist_add_and_remove(l: Seq<Seq<u8>>, users: Seq<Vec<u8>>)
    requires
        l.no_duplicates(),
    ensures
        forall|i: int| 0 <= i < users.len() ==> list_add_all(l, users).contains(#[trigger] users[i]@),
        list_add_all(list_add_all(l, users), users) == list_add_all(l, users),
        forall|x: Seq<u8>|
            #[trigger] list_remove_all(list_add_all(l, users), users).contains(x) == (l.contains(x) && !is_listed(
                users,
                x,
            )),
{
    lemma_add_all(l, users);
    assert forall|i: int| 0 <= i < users.len() implies list_add_all(l, users).contains(#[trigger] users[i]@) by {
        assert(is_listed(users, users[i]@));
    }
    lemma_add_all_listed(list_add_all(l, users), users);
    lemma_remove_all(list_add_all(l, users), users);
}

/// The reward handler claims at most once per epoch: after a claim in
/// `epoch`, a claim in the same or an earlier epoch is refused, and a later
/// epoch is accepted from the owner.
pub proof fn law_one_claim_per_epoch(s: InteractorState, owner: Seq<u8>, epoch: u64, next_epoch: u64)
    requires
        claim_error(s, owner, owner, epoch) is None,
    ensures
        epoch > s.last_claim_epoch,
        ({
            let t = InteractorState { last_claim_epoch: epoch, ..s };
            &&& next_epoch <= epoch ==> claim_error(t, owner, owner, next_epoch) == Some(
                ContractError::AlreadyClaimedThisEpoch,
            )
            &&& next_epoch > epoch ==> claim_error(t, owner, owner, next_epoch) is None
        }),
{
}

/// A giveaway's total is the number of NFTs its mints send: destinations
/// with nothing to receive add nothing.
pub proof fn law_giveaway_total_counts_the_mints(pairs: Seq<(Vec<u8>, usize)>)
    ensures
        total_amount(positive_amounts(pairs)) == total_amount(pairs),
    decreases pairs.len(),
{
    if pairs.len() > 0 {
        law_giveaway_total_counts_the_mints(pairs.drop_first());
        if pairs[0].1 > 0 {
            let first = seq![pairs[0]];
            let rest = positive_amounts(pairs.drop_first());
            assert((first + rest).drop_first() =~= rest);
        }
    }
}

/// `add_collection` accepts a collection exactly when every rule holds: an
/// admin caller, an id of 1 to `MAX_COLLECTION_ID_LEN` bytes, exactly the
/// issue cost paid, a supported media type, royalties of at most 100% (any
/// value from 0 up), a valid price token, a new hash and a new id, a mint
/// period that starts before it ends, at least one NFT and a positive price.
pub proof fn law_add_collection_accepts_exactly_the_valid(
    s: MinterState,
    caller: Seq<u8>,
    payment_amount: u128,
    media_type_supported: bool,
    collection_hash: Seq<u8>,
    collection_id: Seq<u8>,
    royalties: u128,
    mint_start_timestamp: u64,
    mint_end_timestamp: u64,
    mint_price_token_id: Option<Seq<u8>>,
    total_nfts: usize,
    mint_price_token_amount: u128,
)
    ensures
        add_collection_error(
            s,
            caller,
            payment_amount,
            media_type_supported,
            collection_hash,
            collection_id,
            royalties,
            mint_start_timestamp,
            mint_end_timestamp,
            mint_price_token_id,
            total_nfts,
            mint_price_token_amount,
        ) is None <==> {
            &&& s.admins.contains(caller)
            &&& 1 <= collection_id.len() <= MAX_COLLECTION_ID_LEN
            &&& payment_amount == NFT_ISSUE_COST
            &&& media_type_supported
            &&& royalties <= ROYALTIES_MAX
            &&& valid_token(mint_price_token_id)
            &&& !s.collection_hashes.contains(collection_hash)
            &&& !s.collections.contains(collection_id)
            &&& mint_start_timestamp < mint_end_timestamp
            &&& total_nfts >= 1
            &&& mint_price_token_amount >= 1
        },
        royalties > ROYALTIES_MAX && s.admins.contains(caller) && 1 <= collection_id.len() <= MAX_COLLECTION_ID_LEN
            && payment_amount == NFT_ISSUE_COST && media_type_supported ==> add_collection_error(
            s,
            caller,
            payment_amount,
            media_type_supported,
            collection_hash,
            collection_id,
            royalties,
            mint_start_timestamp,
            mint_end_timestamp,
            mint_price_token_id,
            total_nfts,
            mint_price_token_amount,
        ) == Some(ContractError::RoyaltiesTooHigh),
{
}

/// Before the whitelist of a collection expires, a caller who is not on it
/// buys nothing, whatever the count asked for and whatever is paid: a
/// purchase of one or more NFTs is refused.
pub proof fn law_whitelist_gates_every_purchase(
    s: MinterState,
    caller: Seq<u8>,
    collection_id: Seq<u8>,
    opt_nfts_to_buy: Option<usize>,
    payment: Payment,
    current_timestamp: u64,
)
    requires
        s.collection_info.contains_key(collection_id),
        current_timestamp < s.collection_info[collection_id].whitelist_expire_timestamp,
        !s.mint_whitelist[collection_id].contains(caller),
    ensures
        !(mint_nft_result(s, caller, collection_id, opt_nfts_to_buy, payment, current_timestamp) matches Ok(n)
            && n >= 1),
        s.collections.contains(collection_id) && s.price_for_tier.contains_key(collection_id) && opt_nfts_to_buy
            != Some(0usize) && payment.token@ == s.price_for_tier[collection_id].token_id@ && payment.amount
            == s.price_for_tier[collection_id].amount * (match opt_nfts_to_buy {
            Some(n) => n,
            None => NFT_AMOUNT as usize,
        } as u32) && s.collection_info[collection_id].mint_period.start <= current_timestamp
            < s.collection_info[collection_id].mint_period.end ==> mint_nft_result(
            s,
            caller,
            collection_id,
            opt_nfts_to_buy,
            payment,
            current_timestamp,
        ) == Err::<usize, ContractError>(ContractError::NotInWhitelist),
{
}

/// A purchase of `n >= 1` NFTs succeeds exactly when the collection is
/// registered and issued with a price, the payment is the price of `n` NFTs
/// in the price's token, the time is inside the mint period, and the caller
/// is whitelisted or the whitelist has expired; it then sells exactly `n`.
pub proof fn law_purchase_succeeds_exactly_when_allowed(
    s: MinterState,
    caller: Seq<u8>,
    collection_id: Seq<u8>,
    n: usize,
    payment: Payment,
    current_timestamp: u64,
)
    requires
        1 <= n <= u32::MAX,
    ensures
        (mint_nft_result(s, caller, collection_id, Some(n), payment, current_timestamp) == Ok::<usize, ContractError>(n))
            <==> {
            &&& s.collections.contains(collection_id)
            &&& s.price_for_tier.contains_key(collection_id)
            &&& s.collection_info.contains_key(collection_id)
            &&& payment.token@ == s.price_for_tier[collection_id].token_id@
            &&& payment.amount == s.price_for_tier[collection_id].amount * n
            &&& s.collection_info[collection_id].mint_period.start <= current_timestamp
            &&& current_timestamp < s.collection_info[collection_id].mint_period.end
            &&& (current_timestamp >= s.collection_info[collection_id].whitelist_expire_timestamp
                || s.mint_whitelist[collection_id].contains(caller))
        },
        mint_nft_result(s, caller, collection_id, Some(n), payment, current_timestamp) matches Ok(m) ==> m == n,
{
}

/// An admin operation on a collection (a giveaway, a claim by id) is
/// refused exactly when the caller is no admin, the collection is not
/// registered, or its token was not issued; nothing else, such as the
/// collection having no tags, refuses it.
pub proof fn law_issued_collection_operations_are_open_to_admins(
    s: MinterState,
    caller: Seq<u8>,
    collection_id: Seq<u8>,
)
    ensures
        issued_collection_error(s, caller, collection_id) is None <==> (s.admins.contains(caller)
            && s.collections.contains(collection_id) && s.collection_info.contains_key(collection_id)),
        !s.admins.contains(caller) ==> issued_collection_error(s, caller, collection_id) == Some(
            ContractError::NotAdmin,
        ),
        s.admins.contains(caller) && !s.collections.contains(collection_id) ==> issued_collection_error(
            s,
            caller,
            collection_id,
        ) == Some(ContractError::InvalidCollectionId),
{
}

/// The total of a giveaway is the plain sum of the amounts: one pair counts
/// its amount, and the total of two lists joined is the sum of their totals.
pub proof fn law_total_amount_is_the_sum(a: Seq<(Vec<u8>, usize)>, b: Seq<(Vec<u8>, usize)>, p: (Vec<u8>, usize))
    ensures
        total_amount(seq![p]) == p.1,
        total_amount(a + b) == total_amount(a) + total_amount(b),
    decreases a.len(),
{
    assert(seq![p].drop_first() =~= Seq::<(Vec<u8>, usize)>::empty());
    assert(total_amount(Seq::<(Vec<u8>, usize)>::empty()) == 0);
    assert(total_amount(seq![p]) == p.1 + total_amount(seq![p].drop_first()));
    if a.len() == 0 {
        assert(a + b =~= b);
    } else {
        law_total_amount_is_the_sum(a.drop_first(), b, p);
        assert((a + b).drop_first() =~= a.drop_first() + b);
        assert((a + b)[0] == a[0]);
    }
}

/// A giveaway sends to every destination with a positive amount, in order,
/// and to no other: one pair is kept exactly when its amount is at least
/// one, and the mints of two lists joined are their mints joined.
pub proof fn law_giveaway_keeps_every_positive_amount(
    a: Seq<(Vec<u8>, usize)>,
    b: Seq<(Vec<u8>, usize)>,
    p: (Vec<u8>, usize),
)
    ensures
        p.1 >= 1 ==> positive_amounts(seq![p]) == seq![p],
        p.1 == 0 ==> positive_amounts(seq![p]) == Seq::<(Vec<u8>, usize)>::empty(),
        positive_amounts(a + b) == positive_amounts(a) + positive_amounts(b),
    decreases a.len(),
{
    assert(seq![p].drop_first() =~= Seq::<(Vec<u8>, usize)>::empty());
    assert(positive_amounts(Seq::<(Vec<u8>, usize)>::empty()) == Seq::<(Vec<u8>, usize)>::empty());
    if p.1 >= 1 {
        assert(seq![p] + Seq::<(Vec<u8>, usize)>::empty() =~= seq![p]);
    }
    if a.len() == 0 {
        assert(a + b =~= b);
        assert(positive_amounts(a) + positive_amounts(b) =~= positive_amounts(b));
    } else {
        law_giveaway_keeps_every_positive_amount(a.drop_first(), b, p);
        assert((a + b).drop_first() =~= a.drop_first() + b);
        assert((a + b)[0] == a[0]);
        if a[0].1 > 0 {
            assert(seq![a[0]] + (positive_amounts(a.drop_first()) + positive_amounts(b)) =~= (seq![a[0]]
                + positive_amounts(a.drop_first())) + positive_amounts(b));
        }
    }
}

/// An ESDT token identifier is valid exactly when it is a ticker of 3 to 10
/// bytes, each an upper-case letter `A`..`Z` or a digit `0`..`9`, then a
/// dash, then 6 bytes, each a lower-case letter `a`..`z` or a digit `0`..`9`.
pub proof fn law_esdt_identifier_format(ticker: Seq<u8>, random: Seq<u8>)
    ensures
        valid_esdt_identifier(ticker + seq![45u8] + random) <==> {
            &&& 3 <= ticker.len() <= 10
            &&& random.len() == 6
            &&& forall|i: int| 0 <= i < ticker.len() ==> {
                ||| 65 <= #[trigger] ticker[i] <= 90
                ||| 48 <= ticker[i] <= 57
            }
            &&& forall|i: int| 0 <= i < random.len() ==> {
                ||| 97 <= #[trigger] random[i] <= 122
                ||| 48 <= random[i] <= 57
            }
        },
{
    let id = ticker + seq![45u8] + random;
    let n = id.len() as int;
    if valid_esdt_identifier(id) {
        let t = n - 7;
        let d = ticker.len() as int;
        assert(id[d] == 45u8);
        if random.len() > 6 {
            assert(crate::token::is_upper_alnum(id[d]));
        }
        if random.len() < 6 {
            assert(crate::token::is_lower_alnum(id[d]));
        }
        assert(t == d);
        assert forall|i: int| 0 <= i < ticker.len() implies {
            ||| 65 <= #[trigger] ticker[i] <= 90
            ||| 48 <= ticker[i] <= 57
        } by {
            assert(id[i] == ticker[i]);
            assert(crate::token::is_upper_alnum(id[i]));
        }
        assert forall|i: int| 0 <= i < random.len() implies {
            ||| 97 <= #[trigger] random[i] <= 122
            ||| 48 <= random[i] <= 57
        } by {
            assert(id[d + 1 + i] == random[i]);
            assert(crate::token::is_lower_alnum(id[d + 1 + i]));
        }
    }
    if 3 <= ticker.len() <= 10 && random.len() == 6 && (forall|i: int| 0 <= i < ticker.len() ==> {
        ||| 65 <= #[trigger] ticker[i] <= 90
        ||| 48 <= ticker[i] <= 57
    }) && (forall|i: int| 0 <= i < random.len() ==> {
        ||| 97 <= #[trigger] random[i] <= 122
        ||| 48 <= random[i] <= 57
    }) {
        assert(id[ticker.len() as int] == 45u8);
        assert forall|i: int| 0 <= i < ticker.len() implies crate::token::is_upper_alnum(#[trigger] id[i]) by {
            assert(id[i] == ticker[i]);
        }
        assert forall|i: int| ticker.len() < i < n implies crate::token::is_lower_alnum(#[trigger] id[i]) by {
            assert(id[i] == random[i - ticker.len() - 1]);
        }
    }
}

} // verus!
