//! Tokens, amounts and payments.

use vstd::prelude::*;

verus! {

/// Shortest ticker of an ESDT token identifier.
pub const TICKER_MIN_LENGTH: usize = 3;

/// Longest ticker of an ESDT token identifier.
pub const TICKER_MAX_LENGTH: usize = 10;

/// Number of random characters after the dash of an ESDT token identifier.
pub const RANDOM_CHARS_LENGTH: usize = 6;

/// Byte that separates the ticker from the random characters.
pub const DASH: u8 = 45;

pub open spec fn is_upper_alnum(c: u8) -> bool {
    (65 <= c && c <= 90) || (48 <= c && c <= 57)
}

pub open spec fn is_lower_alnum(c: u8) -> bool {
    (97 <= c && c <= 122) || (48 <= c && c <= 57)
}

/// An ESDT token identifier: an upper-case alphanumeric ticker of 3 to 10
/// bytes, a dash, and 6 lower-case alphanumeric bytes.
pub open spec fn valid_esdt_identifier(s: Seq<u8>) -> bool {
    let n = s.len() as int;
    let ticker_len = n - RANDOM_CHARS_LENGTH - 1;
    &&& TICKER_MIN_LENGTH <= ticker_len <= TICKER_MAX_LENGTH
    &&& forall|i: int| 0 <= i < ticker_len ==> is_upper_alnum(#[trigger] s[i])
    &&& s[ticker_len] == DASH
    &&& forall|i: int| ticker_len < i < n ==> is_lower_alnum(#[trigger] s[i])
}

fn upper_alnum(c: u8) -> (r: bool)
    ensures
        r == is_upper_alnum(c),
{
    (65 <= c && c <= 90) || (48 <= c && c <= 57)
}

fn lower_alnum(c: u8) -> (r: bool)
    ensures
        r == is_lower_alnum(c),
{
    (97 <= c && c <= 122) || (48 <= c && c <= 57)
}

/// Checks an ESDT token identifier for validity.
pub fn is_valid_esdt_identifier(s: &Vec<u8>) -> (r: bool)
    ensures
        r == valid_esdt_identifier(s@),
{
    let n = s.len();
    if n < TICKER_MIN_LENGTH + RANDOM_CHARS_LENGTH + 1 || n > TICKER_MAX_LENGTH + RANDOM_CHARS_LENGTH
        + 1 {
        return false;
    }
    let ticker_len = n - RANDOM_CHARS_LENGTH - 1;
    let mut i: usize = 0;
    while i < ticker_len
        invariant
            ticker_len < n == s.len(),
            ticker_len == n - RANDOM_CHARS_LENGTH - 1,
            i <= ticker_len,
            forall|j: int| 0 <= j < i ==> is_upper_alnum(#[trigger] s@[j]),
        decreases ticker_len - i,
    {
        if !upper_alnum(s[i]) {
            assert(!is_upper_alnum(s@[i as int]));
            return false;
        }
        i += 1;
    }
    if s[ticker_len] != DASH {
        return false;
    }
    let mut k: usize = ticker_len + 1;
    while k < n
        invariant
            ticker_len < n == s.len(),
            ticker_len == n - RANDOM_CHARS_LENGTH - 1,
            ticker_len + 1 <= k <= n,
            forall|j: int| ticker_len < j < k ==> is_lower_alnum(#[trigger] s@[j]),
        decreases n - k,
    {
        if !lower_alnum(s[k]) {
            assert(!is_lower_alnum(s@[k as int]));
            return false;
        }
        k += 1;
    }
    true
}

/// What identifies a token: EGLD itself or an ESDT token identifier.
#[derive(Debug, Clone, PartialEq, Eq)]
pub enum EgldOrEsdtToken {
    Egld,
    Esdt(Vec<u8>),
}

/// A token identifier as a value: `None` for EGLD.
impl View for EgldOrEsdtToken {
    type V = Option<Seq<u8>>;

    open spec fn view(&self) -> Option<Seq<u8>> {
        match self {
            EgldOrEsdtToken::Egld => None,
            EgldOrEsdtToken::Esdt(id) => Some(id@),
        }
    }
}

/// EGLD is valid; an ESDT token must have a valid identifier.
pub open spec fn valid_token(t: Option<Seq<u8>>) -> bool {
    match t {
        None => true,
        Some(id) => valid_esdt_identifier(id),
    }
}

impl EgldOrEsdtToken {
    pub fn is_valid(&self) -> (r: bool)
        ensures
            r == valid_token(self@),
    {
        match self {
            EgldOrEsdtToken::Egld => true,
            EgldOrEsdtToken::Esdt(id) => is_valid_esdt_identifier(id),
        }
    }

    pub fn copy_token(&self) -> (r: EgldOrEsdtToken)
        ensures
            r@ == self@,
    {
        match self {
            EgldOrEsdtToken::Egld => EgldOrEsdtToken::Egld,
            EgldOrEsdtToken::Esdt(id) => EgldOrEsdtToken::Esdt(crate::store::StorageKey::copy_key(id)),
        }
    }

    pub fn same_token(&self, other: &EgldOrEsdtToken) -> (r: bool)
        ensures
            r == (self@ == other@),
    {
        match (self, other) {
            (EgldOrEsdtToken::Egld, EgldOrEsdtToken::Egld) => true,
            (EgldOrEsdtToken::Esdt(a), EgldOrEsdtToken::Esdt(b)) => crate::store::bytes_equal(a, b),
            _ => false,
        }
    }
}

/// A payment received with a call: one token, its nonce and an amount.
#[derive(Debug, Clone, PartialEq, Eq)]
pub struct Payment {
    pub token: EgldOrEsdtToken,
    pub nonce: u64,
    pub amount: u128,
}

/// An ESDT transfer.
#[derive(Debug, Clone, PartialEq, Eq)]
pub struct EsdtTokenPayment {
    pub token_identifier: Vec<u8>,
    pub token_nonce: u64,
    pub amount: u128,
}

/// The price of one NFT of a collection.
#[derive(Debug, Clone, PartialEq, Eq)]
pub struct MintPrice {
    pub token_id: EgldOrEsdtToken,
    pub amount: u128,
}

/// `price * count` equals `amount`, computed without overflow.
pub fn is_exact_total(amount: u128, price: u128, count: u32) -> (r: bool)
    ensures
        r == (amount as int == price as int * count as int),
{
    match price.checked_mul(count as u128) {
        Some(total) => amount == total,
        None => false,
    }
}

} // verus!
