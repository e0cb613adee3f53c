use nft_collection::store::bytes_equal;
use nft_collection::token::{is_exact_total, is_valid_esdt_identifier, EgldOrEsdtToken};

fn b(s: &str) -> Vec<u8> {
    s.as_bytes().to_vec()
}

#[test]
fn esdt_identifiers() {
    assert!(is_valid_esdt_identifier(&b("ABC-123abc")));
    assert!(is_valid_esdt_identifier(&b("ABCDEFGHIJ-abcdef")));
    assert!(is_valid_esdt_identifier(&b("USDC-c76f1f")));
    assert!(is_valid_esdt_identifier(&b("W3GLD-0a1b2c")));
    assert!(!is_valid_esdt_identifier(&b("AB-123abc")));
    assert!(!is_valid_esdt_identifier(&b("ABCDEFGHIJK-abcdef")));
    assert!(!is_valid_esdt_identifier(&b("abc-123abc")));
    assert!(!is_valid_esdt_identifier(&b("ABC_123abc")));
    assert!(!is_valid_esdt_identifier(&b("ABC-123ABC")));
    assert!(!is_valid_esdt_identifier(&b("ABC-123ab")));
    assert!(!is_valid_esdt_identifier(&b("")));
}

#[test]
fn egld_is_always_valid() {
    assert!(EgldOrEsdtToken::Egld.is_valid());
    assert!(!EgldOrEsdtToken::Esdt(b("EGLD")).is_valid());
    assert!(EgldOrEsdtToken::Esdt(b("USDC-c76f1f")).is_valid());
}

#[test]
fn same_token() {
    let usdc = EgldOrEsdtToken::Esdt(b("USDC-c76f1f"));
    assert!(usdc.same_token(&EgldOrEsdtToken::Esdt(b("USDC-c76f1f"))));
    assert!(!usdc.same_token(&EgldOrEsdtToken::Esdt(b("USDC-c76f1e"))));
    assert!(!usdc.same_token(&EgldOrEsdtToken::Egld));
    assert!(EgldOrEsdtToken::Egld.same_token(&EgldOrEsdtToken::Egld));
}

#[test]
fn exact_totals() {
    assert!(is_exact_total(3_000, 1_000, 3));
    assert!(!is_exact_total(2_999, 1_000, 3));
    assert!(is_exact_total(0, 1_000, 0));
    assert!(!is_exact_total(u128::MAX, u128::MAX, 2));
    assert!(is_exact_total(u128::MAX, u128::MAX, 1));
}

#[test]
fn byte_strings() {
    assert!(bytes_equal(&b("abc"), &b("abc")));
    assert!(!bytes_equal(&b("abc"), &b("abd")));
    assert!(!bytes_equal(&b("abc"), &b("ab")));
}
