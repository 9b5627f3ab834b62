use bubblegum_client::address::{address_round_trip, encode_address, parse_address, Address};
use bubblegum_client::error::BubblegumError;
use solana_sdk::pubkey::Pubkey;

#[test]
fn rejects_non_base58_text() {
    let r = parse_address("not-an-address!!");
    assert_eq!(
        r.err(),
        Some(BubblegumError::InvalidPubkey("not-an-address!!".to_string()))
    );
}

#[test]
fn rejects_empty_text() {
    let r = parse_address("");
    assert_eq!(r.err(), Some(BubblegumError::InvalidPubkey(String::new())));
}

#[test]
fn rejects_wrong_length_base58() {
    // Valid base-58, but decodes to fewer than 32 bytes.
    let r = parse_address("abc");
    assert_eq!(r.err(), Some(BubblegumError::InvalidPubkey("abc".to_string())));
}

#[test]
fn parses_canonical_address() {
    let pk = Pubkey::new_unique();
    let a = parse_address(&pk.to_string()).expect("canonical address must parse");
    assert_eq!(a.bytes, pk.to_bytes());
}

#[test]
fn encoding_then_parsing_returns_identical_address() {
    let pk = Pubkey::new_unique();
    let a = Address { bytes: pk.to_bytes() };
    let text = encode_address(&a);
    assert_eq!(text, pk.to_string());
    let b = parse_address(&text).expect("encoded address must parse");
    assert_eq!(b.bytes, a.bytes);
    let c = address_round_trip(&a);
    assert_eq!(c.bytes, a.bytes);
}
