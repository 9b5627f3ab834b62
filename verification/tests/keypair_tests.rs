use bubblegum_client::error::BubblegumError;
use bubblegum_client::keys::parse_keypair;
use solana_sdk::signature::Keypair;
use solana_sdk::signer::Signer;

#[test]
fn rejects_empty_buffer() {
    let r = parse_keypair(&vec![]);
    assert_eq!(r.err(), Some(BubblegumError::InvalidKeypair));
}

#[test]
fn rejects_short_buffer() {
    let r = parse_keypair(&vec![7u8; 63]);
    assert_eq!(r.err(), Some(BubblegumError::InvalidKeypair));
}

#[test]
fn rejects_long_buffer() {
    let r = parse_keypair(&vec![7u8; 65]);
    assert_eq!(r.err(), Some(BubblegumError::InvalidKeypair));
}

#[test]
fn rejects_mismatched_halves() {
    // A 64-byte buffer whose public half does not belong to its secret half.
    let kp = Keypair::new();
    let mut bytes = kp.to_bytes().to_vec();
    bytes[40] ^= 0xff;
    let r = parse_keypair(&bytes);
    assert_eq!(r.err(), Some(BubblegumError::InvalidKeypair));
}

#[test]
fn accepts_valid_keypair_and_recovers_public_half() {
    let kp = Keypair::new();
    let bytes = kp.to_bytes().to_vec();
    let id = parse_keypair(&bytes).expect("valid keypair must parse");
    let addr = id.public_address();
    assert_eq!(addr.bytes, kp.pubkey().to_bytes());
    assert_eq!(&addr.bytes[..], &bytes[32..64]);
}

#[test]
fn parsing_is_deterministic() {
    let kp = Keypair::new();
    let bytes = kp.to_bytes().to_vec();
    let a = parse_keypair(&bytes).expect("valid keypair must parse");
    let b = parse_keypair(&bytes).expect("valid keypair must parse");
    assert_eq!(a.public_address().bytes, b.public_address().bytes);
}
