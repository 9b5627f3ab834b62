//! Canonical on-chain addresses and their textual (base-58) form.

use vstd::prelude::*;

use crate::error::BubblegumError;

verus! {

/// What `Pubkey::from_str` makes of a piece of text: the 32 bytes it decodes
/// to, or nothing when the text is not a canonical address. Left
/// uninterpreted; it is a function of the text alone.
pub uninterp spec fn parsed_address(s: Seq<char>) -> Option<Seq<u8>>;

/// The canonical textual form of 32 address bytes, as `Pubkey`'s base-58
/// rendering produces it. Left uninterpreted; it is a function of the bytes
/// alone.
pub uninterp spec fn address_text(b: Seq<u8>) -> Seq<char>;

/// A canonical fixed-length identifier for an on-chain account.
#[derive(Debug, Clone, Copy)]
pub struct Address {
    /// The 32 raw bytes of the address.
    pub bytes: [u8; 32],
}

impl View for Address {
    type V = Seq<u8>;

    open spec fn view(&self) -> Seq<u8> {
        self.bytes@
    }
}

/// Relies on `solana_program`'s `Pubkey::from_str`: the text decodes iff it is
/// base-58 text of exactly 32 bytes, and the bytes recovered are those the
/// text encodes.
#[verifier::external_body]
fn pubkey_from_str(s: &str) -> (r: Option<[u8; 32]>)
    ensures
        r matches Some(b) ==> parsed_address(s@) == Some(b@),
        r is None ==> parsed_address(s@) is None,
{
    <solana_sdk::pubkey::Pubkey as core::str::FromStr>::from_str(s)
        .ok()
        .map(|p| p.to_bytes())
}

/// Relies on `Pubkey`'s `Display` rendering (base-58 of the 32 bytes), and on
/// `Pubkey::from_str` decoding that rendering back to the same 32 bytes.
#[verifier::external_body]
fn pubkey_to_text(b: &[u8; 32]) -> (r: String)
    ensures
        r@ == address_text(b@),
        parsed_address(r@) == Some(b@),
{
    solana_sdk::pubkey::Pubkey::new_from_array(*b).to_string()
}

/// Relies on `Pubkey::new_unique`: yields a distinct 32-byte address on each
/// call; nothing more is promised of its value.
#[verifier::external_body]
pub(crate) fn fresh_address() -> (r: Address)
{
    Address { bytes: solana_sdk::pubkey::Pubkey::new_unique().to_bytes() }
}

/// Validates and deserializes a textual address: succeeds iff the text decodes
/// under the ledger's base-encoding and length rules, and fails with
/// `InvalidPubkey` carrying the offending text otherwise.
pub fn parse_address(text: &str) -> (r: Result<Address, BubblegumError>)
    ensures
        parsed_address(text@) matches Some(b) ==> (r matches Ok(a) && a@ == b),
        parsed_address(text@) is None ==> (r matches Err(e) && e matches BubblegumError::InvalidPubkey(s)
            && s@ == text@),
{
    match pubkey_from_str(text) {
        Some(b) => Ok(Address { bytes: b }),
        None => Err(BubblegumError::InvalidPubkey(text.to_owned())),
    }
}

/// The canonical textual form of an address; parsing that text returns the
/// identical address.
pub fn encode_address(a: &Address) -> (r: String)
    ensures
        r@ == address_text(a@),
        parsed_address(r@) == Some(a@),
{
    pubkey_to_text(&a.bytes)
}

/// Law: encoding a valid address and then parsing the text returns the
/// identical address.
pub fn address_round_trip(a: &Address) -> (r: Address)
    ensures
        r@ == a@,
{
    let text = encode_address(a);
    match parse_address(text.as_str()) {
        Ok(b) => b,
        Err(_) => {
            proof {
                assert(false);
            }
            Address { bytes: a.bytes }
        },
    }
}

} // verus!
