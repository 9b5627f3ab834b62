//! Key material: validating a raw 64-byte buffer into a signing identity.

use vstd::prelude::*;

use crate::address::Address;
use crate::error::BubblegumError;

verus! {

/// Whether a byte string is a structurally valid keypair encoding: what
/// `solana_sdk`'s `Keypair::from_bytes` accepts. Left uninterpreted; it is a
/// function of the bytes alone.
pub uninterp spec fn keypair_wf(b: Seq<u8>) -> bool;

/// A buffer is acceptable signing material: the scheme's required length and a
/// structurally valid encoding.
pub open spec fn keypair_ok(b: Seq<u8>) -> bool {
    b.len() == 64 && keypair_wf(b)
}

/// The public half of a keypair encoding: its last 32 bytes.
pub open spec fn pubkey_half(b: Seq<u8>) -> Seq<u8> {
    b.subrange(32, 64)
}

/// Relies on `solana_sdk`'s `Keypair::from_bytes` and `Signer::pubkey`: the
/// buffer decodes iff it is a 64-byte secret-then-public encoding whose public
/// half is the key derived from the secret half, and the public key recovered
/// is exactly the last 32 bytes of the buffer.
#[verifier::external_body]
fn keypair_public_bytes(bytes: &Vec<u8>) -> (r: Option<[u8; 32]>)
    ensures
        r is Some <==> keypair_wf(bytes@),
        r is Some ==> bytes@.len() == 64,
        r matches Some(p) ==> p@ == pubkey_half(bytes@),
{
    solana_sdk::signature::Keypair::from_bytes(bytes.as_slice())
        .ok()
        .map(|kp| solana_sdk::signer::Signer::pubkey(&kp).to_bytes())
}

/// An asymmetric keypair acting as payer and signer of one operation. It only
/// ever holds a buffer that decodes into a structurally valid keypair.
pub struct SigningIdentity {
    bytes: Vec<u8>,
    pubkey: [u8; 32],
}

impl View for SigningIdentity {
    type V = Seq<u8>;

    closed spec fn view(&self) -> Seq<u8> {
        self.bytes@
    }
}

impl SigningIdentity {
    /// The bytes held are acceptable signing material and the cached public
    /// key is their public half.
    #[verifier::type_invariant]
    spec fn wf(self) -> bool {
        keypair_ok(self.bytes@) && self.pubkey@ == pubkey_half(self.bytes@)
    }

    /// The identity's public address: the public half of its keypair.
    pub fn public_address(&self) -> (r: Address)
        ensures
            r@ == pubkey_half(self@),
    {
        proof {
            use_type_invariant(self);
        }
        Address { bytes: self.pubkey }
    }

    /// The raw keypair bytes, for signing.
    pub(crate) fn signing_bytes(&self) -> (r: &Vec<u8>)
        ensures
            r@ == self@,
            keypair_ok(self@),
    {
        proof {
            use_type_invariant(self);
        }
        &self.bytes
    }
}

/// Validates and deserializes a raw keypair buffer into a signing identity:
/// succeeds iff the buffer is exactly 64 bytes that decode into a structurally
/// valid keypair, and fails with `InvalidKeypair` otherwise.
pub fn parse_keypair(bytes: &Vec<u8>) -> (r: Result<SigningIdentity, BubblegumError>)
    ensures
        keypair_ok(bytes@) ==> (r matches Ok(id) && id@ == bytes@),
        !keypair_ok(bytes@) ==> (r matches Err(e) && e == BubblegumError::InvalidKeypair),
{
    if bytes.len() != 64 {
        return Err(BubblegumError::InvalidKeypair);
    }
    match keypair_public_bytes(bytes) {
        Some(pk) => Ok(SigningIdentity { bytes: bytes.clone(), pubkey: pk }),
        None => Err(BubblegumError::InvalidKeypair),
    }
}

} // verus!
