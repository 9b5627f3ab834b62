//! The error vocabulary every operation reports through, and the diagnostic
//! text each error carries across the caller's boundary.

use vstd::prelude::*;

verus! {

/// Everything that can go wrong in one operation, from malformed inputs to a
/// rejection by the remote node.
#[derive(Debug, Clone, PartialEq, Eq)]
pub enum BubblegumError {
    /// The signing material is not a structurally valid 64-byte keypair.
    InvalidKeypair,
    /// The given text is not a canonical address; carries the offending text.
    InvalidPubkey(String),
    /// A required field is absent from the parameter set; carries the field name.
    MissingParameter(String),
    /// Reserved for metadata-shape violations beyond missing fields.
    InvalidMetadata(String),
    /// The freshness token could not be fetched from the remote node.
    RpcError,
    /// The node rejected or failed to confirm the submitted transaction;
    /// carries the node's own diagnostic text verbatim.
    TransactionError(String),
}

/// The diagnostic text of an error: its tag, then any detail it carries.
pub open spec fn error_text(e: BubblegumError) -> Seq<char> {
    match e {
        BubblegumError::InvalidKeypair => "InvalidKeypair"@,
        BubblegumError::InvalidPubkey(s) => "InvalidPubkey: "@ + s@,
        BubblegumError::MissingParameter(f) => "MissingParameter: "@ + f@,
        BubblegumError::InvalidMetadata(m) => "InvalidMetadata: "@ + m@,
        BubblegumError::RpcError => "RpcError"@,
        BubblegumError::TransactionError(d) => "TransactionError: "@ + d@,
    }
}

/// Relies on `String::push_str` of std: appends the slice to the end of the string.
pub assume_specification[ String::push_str ](s: &mut String, string: &str)
    ensures
        final(s)@ == old(s)@ + string@,
;

impl BubblegumError {
    /// The human-readable diagnostic for this error.
    pub fn message(&self) -> (r: String)
        ensures
            r@ == error_text(*self),
    {
        match self {
            BubblegumError::InvalidKeypair => "InvalidKeypair".to_owned(),
            BubblegumError::InvalidPubkey(s) => {
                let mut m = "InvalidPubkey: ".to_owned();
                m.push_str(s.as_str());
                m
            },
            BubblegumError::MissingParameter(f) => {
                let mut m = "MissingParameter: ".to_owned();
                m.push_str(f.as_str());
                m
            },
            BubblegumError::InvalidMetadata(d) => {
                let mut m = "InvalidMetadata: ".to_owned();
                m.push_str(d.as_str());
                m
            },
            BubblegumError::RpcError => "RpcError".to_owned(),
            BubblegumError::TransactionError(d) => {
                let mut m = "TransactionError: ".to_owned();
                m.push_str(d.as_str());
                m
            },
        }
    }
}

} // verus!
