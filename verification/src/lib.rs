//! Client-side pipeline for managing compressed NFTs kept in Merkle-tree
//! accounts on a Solana-style ledger: it validates caller-supplied key
//! material, addresses and operation parameters, builds the protocol
//! instruction for one of four operations (create a tree config, mint,
//! transfer, burn), assembles and signs the transaction once a freshness
//! token has been fetched, and maps every outcome into a small stable
//! error vocabulary. The network calls themselves (fetching the freshness
//! token, submitting the signed transaction) are performed by the caller
//! between the steps this library exposes.

pub mod address;
pub mod error;
pub mod instruction;
pub mod keys;
pub mod ops;
