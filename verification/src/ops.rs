//! The four operations, each split around the two network calls the caller
//! performs: prepare (validate inputs and build the instruction), finalize
//! (assemble and sign once the freshness token has arrived, or classify the
//! fetch failure), resolve (classify the submission outcome), and the final
//! mapping to the caller's two-shape result.

use vstd::prelude::*;

use crate::address::Address;
use crate::address::fresh_address;
use crate::address::parse_address;
use crate::address::parsed_address;
use crate::error::BubblegumError;
use crate::error::error_text;
use crate::instruction::Instruction;
use crate::instruction::InstructionModel;
use crate::instruction::build_burn;
use crate::instruction::build_create_tree_config;
use crate::instruction::build_mint_compressed;
use crate::instruction::build_transfer_compressed;
use crate::instruction::burn_ix;
use crate::instruction::create_tree_ix;
use crate::instruction::empty_leaf;
use crate::instruction::instruction_fits;
use crate::instruction::metadata_fits;
use crate::instruction::mint_ix;
use crate::instruction::transfer_ix;
use crate::instruction::MAX_INSTRUCTION_ACCOUNTS;
use crate::instruction::MAX_INSTRUCTION_DATA_BYTES;
use crate::instruction::METADATA_BYTE_LIMIT;
use crate::keys::SigningIdentity;
use crate::keys::keypair_ok;
use crate::keys::parse_keypair;
use crate::keys::pubkey_half;
use solana_sdk::pubkey::Pubkey;
use solana_sdk::signature::Keypair;
use solana_sdk::transaction::Transaction;

verus! {

/// The external type this module hands back for submission: a ledger
/// transaction, opaque here.
#[verifier::external_type_specification]
#[verifier::external_body]
pub struct ExTransaction(solana_sdk::transaction::Transaction);

/// The transaction that wraps the given instruction with the keypair's public
/// key as fee payer, carries the given freshness token, and bears the
/// keypair's signature over the resulting message. Left uninterpreted; it is a
/// function of the arguments alone (message compilation is deterministic, and
/// so is the signature scheme's signing).
pub uninterp spec fn assembled_tx(
    ix: InstructionModel,
    keypair: Seq<u8>,
    blockhash: Seq<u8>,
) -> solana_sdk::transaction::Transaction;

/// The parameter set of the tree-creation operation. Both fields are required;
/// absence fails the operation with `MissingParameter`.
pub struct TreeParams {
    /// The tree's maximum depth.
    pub max_depth: Option<u32>,
    /// The tree's maximum buffer size.
    pub max_buffer_size: Option<u32>,
}

/// The metadata parameter set of the mint operation. `name` and `uri` are
/// required; `symbol` is optional and defaults to the empty string.
pub struct MetadataParams {
    /// The name of the asset.
    pub name: Option<String>,
    /// URI pointing to the asset's off-chain description.
    pub uri: Option<String>,
    /// The asset's symbol.
    pub symbol: Option<String>,
}

/// One fully validated operation, ready for the network steps: the instruction
/// to perform, the identity that pays and signs, and — for tree creation — the
/// freshly generated address of the tree itself.
pub struct PreparedOperation {
    /// The instruction the operation performs.
    pub instruction: Instruction,
    /// The identity that pays for and signs the transaction.
    pub identity: SigningIdentity,
    /// For tree creation, the fresh address of the created tree.
    pub tree_address: Option<Address>,
}

/// Validates the tree-creation parameter set: both fields must be present, and
/// each absence is reported by name, depth first.
pub fn validate_tree_params(p: &TreeParams) -> (r: Result<(u32, u32), BubblegumError>)
    ensures
        p.max_depth is None ==> (r matches Err(e) && e matches BubblegumError::MissingParameter(f)
            && f@ == "maxDepth"@),
        p.max_depth is Some && p.max_buffer_size is None ==> (r matches Err(e)
            && e matches BubblegumError::MissingParameter(f) && f@ == "maxBufferSize"@),
        p.max_depth matches Some(d) ==> (p.max_buffer_size matches Some(b) ==> (r matches Ok(v)
            && v == ((d, b)))),
{
    match p.max_depth {
        None => Err(BubblegumError::MissingParameter("maxDepth".to_owned())),
        Some(d) => match p.max_buffer_size {
            None => Err(BubblegumError::MissingParameter("maxBufferSize".to_owned())),
            Some(b) => Ok((d, b)),
        },
    }
}

/// The symbol a metadata parameter set denotes: the one given, or empty.
pub open spec fn symbol_or_default(m: MetadataParams) -> Seq<char> {
    match m.symbol {
        Some(s) => s@,
        None => ""@,
    }
}

/// Validates the mint metadata: `name` and `uri` must be present (each absence
/// reported by name, `name` first), an absent `symbol` defaults to the empty
/// string, and the three strings together must fit the instruction's data
/// field — a wire-format limit; beyond it the operation fails with
/// `InvalidMetadata`. Returns `(name, symbol, uri)`.
pub fn validate_metadata(m: &MetadataParams) -> (r: Result<(String, String, String), BubblegumError>)
    ensures
        m.name is None ==> (r matches Err(e) && e matches BubblegumError::MissingParameter(f)
            && f@ == "name"@),
        m.name is Some && m.uri is None ==> (r matches Err(e)
            && e matches BubblegumError::MissingParameter(f) && f@ == "uri"@),
        m.name matches Some(n) ==> (m.uri matches Some(u) ==> (!metadata_fits(n@,
            symbol_or_default(*m), u@) ==> (r matches Err(e)
            && e matches BubblegumError::InvalidMetadata(d) && d@
            == "metadata exceeds the size limit"@))),
        m.name matches Some(n) ==> (m.uri matches Some(u) ==> (metadata_fits(n@,
            symbol_or_default(*m), u@) ==> (r matches Ok(v) && v.0@ == n@ && v.1@
            == symbol_or_default(*m) && v.2@ == u@))),
{
    let name = match &m.name {
        None => {
            return Err(BubblegumError::MissingParameter("name".to_owned()));
        },
        Some(n) => n.clone(),
    };
    let uri = match &m.uri {
        None => {
            return Err(BubblegumError::MissingParameter("uri".to_owned()));
        },
        Some(u) => u.clone(),
    };
    let symbol = match &m.symbol {
        None => "".to_owned(),
        Some(s) => s.clone(),
    };
    let nl = name.as_str().as_bytes().len();
    let sl = symbol.as_str().as_bytes().len();
    let ul = uri.as_str().as_bytes().len();
    if nl > METADATA_BYTE_LIMIT || sl > METADATA_BYTE_LIMIT || ul > METADATA_BYTE_LIMIT || nl + sl
        + ul > METADATA_BYTE_LIMIT {
        return Err(BubblegumError::InvalidMetadata("metadata exceeds the size limit".to_owned()));
    }
    Ok((name, symbol, uri))
}

/// Prepares the tree-creation operation: parses the signing identity, requires
/// `maxDepth` and `maxBufferSize`, generates the new tree's address, and
/// builds the instruction establishing the tree, paid for by the identity.
/// The fresh tree address is carried in the result.
pub fn create_tree_config(params: &TreeParams, keypair: &Vec<u8>) -> (r: Result<
    PreparedOperation,
    BubblegumError,
>)
    ensures
        !keypair_ok(keypair@) ==> (r matches Err(e) && e == BubblegumError::InvalidKeypair),
        keypair_ok(keypair@) && params.max_depth is None ==> (r matches Err(e)
            && e matches BubblegumError::MissingParameter(f) && f@ == "maxDepth"@),
        keypair_ok(keypair@) && params.max_depth is Some && params.max_buffer_size is None ==> (
        r matches Err(e) && e matches BubblegumError::MissingParameter(f) && f@
            == "maxBufferSize"@),
        keypair_ok(keypair@) ==> (params.max_depth matches Some(d) ==> (params.max_buffer_size
            matches Some(b) ==> (r matches Ok(op) && op.tree_address matches Some(t)
            && (op.identity@ == keypair@) && op.instruction@ == create_tree_ix(d, b,
            pubkey_half(keypair@), t@) && instruction_fits(op.instruction@)))),
{
    let identity = match parse_keypair(keypair) {
        Ok(id) => id,
        Err(e) => {
            return Err(e);
        },
    };
    let (max_depth, max_buffer_size) = match validate_tree_params(params) {
        Ok(v) => v,
        Err(e) => {
            return Err(e);
        },
    };
    let merkle_tree = fresh_address();
    let payer = identity.public_address();
    let instruction = build_create_tree_config(max_depth, max_buffer_size, &payer, &merkle_tree);
    Ok(PreparedOperation { instruction, identity, tree_address: Some(merkle_tree) })
}

/// Prepares the mint operation: parses the signing identity and the tree's
/// address, requires `name` and `uri` (symbol defaults to empty), and builds
/// the instruction appending the leaf, owned and delegated to the payer.
pub fn mint_compressed_nft(tree_id: &str, metadata: &MetadataParams, keypair: &Vec<u8>) -> (r:
    Result<PreparedOperation, BubblegumError>)
    ensures
        !keypair_ok(keypair@) ==> (r matches Err(e) && e == BubblegumError::InvalidKeypair),
        keypair_ok(keypair@) && parsed_address(tree_id@) is None ==> (r matches Err(e)
            && e matches BubblegumError::InvalidPubkey(s) && s@ == tree_id@),
        keypair_ok(keypair@) && parsed_address(tree_id@) is Some && metadata.name is None ==> (
        r matches Err(e) && e matches BubblegumError::MissingParameter(f) && f@ == "name"@),
        keypair_ok(keypair@) && parsed_address(tree_id@) is Some && metadata.name is Some
            && metadata.uri is None ==> (r matches Err(e)
            && e matches BubblegumError::MissingParameter(f) && f@ == "uri"@),
        keypair_ok(keypair@) ==> (parsed_address(tree_id@) matches Some(t) ==> (metadata.name
            matches Some(n) ==> (metadata.uri matches Some(u) ==> (!metadata_fits(n@,
            symbol_or_default(*metadata), u@) ==> (r matches Err(e)
            && e matches BubblegumError::InvalidMetadata(d) && d@
            == "metadata exceeds the size limit"@))))),
        keypair_ok(keypair@) ==> (parsed_address(tree_id@) matches Some(t) ==> (metadata.name
            matches Some(n) ==> (metadata.uri matches Some(u) ==> (metadata_fits(n@,
            symbol_or_default(*metadata), u@) ==> (r matches Ok(op)
            && (op.identity@ == keypair@) && op.tree_address is None && op.instruction@ == mint_ix(
            t, pubkey_half(keypair@), n@, symbol_or_default(*metadata), u@, 0, false, true)
            && instruction_fits(op.instruction@)))))),
{
    let identity = match parse_keypair(keypair) {
        Ok(id) => id,
        Err(e) => {
            return Err(e);
        },
    };
    let tree = match parse_address(tree_id) {
        Ok(a) => a,
        Err(e) => {
            return Err(e);
        },
    };
    let (name, symbol, uri) = match validate_metadata(metadata) {
        Ok(v) => v,
        Err(e) => {
            return Err(e);
        },
    };
    let payer = identity.public_address();
    let instruction = build_mint_compressed(&tree, &payer, name.as_str(), symbol.as_str(),
        uri.as_str());
    Ok(PreparedOperation { instruction, identity, tree_address: None })
}

/// Prepares the transfer operation: parses the signing identity, the tree's
/// address and the recipient's address, and builds the instruction reassigning
/// the leaf from the identity (current owner, co-signer) to the recipient.
pub fn transfer_compressed_nft(tree_id: &str, recipient: &str, keypair: &Vec<u8>) -> (r: Result<
    PreparedOperation,
    BubblegumError,
>)
    ensures
        !keypair_ok(keypair@) ==> (r matches Err(e) && e == BubblegumError::InvalidKeypair),
        keypair_ok(keypair@) && parsed_address(tree_id@) is None ==> (r matches Err(e)
            && e matches BubblegumError::InvalidPubkey(s) && s@ == tree_id@),
        keypair_ok(keypair@) && parsed_address(tree_id@) is Some && parsed_address(recipient@)
            is None ==> (r matches Err(e) && e matches BubblegumError::InvalidPubkey(s) && s@
            == recipient@),
        keypair_ok(keypair@) ==> (parsed_address(tree_id@) matches Some(t) ==> (parsed_address(
            recipient@,
        ) matches Some(rec) ==> (r matches Ok(op) && (op.identity@ == keypair@) && op.tree_address
            is None && op.instruction@ == transfer_ix(t, pubkey_half(keypair@), rec, empty_leaf(),
            empty_leaf(), empty_leaf(), 0, 0) && instruction_fits(op.instruction@)))),
{
    let identity = match parse_keypair(keypair) {
        Ok(id) => id,
        Err(e) => {
            return Err(e);
        },
    };
    let tree = match parse_address(tree_id) {
        Ok(a) => a,
        Err(e) => {
            return Err(e);
        },
    };
    let to = match parse_address(recipient) {
        Ok(a) => a,
        Err(e) => {
            return Err(e);
        },
    };
    let owner = identity.public_address();
    let instruction = build_transfer_compressed(&tree, &owner, &to);
    Ok(PreparedOperation { instruction, identity, tree_address: None })
}

/// Prepares the burn operation: parses the signing identity and the tree's
/// address, and builds the instruction removing the leaf, co-signed by the
/// identity as current owner.
pub fn burn(tree_id: &str, keypair: &Vec<u8>) -> (r: Result<PreparedOperation, BubblegumError>)
    ensures
        !keypair_ok(keypair@) ==> (r matches Err(e) && e == BubblegumError::InvalidKeypair),
        keypair_ok(keypair@) && parsed_address(tree_id@) is None ==> (r matches Err(e)
            && e matches BubblegumError::InvalidPubkey(s) && s@ == tree_id@),
        keypair_ok(keypair@) ==> (parsed_address(tree_id@) matches Some(t) ==> (r matches Ok(op)
            && (op.identity@ == keypair@) && op.tree_address is None && op.instruction@ == burn_ix(
            t, pubkey_half(keypair@), empty_leaf(), empty_leaf(), empty_leaf(), 0, 0)
            && instruction_fits(op.instruction@))),
{
    let identity = match parse_keypair(keypair) {
        Ok(id) => id,
        Err(e) => {
            return Err(e);
        },
    };
    let tree = match parse_address(tree_id) {
        Ok(a) => a,
        Err(e) => {
            return Err(e);
        },
    };
    let owner = identity.public_address();
    let instruction = build_burn(&tree, &owner);
    Ok(PreparedOperation { instruction, identity, tree_address: None })
}

/// Relies on solana_sdk's `Transaction::new_with_payer` and
/// `Transaction::partial_sign`: wraps the instruction into a transaction
/// whose fee payer is the keypair's public key, records the freshness token,
/// and attaches the payer's signature. Because the fee payer is derived from
/// the very keypair that signs, it is always among the transaction's signer
/// keys, so `partial_sign` cannot fail (it only panics when a given signer is
/// not a signer key of the message); signatures the identity cannot provide
/// are left for the node to demand at submission. The result is a function of
/// the arguments alone: the message is compiled in a deterministic order and
/// the signature scheme signs deterministically. The instruction must fit the
/// wire format's length fields: signing serializes the message, whose data
/// length is a 16-bit count and whose account positions are 8-bit (the keys
/// are the instruction's accounts, the payer and the program id), and either
/// overflowing panics inside the ledger crate.
#[verifier::external_body]
fn assemble_and_sign(ix: &Instruction, keypair: &Vec<u8>, blockhash: &[u8; 32]) -> (r:
    solana_sdk::transaction::Transaction)
    requires
        keypair_ok(keypair@),
        instruction_fits(ix@),
    ensures
        r == assembled_tx(ix@, keypair@, blockhash@),
{
    let kp = Keypair::from_bytes(keypair.as_slice()).unwrap();
    let payer = solana_sdk::signer::Signer::pubkey(&kp);
    let accounts = ix.accounts.iter().map(|a| solana_sdk::instruction::AccountMeta {
        pubkey: Pubkey::new_from_array(a.pubkey), is_signer: a.is_signer, is_writable: a.is_writable,
    }).collect();
    let sol_ix = solana_sdk::instruction::Instruction {
        program_id: Pubkey::new_from_array(ix.program_id), accounts, data: ix.data.clone(),
    };
    let mut tx = Transaction::new_with_payer(&[sol_ix], Some(&payer));
    tx.partial_sign(&[&kp], solana_sdk::hash::Hash::new_from_array(*blockhash));
    tx
}

/// Takes the outcome of the freshness-token fetch. On a fetch failure the
/// operation ends here, classified `RpcError`, with nothing signed. On success
/// the result is exactly the operation's instruction wrapped into a
/// transaction paid by the identity, carrying the fetched token and the
/// identity's signature, handed back for submission. An instruction too large
/// for the wire format's length fields — which the four prepare operations
/// never produce — is rejected instead of signed.
pub fn finalize_transaction(op: &PreparedOperation, fetch: Result<[u8; 32], String>) -> (r: Result<
    solana_sdk::transaction::Transaction,
    BubblegumError,
>)
    ensures
        fetch is Err ==> (r matches Err(e) && e == BubblegumError::RpcError),
        fetch matches Ok(bh) ==> (instruction_fits(op.instruction@) ==> (r matches Ok(tx) && tx
            == assembled_tx(op.instruction@, op.identity@, bh@))),
        fetch is Ok && !instruction_fits(op.instruction@) ==> (r matches Err(e)
            && e matches BubblegumError::InvalidMetadata(d) && d@
            == "instruction exceeds the message size limit"@),
{
    match fetch {
        Err(_) => Err(BubblegumError::RpcError),
        Ok(blockhash) => {
            if op.instruction.data.len() <= MAX_INSTRUCTION_DATA_BYTES && op.instruction.accounts
                .len() <= MAX_INSTRUCTION_ACCOUNTS {
                Ok(assemble_and_sign(&op.instruction, op.identity.signing_bytes(), &blockhash))
            } else {
                Err(
                    BubblegumError::InvalidMetadata(
                        "instruction exceeds the message size limit".to_owned(),
                    ),
                )
            }
        },
    }
}

/// Takes the node's answer to the submission: a confirmed transaction
/// identifier is passed through, and a rejection becomes `TransactionError`
/// carrying the node's diagnostic text verbatim.
pub fn resolve_submission(submission: Result<String, String>) -> (r: Result<
    String,
    BubblegumError,
>)
    ensures
        submission matches Ok(sig) ==> (r matches Ok(s) && s@ == sig@),
        submission matches Err(d) ==> (r matches Err(e)
            && e matches BubblegumError::TransactionError(t) && t@ == d@),
{
    match submission {
        Ok(sig) => Ok(sig),
        Err(d) => Err(BubblegumError::TransactionError(d)),
    }
}

/// Maps an operation's outcome to the caller's two-shape result: `(true,
/// transaction identifier)` on success, `(false, diagnostic text)` on failure.
pub fn operation_outcome(r: Result<String, BubblegumError>) -> (out: (bool, String))
    ensures
        r matches Ok(sig) ==> (out.0 && out.1@ == sig@),
        r matches Err(e) ==> (!out.0 && out.1@ == error_text(e)),
{
    match r {
        Ok(sig) => (true, sig),
        Err(e) => (false, e.message()),
    }
}

} // verus!
