//! Protocol instructions for the four supported operations. The byte layout
//! of each instruction is the protocol client's own business: this module
//! calls its builders and records the result, and states that each builder is
//! a pure function of its inputs.

use vstd::prelude::*;

use crate::address::Address;
use mpl_bubblegum::accounts::TreeConfig;
use mpl_bubblegum::instructions::BurnBuilder;
use mpl_bubblegum::instructions::CreateTreeConfigBuilder;
use mpl_bubblegum::instructions::MintV1Builder;
use mpl_bubblegum::instructions::TransferBuilder;
use mpl_bubblegum::types::MetadataArgs;
use mpl_bubblegum::types::TokenProgramVersion;
use solana_sdk::pubkey::Pubkey;
use vstd::utf8::encode_utf8;

verus! {

/// The transaction wire format length-prefixes an instruction's data with a
/// 16-bit count, so the data may hold at most this many bytes; beyond it,
/// serializing the message panics inside the ledger crate.
pub const MAX_INSTRUCTION_DATA_BYTES: usize = 65535;

/// A compiled message indexes its account keys with an 8-bit position and
/// holds the instruction's accounts together with the payer and the program
/// id, so an instruction may name at most this many accounts.
pub const MAX_INSTRUCTION_ACCOUNTS: usize = 253;

/// The three metadata strings of a mint may together hold at most this many
/// UTF-8 bytes: the mint instruction's data is 33 bytes besides them, and the
/// whole data field is capped by `MAX_INSTRUCTION_DATA_BYTES`.
pub const METADATA_BYTE_LIMIT: usize = 65502;

/// One account an instruction touches, with its access flags.
#[derive(Debug, Clone, Copy, PartialEq, Eq)]
pub struct AccountMeta {
    /// The 32 raw bytes of the account's address.
    pub pubkey: [u8; 32],
    /// Whether the account must sign the transaction.
    pub is_signer: bool,
    /// Whether the instruction may modify the account.
    pub is_writable: bool,
}

/// An immutable description of one protocol action: target program, involved
/// accounts, encoded arguments. Built once, consumed once.
#[derive(Debug, Clone)]
pub struct Instruction {
    /// The address of the program that executes the action.
    pub program_id: [u8; 32],
    /// The accounts the action touches, in protocol order.
    pub accounts: Vec<AccountMeta>,
    /// The action's encoded arguments.
    pub data: Vec<u8>,
}

/// The mathematical shape of an instruction.
pub struct InstructionModel {
    /// The program address, as a byte sequence.
    pub program_id: Seq<u8>,
    /// The accounts touched, in order.
    pub accounts: Seq<AccountMeta>,
    /// The encoded arguments, as a byte sequence.
    pub data: Seq<u8>,
}

impl View for Instruction {
    type V = InstructionModel;

    open spec fn view(&self) -> InstructionModel {
        InstructionModel { program_id: self.program_id@, accounts: self.accounts@, data: self.data@ }
    }
}

/// The combined UTF-8 byte length of the three metadata strings of a mint.
pub open spec fn metadata_byte_len(name: Seq<char>, symbol: Seq<char>, uri: Seq<char>) -> nat {
    encode_utf8(name).len() + encode_utf8(symbol).len() + encode_utf8(uri).len()
}

/// Whether the three metadata strings fit the mint instruction's data field.
pub open spec fn metadata_fits(name: Seq<char>, symbol: Seq<char>, uri: Seq<char>) -> bool {
    metadata_byte_len(name, symbol, uri) <= METADATA_BYTE_LIMIT as int
}

/// Whether an instruction fits the length fields of the transaction wire
/// format, so that a message holding it can be serialized and signed.
pub open spec fn instruction_fits(m: InstructionModel) -> bool {
    m.data.len() <= MAX_INSTRUCTION_DATA_BYTES as int && m.accounts.len()
        <= MAX_INSTRUCTION_ACCOUNTS as int
}

/// The instruction that establishes a new Merkle-tree account sized by the two
/// limits, created and paid for by `payer`. Left uninterpreted; it is a
/// function of the arguments alone.
pub uninterp spec fn create_tree_ix(
    max_depth: u32,
    max_buffer_size: u32,
    payer: Seq<u8>,
    merkle_tree: Seq<u8>,
) -> InstructionModel;

/// The instruction that appends one leaf with the given metadata to the tree,
/// with `payer` as leaf owner, leaf delegate, payer and tree creator. Left
/// uninterpreted; it is a function of the arguments alone.
pub uninterp spec fn mint_ix(
    merkle_tree: Seq<u8>,
    payer: Seq<u8>,
    name: Seq<char>,
    symbol: Seq<char>,
    uri: Seq<char>,
    seller_fee_basis_points: u16,
    primary_sale_happened: bool,
    is_mutable: bool,
) -> InstructionModel;

/// The instruction that reassigns a leaf of the tree from `leaf_owner` (who is
/// also its delegate and co-signs) to `new_leaf_owner`, for a leaf in the given
/// recorded state. Left uninterpreted; it is a function of the arguments alone.
pub uninterp spec fn transfer_ix(
    merkle_tree: Seq<u8>,
    leaf_owner: Seq<u8>,
    new_leaf_owner: Seq<u8>,
    root: Seq<u8>,
    data_hash: Seq<u8>,
    creator_hash: Seq<u8>,
    nonce: u64,
    index: u32,
) -> InstructionModel;

/// The instruction that permanently removes a leaf of the tree, co-signed by
/// `leaf_owner` (who is also its delegate), for a leaf in the given recorded
/// state. Left uninterpreted; it is a function of the arguments alone.
pub uninterp spec fn burn_ix(
    merkle_tree: Seq<u8>,
    leaf_owner: Seq<u8>,
    root: Seq<u8>,
    data_hash: Seq<u8>,
    creator_hash: Seq<u8>,
    nonce: u64,
    index: u32,
) -> InstructionModel;

/// Relies on mpl_bubblegum's `CreateTreeConfigBuilder`: assembles the
/// tree-creation instruction from the two size limits, the payer (who is also
/// the tree creator) and the fresh merkle-tree address; the tree-config
/// account is the program-derived address of the merkle tree. The result is a
/// function of the arguments alone: 7 accounts, and 17 data bytes (an 8-byte
/// discriminator, the two 32-bit limits, one byte for the absent visibility
/// flag).
#[verifier::external_body]
fn create_tree_config_instruction(
    max_depth: u32,
    max_buffer_size: u32,
    payer: &[u8; 32],
    merkle_tree: &[u8; 32],
) -> (r: Instruction)
    ensures
        r@ == create_tree_ix(max_depth, max_buffer_size, payer@, merkle_tree@),
        r@.accounts.len() == 7,
        r@.data.len() == 17,
{
    let tree = Pubkey::new_from_array(*merkle_tree);
    let p = Pubkey::new_from_array(*payer);
    let ix = CreateTreeConfigBuilder::new().tree_config(TreeConfig::find_pda(&tree).0)
        .merkle_tree(tree).payer(p).tree_creator(p)
        .max_depth(max_depth).max_buffer_size(max_buffer_size).instruction();
    Instruction { program_id: ix.program_id.to_bytes(), data: ix.data, accounts: ix.accounts
        .into_iter().map(|a| AccountMeta { pubkey: a.pubkey.to_bytes(), is_signer: a.is_signer,
        is_writable: a.is_writable }).collect() }
}

/// Relies on mpl_bubblegum's `MintV1Builder`: assembles the leaf-minting
/// instruction from the tree, the payer (set as leaf owner, leaf delegate,
/// payer and tree creator), the textual metadata and the metadata flags; the
/// tree-config account is the program-derived address of the merkle tree, and
/// the metadata carries no edition nonce, token standard, collection, uses or
/// creators. The result is a function of the arguments alone: 9 accounts, and
/// data of the 8-byte discriminator plus the serialized metadata, which
/// length-prefixes each string with a 32-bit count before its UTF-8 bytes and
/// takes 25 bytes for its fixed fields; the byte bound below keeps those
/// counts, and the enclosing message's 16-bit one, within range.
#[verifier::external_body]
fn mint_instruction(
    merkle_tree: &[u8; 32],
    payer: &[u8; 32],
    name: String,
    symbol: String,
    uri: String,
    seller_fee_basis_points: u16,
    primary_sale_happened: bool,
    is_mutable: bool,
) -> (r: Instruction)
    requires
        metadata_fits(name@, symbol@, uri@),
    ensures
        r@ == mint_ix(merkle_tree@, payer@, name@, symbol@, uri@, seller_fee_basis_points,
            primary_sale_happened, is_mutable),
        r@.accounts.len() == 9,
        r@.data.len() == 33 + metadata_byte_len(name@, symbol@, uri@),
{
    let tree = Pubkey::new_from_array(*merkle_tree);
    let p = Pubkey::new_from_array(*payer);
    let metadata = MetadataArgs {
        name, symbol, uri, seller_fee_basis_points, primary_sale_happened, is_mutable,
        edition_nonce: None, token_standard: None, collection: None, uses: None,
        token_program_version: TokenProgramVersion::Original, creators: vec![],
    };
    let ix = MintV1Builder::new().tree_config(TreeConfig::find_pda(&tree).0).merkle_tree(tree)
        .leaf_owner(p).leaf_delegate(p).payer(p).tree_creator_or_delegate(p)
        .metadata(metadata).instruction();
    Instruction { program_id: ix.program_id.to_bytes(), data: ix.data, accounts: ix.accounts
        .into_iter().map(|a| AccountMeta { pubkey: a.pubkey.to_bytes(), is_signer: a.is_signer,
        is_writable: a.is_writable }).collect() }
}

/// Relies on mpl_bubblegum's `TransferBuilder`: assembles the leaf-transfer
/// instruction from the tree, the current owner (set as leaf owner and leaf
/// delegate, co-signing), the recipient, and the leaf's recorded state; the
/// tree-config account is the program-derived address of the merkle tree. The
/// result is a function of the arguments alone: 8 accounts, and 116 data
/// bytes (an 8-byte discriminator, the three 32-byte state hashes, the 64-bit
/// nonce and the 32-bit index).
#[verifier::external_body]
fn transfer_instruction(
    merkle_tree: &[u8; 32],
    leaf_owner: &[u8; 32],
    new_leaf_owner: &[u8; 32],
    root: &[u8; 32],
    data_hash: &[u8; 32],
    creator_hash: &[u8; 32],
    nonce: u64,
    index: u32,
) -> (r: Instruction)
    ensures
        r@ == transfer_ix(merkle_tree@, leaf_owner@, new_leaf_owner@, root@, data_hash@,
            creator_hash@, nonce, index),
        r@.accounts.len() == 8,
        r@.data.len() == 116,
{
    let tree = Pubkey::new_from_array(*merkle_tree);
    let owner = Pubkey::new_from_array(*leaf_owner);
    let ix = TransferBuilder::new().tree_config(TreeConfig::find_pda(&tree).0).merkle_tree(tree)
        .leaf_owner(owner, true).leaf_delegate(owner, false)
        .new_leaf_owner(Pubkey::new_from_array(*new_leaf_owner))
        .root(*root).data_hash(*data_hash).creator_hash(*creator_hash)
        .nonce(nonce).index(index).instruction();
    Instruction { program_id: ix.program_id.to_bytes(), data: ix.data, accounts: ix.accounts
        .into_iter().map(|a| AccountMeta { pubkey: a.pubkey.to_bytes(), is_signer: a.is_signer,
        is_writable: a.is_writable }).collect() }
}

/// Relies on mpl_bubblegum's `BurnBuilder`: assembles the leaf-burning
/// instruction from the tree, the current owner (set as leaf owner and leaf
/// delegate, co-signing) and the leaf's recorded state; the tree-config
/// account is the program-derived address of the merkle tree. The result is a
/// function of the arguments alone: 7 accounts, and 116 data bytes (an 8-byte
/// discriminator, the three 32-byte state hashes, the 64-bit nonce and the
/// 32-bit index).
#[verifier::external_body]
fn burn_instruction(
    merkle_tree: &[u8; 32],
    leaf_owner: &[u8; 32],
    root: &[u8; 32],
    data_hash: &[u8; 32],
    creator_hash: &[u8; 32],
    nonce: u64,
    index: u32,
) -> (r: Instruction)
    ensures
        r@ == burn_ix(merkle_tree@, leaf_owner@, root@, data_hash@, creator_hash@, nonce, index),
        r@.accounts.len() == 7,
        r@.data.len() == 116,
{
    let tree = Pubkey::new_from_array(*merkle_tree);
    let owner = Pubkey::new_from_array(*leaf_owner);
    let ix = BurnBuilder::new().tree_config(TreeConfig::find_pda(&tree).0).merkle_tree(tree)
        .leaf_owner(owner, true).leaf_delegate(owner, false)
        .root(*root).data_hash(*data_hash).creator_hash(*creator_hash)
        .nonce(nonce).index(index).instruction();
    Instruction { program_id: ix.program_id.to_bytes(), data: ix.data, accounts: ix.accounts
        .into_iter().map(|a| AccountMeta { pubkey: a.pubkey.to_bytes(), is_signer: a.is_signer,
        is_writable: a.is_writable }).collect() }
}

/// The recorded state this library reports for a leaf it has no indexer data
/// for: an all-zero root and hashes, the first nonce and index.
pub open spec fn empty_leaf() -> Seq<u8> {
    Seq::new(32, |i: int| 0u8)
}

/// Builds the instruction establishing a new Merkle-tree account sized by
/// `max_depth` and `max_buffer_size`, created and paid for by `payer`, at the
/// fresh address `merkle_tree`.
pub fn build_create_tree_config(
    max_depth: u32,
    max_buffer_size: u32,
    payer: &Address,
    merkle_tree: &Address,
) -> (r: Instruction)
    ensures
        r@ == create_tree_ix(max_depth, max_buffer_size, payer@, merkle_tree@),
        instruction_fits(r@),
{
    create_tree_config_instruction(max_depth, max_buffer_size, &payer.bytes, &merkle_tree.bytes)
}

/// Builds the instruction appending a leaf with the given metadata to the
/// tree. The payer is both leaf owner and leaf delegate, and the fixed
/// metadata defaults apply: zero royalty basis points, sale not happened,
/// mutable. The metadata must fit the instruction's data field, a wire-format
/// limit.
pub fn build_mint_compressed(
    merkle_tree: &Address,
    payer: &Address,
    name: &str,
    symbol: &str,
    uri: &str,
) -> (r: Instruction)
    requires
        metadata_fits(name@, symbol@, uri@),
    ensures
        r@ == mint_ix(merkle_tree@, payer@, name@, symbol@, uri@, 0, false, true),
        instruction_fits(r@),
{
    mint_instruction(&merkle_tree.bytes, &payer.bytes, name.to_owned(), symbol.to_owned(),
        uri.to_owned(), 0, false, true)
}

/// Builds the instruction reassigning a leaf of the tree from `owner` (who
/// co-signs) to `recipient`, for a leaf in the empty recorded state.
pub fn build_transfer_compressed(
    merkle_tree: &Address,
    owner: &Address,
    recipient: &Address,
) -> (r: Instruction)
    ensures
        r@ == transfer_ix(merkle_tree@, owner@, recipient@, empty_leaf(), empty_leaf(),
            empty_leaf(), 0, 0),
        instruction_fits(r@),
{
    let zeros: [u8; 32] = [0; 32];
    proof {
        assert(zeros@ =~= empty_leaf());
    }
    transfer_instruction(&merkle_tree.bytes, &owner.bytes, &recipient.bytes, &zeros, &zeros,
        &zeros, 0, 0)
}

/// Builds the instruction permanently removing a leaf of the tree, co-signed
/// by `owner`, for a leaf in the empty recorded state.
pub fn build_burn(merkle_tree: &Address, owner: &Address) -> (r: Instruction)
    ensures
        r@ == burn_ix(merkle_tree@, owner@, empty_leaf(), empty_leaf(), empty_leaf(), 0, 0),
        instruction_fits(r@),
{
    let zeros: [u8; 32] = [0; 32];
    proof {
        assert(zeros@ =~= empty_leaf());
    }
    burn_instruction(&merkle_tree.bytes, &owner.bytes, &zeros, &zeros, &zeros, 0, 0)
}

/// Law: instruction building is deterministic and side-effect-free — two mint
/// instructions built from identical inputs are identical.
pub proof fn lemma_mint_deterministic(
    a: InstructionModel,
    b: InstructionModel,
    merkle_tree: Seq<u8>,
    payer: Seq<u8>,
    name: Seq<char>,
    symbol: Seq<char>,
    uri: Seq<char>,
    seller_fee_basis_points: u16,
    primary_sale_happened: bool,
    is_mutable: bool,
)
    requires
        a == mint_ix(merkle_tree, payer, name, symbol, uri, seller_fee_basis_points,
            primary_sale_happened, is_mutable),
        b == mint_ix(merkle_tree, payer, name, symbol, uri, seller_fee_basis_points,
            primary_sale_happened, is_mutable),
    ensures
        a == b,
{
}

} // verus!
