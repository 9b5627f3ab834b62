use bubblegum_client::error::BubblegumError;
use bubblegum_client::ops::{
    burn, create_tree_config, finalize_transaction, mint_compressed_nft, operation_outcome,
    resolve_submission, transfer_compressed_nft, MetadataParams, TreeParams,
};
use solana_sdk::pubkey::Pubkey;
use solana_sdk::signature::{Keypair, Signature};
use solana_sdk::signer::Signer;

fn valid_keypair_bytes() -> Vec<u8> {
    Keypair::new().to_bytes().to_vec()
}

#[test]
fn missing_max_depth_fails_before_any_network_use() {
    let params = TreeParams { max_depth: None, max_buffer_size: Some(64) };
    let r = create_tree_config(&params, &valid_keypair_bytes());
    // No operation was prepared, so a driver never reaches the freshness
    // fetch: the mock endpoint sees zero requests.
    match r {
        Err(BubblegumError::MissingParameter(f)) => assert_eq!(f, "maxDepth"),
        other => panic!("expected MissingParameter, got {:?}", other.map(|_| ())),
    }
}

#[test]
fn missing_max_buffer_size_is_named() {
    let params = TreeParams { max_depth: Some(14), max_buffer_size: None };
    let r = create_tree_config(&params, &valid_keypair_bytes());
    match r {
        Err(BubblegumError::MissingParameter(f)) => assert_eq!(f, "maxBufferSize"),
        other => panic!("expected MissingParameter, got {:?}", other.map(|_| ())),
    }
}

#[test]
fn missing_uri_is_named() {
    let tree = Pubkey::new_unique().to_string();
    let metadata = MetadataParams {
        name: Some("Asset".to_string()),
        uri: None,
        symbol: Some("SYM".to_string()),
    };
    let r = mint_compressed_nft(&tree, &metadata, &valid_keypair_bytes());
    match r {
        Err(BubblegumError::MissingParameter(f)) => assert_eq!(f, "uri"),
        other => panic!("expected MissingParameter, got {:?}", other.map(|_| ())),
    }
}

#[test]
fn missing_name_is_named() {
    let tree = Pubkey::new_unique().to_string();
    let metadata = MetadataParams {
        name: None,
        uri: Some("https://example.com/a.json".to_string()),
        symbol: None,
    };
    let r = mint_compressed_nft(&tree, &metadata, &valid_keypair_bytes());
    match r {
        Err(BubblegumError::MissingParameter(f)) => assert_eq!(f, "name"),
        other => panic!("expected MissingParameter, got {:?}", other.map(|_| ())),
    }
}

#[test]
fn absent_symbol_defaults_to_empty_string() {
    let keypair = valid_keypair_bytes();
    let tree = Pubkey::new_unique().to_string();
    let without_symbol = MetadataParams {
        name: Some("Asset".to_string()),
        uri: Some("https://example.com/a.json".to_string()),
        symbol: None,
    };
    let with_empty_symbol = MetadataParams {
        name: Some("Asset".to_string()),
        uri: Some("https://example.com/a.json".to_string()),
        symbol: Some(String::new()),
    };
    let a = mint_compressed_nft(&tree, &without_symbol, &keypair).expect("must proceed");
    let b = mint_compressed_nft(&tree, &with_empty_symbol, &keypair).expect("must proceed");
    assert_eq!(a.instruction.data, b.instruction.data);
    assert_eq!(a.instruction.accounts, b.instruction.accounts);
}

#[test]
fn oversized_metadata_is_rejected_before_any_network_use() {
    let tree = Pubkey::new_unique().to_string();
    let metadata = MetadataParams {
        name: Some("Asset".to_string()),
        uri: Some("x".repeat(70_000)),
        symbol: None,
    };
    let r = mint_compressed_nft(&tree, &metadata, &valid_keypair_bytes());
    assert_eq!(
        r.err().map(|e| e.message()),
        Some("InvalidMetadata: metadata exceeds the size limit".to_string())
    );
}

#[test]
fn metadata_limit_counts_bytes_not_characters() {
    // 40,000 two-byte characters: few enough characters, too many bytes.
    let tree = Pubkey::new_unique().to_string();
    let metadata = MetadataParams {
        name: Some("Asset".to_string()),
        uri: Some("\u{00e9}".repeat(40_000)),
        symbol: None,
    };
    let r = mint_compressed_nft(&tree, &metadata, &valid_keypair_bytes());
    assert_eq!(
        r.err().map(|e| e.message()),
        Some("InvalidMetadata: metadata exceeds the size limit".to_string())
    );
}

#[test]
fn large_but_fitting_metadata_signs_end_to_end() {
    let kp = Keypair::new();
    let tree = Pubkey::new_unique().to_string();
    let uri = "u".repeat(60_000);
    let metadata = MetadataParams {
        name: Some("Asset".to_string()),
        uri: Some(uri.clone()),
        symbol: None,
    };
    let op = mint_compressed_nft(&tree, &metadata, &kp.to_bytes().to_vec()).expect("must prepare");
    // Discriminator, three 4-byte string length prefixes, 13 fixed metadata
    // bytes, and the strings themselves.
    assert_eq!(op.instruction.data.len(), 33 + "Asset".len() + uri.len());
    let tx = finalize_transaction(&op, Ok([3u8; 32])).expect("must sign");
    assert_ne!(tx.signatures[0], Signature::default());
}

#[test]
fn invalid_tree_address_is_reported_with_text() {
    let metadata = MetadataParams {
        name: Some("Asset".to_string()),
        uri: Some("https://example.com/a.json".to_string()),
        symbol: None,
    };
    let r = mint_compressed_nft("??", &metadata, &valid_keypair_bytes());
    match r {
        Err(BubblegumError::InvalidPubkey(s)) => assert_eq!(s, "??"),
        other => panic!("expected InvalidPubkey, got {:?}", other.map(|_| ())),
    }
}

#[test]
fn invalid_recipient_is_reported_with_text() {
    let tree = Pubkey::new_unique().to_string();
    let r = transfer_compressed_nft(&tree, "bogus recipient", &valid_keypair_bytes());
    match r {
        Err(BubblegumError::InvalidPubkey(s)) => assert_eq!(s, "bogus recipient"),
        other => panic!("expected InvalidPubkey, got {:?}", other.map(|_| ())),
    }
}

#[test]
fn burn_rejects_bad_keypair_first() {
    let tree = Pubkey::new_unique().to_string();
    let r = burn(&tree, &vec![1u8; 10]);
    assert_eq!(r.err().map(|e| e.message()), Some("InvalidKeypair".to_string()));
}

#[test]
fn end_to_end_create_tree_succeeds_with_mock_node() {
    let kp = Keypair::new();
    let params = TreeParams { max_depth: Some(14), max_buffer_size: Some(64) };
    let op = create_tree_config(&params, &kp.to_bytes().to_vec()).expect("must prepare");
    // One CreateTreeConfig instruction referencing the payer's address.
    assert!(op
        .instruction
        .accounts
        .iter()
        .any(|a| a.pubkey == kp.pubkey().to_bytes() && a.is_signer));
    // The fresh tree's address is reported back.
    let tree = op.tree_address.expect("tree address must be returned");
    assert!(op.instruction.accounts.iter().any(|a| a.pubkey == tree.bytes));
    // The mock node hands out a freshness token; the transaction is signed.
    let mock_blockhash = [7u8; 32];
    let tx = finalize_transaction(&op, Ok(mock_blockhash)).expect("must sign");
    assert_eq!(tx.message.recent_blockhash, solana_sdk::hash::Hash::new_from_array(mock_blockhash));
    assert_eq!(tx.message.account_keys[0], kp.pubkey());
    assert_ne!(tx.signatures[0], Signature::default());
    // The mock node confirms the submission.
    let outcome = operation_outcome(resolve_submission(Ok("SIG123".to_string())));
    assert_eq!(outcome, (true, "SIG123".to_string()));
}

#[test]
fn freshness_fetch_failure_is_rpc_error_and_nothing_is_signed() {
    let params = TreeParams { max_depth: Some(14), max_buffer_size: Some(64) };
    let op = create_tree_config(&params, &valid_keypair_bytes()).expect("must prepare");
    let r = finalize_transaction(&op, Err("connection refused".to_string()));
    match &r {
        Err(BubblegumError::RpcError) => {},
        _ => panic!("expected RpcError"),
    }
    let outcome = operation_outcome(r.map(|_| unreachable!()));
    assert_eq!(outcome, (false, "RpcError".to_string()));
}

#[test]
fn submission_rejection_carries_the_node_diagnostic() {
    let r = resolve_submission(Err("insufficient funds".to_string()));
    let outcome = operation_outcome(r);
    assert_eq!(outcome, (false, "TransactionError: insufficient funds".to_string()));
}

#[test]
fn transfer_end_to_end_signs_with_the_owner() {
    let kp = Keypair::new();
    let tree = Pubkey::new_unique().to_string();
    let recipient = Pubkey::new_unique().to_string();
    let op = transfer_compressed_nft(&tree, &recipient, &kp.to_bytes().to_vec())
        .expect("must prepare");
    assert!(op.tree_address.is_none());
    let tx = finalize_transaction(&op, Ok([9u8; 32])).expect("must sign");
    assert_eq!(tx.message.account_keys[0], kp.pubkey());
    assert_ne!(tx.signatures[0], Signature::default());
}

#[test]
fn signing_is_deterministic_in_its_inputs() {
    let kp = Keypair::new();
    let params = TreeParams { max_depth: Some(14), max_buffer_size: Some(64) };
    let op = create_tree_config(&params, &kp.to_bytes().to_vec()).expect("must prepare");
    let a = finalize_transaction(&op, Ok([7u8; 32])).expect("must sign");
    let b = finalize_transaction(&op, Ok([7u8; 32])).expect("must sign");
    assert_eq!(a, b);
    // A different freshness token yields a different message and signature.
    let c = finalize_transaction(&op, Ok([8u8; 32])).expect("must sign");
    assert_ne!(a, c);
}

#[test]
fn error_messages_are_exact() {
    assert_eq!(BubblegumError::InvalidKeypair.message(), "InvalidKeypair");
    assert_eq!(
        BubblegumError::InvalidPubkey("xyz".to_string()).message(),
        "InvalidPubkey: xyz"
    );
    assert_eq!(
        BubblegumError::MissingParameter("maxDepth".to_string()).message(),
        "MissingParameter: maxDepth"
    );
    assert_eq!(
        BubblegumError::InvalidMetadata("odd shape".to_string()).message(),
        "InvalidMetadata: odd shape"
    );
    assert_eq!(BubblegumError::RpcError.message(), "RpcError");
    assert_eq!(
        BubblegumError::TransactionError("insufficient funds".to_string()).message(),
        "TransactionError: insufficient funds"
    );
}
