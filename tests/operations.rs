use universal_nft::errors::{ErrorKind, UniversalNFTError};
use universal_nft::program::UniversalNft;
use universal_nft::state::{
    CrossChainTransferState, NFTMetadata, NFTOrigin, OwnershipVerificationState, ProgramState,
    Pubkey, TransferStatus, ZetaChainGatewayState,
};

const AUTHORITY: u8 = 1;
const START: i64 = 1_000;

fn key(b: u8) -> Pubkey {
    Pubkey::new_from_array([b; 32])
}

fn program(max_supply: u64) -> UniversalNft {
    UniversalNft::initialize(key(AUTHORITY), "ipfs://collection".to_string(), max_supply, START)
        .unwrap()
}

fn mint(p: &mut UniversalNft, mint_key: u8, uri: &str, payload: Vec<u8>) -> Result<u64, UniversalNFTError> {
    p.mint_nft(key(AUTHORITY), key(mint_key), key(50), uri.to_string(), 1, payload, START + 1)
}

/// A transfer record written for a token on its way to this chain.
fn inbound_record(mint_key: u8, token_id: u64, source: u64) -> CrossChainTransferState {
    CrossChainTransferState {
        nft_mint: key(mint_key),
        token_id,
        source_chain_id: source,
        target_chain_id: 1,
        recipient: vec![3u8; 20],
        status: TransferStatus::InProgress,
        zeta_tx_hash: [0u8; 32],
        created_at: START,
    }
}

const EMPTY_KECCAK: [u8; 32] = [
    0xc5, 0xd2, 0x46, 0x01, 0x86, 0xf7, 0x23, 0x3c, 0x92, 0x7e, 0x7d, 0xb2, 0xdc, 0xc7, 0x03, 0xc0,
    0xe5, 0x00, 0xb6, 0x53, 0xca, 0x82, 0x27, 0x3b, 0x7b, 0xfa, 0xd8, 0x04, 0x5d, 0x85, 0xa4, 0x70,
];

#[test]
fn initialize_sets_defaults() {
    let p = program(10);
    assert_eq!(p.program_state.total_minted, 0);
    assert_eq!(p.program_state.max_supply, 10);
    assert_eq!(p.program_state.next_token_id, 1_000_000);
    assert_eq!(p.program_state.created_at, START);
    assert_eq!(p.gateway_state.supported_chains, (1..=13).collect::<Vec<u64>>());
    assert_eq!(p.gateway_state.version, 1);
    assert_eq!(p.gateway_state.gateway_address, [0u8; 20]);
    assert!(p.tokens.is_empty() && p.origins.is_empty());
    assert!(p.transfers.is_empty() && p.verifications.is_empty());
}

#[test]
fn initialize_rejects_bad_inputs() {
    let long = "a".repeat(201);
    assert_eq!(
        UniversalNft::initialize(key(1), long, 10, 0).unwrap_err(),
        UniversalNFTError::InvalidMetadataURILength
    );
    assert!(UniversalNft::initialize(key(1), "a".repeat(200), 10, 0).is_ok());
    // 101 two-byte characters are 202 bytes.
    assert_eq!(
        UniversalNft::initialize(key(1), "é".repeat(101), 10, 0).unwrap_err(),
        UniversalNFTError::InvalidMetadataURILength
    );
    assert_eq!(
        UniversalNft::initialize(key(1), "x".to_string(), 0, 0).unwrap_err(),
        UniversalNFTError::MaxSupplyExceeded
    );
}

#[test]
fn mint_records_token_and_origin() {
    let mut p = program(10);
    let id = mint(&mut p, 10, "ipfs://a", vec![]).unwrap();
    assert_eq!(id, 1_000_000);
    let t = p.get_token(&key(10)).unwrap();
    assert_eq!(t.owner, key(50));
    assert_eq!(t.metadata_uri, "ipfs://a");
    assert_eq!(t.zeta_chain_id, 1);
    assert_eq!(t.token_id, id);
    assert_eq!(t.cross_chain_data_hash, EMPTY_KECCAK);
    let o = p.get_origin(id).unwrap();
    assert_eq!(o.original_mint, key(10));
    assert_eq!(o.original_metadata_uri, "ipfs://a");
    assert_eq!(o.source_chain_id, 1);
    assert_eq!(p.program_state.total_minted, 1);
    assert_eq!(p.program_state.next_token_id, 1_000_001);
}

#[test]
fn mint_hashes_payload_with_keccak() {
    let mut p = program(10);
    mint(&mut p, 10, "ipfs://a", vec![1, 2, 3]).unwrap();
    let expected = solana_program::keccak::hash(&[1, 2, 3]).to_bytes();
    assert_eq!(p.get_token(&key(10)).unwrap().cross_chain_data_hash, expected);
    assert_ne!(expected, EMPTY_KECCAK);
}

#[test]
fn token_ids_strictly_increase() {
    let mut p = program(20);
    let mut last = 0u64;
    for i in 0..20u8 {
        let id = mint(&mut p, 10 + i, "ipfs://a", vec![i]).unwrap();
        assert!(id > last);
        last = id;
    }
    assert_eq!(last, 1_000_019);
    // Burning does not give an identifier back.
    p.burn_nft(key(50), key(10)).unwrap();
    assert_eq!(mint(&mut p, 200, "ipfs://b", vec![]).unwrap(), 1_000_020);
}

#[test]
fn mint_at_ceiling_fails_and_changes_nothing() {
    let mut p = program(2);
    mint(&mut p, 10, "ipfs://a", vec![]).unwrap();
    mint(&mut p, 11, "ipfs://b", vec![]).unwrap();
    let before = p.clone();
    let e = mint(&mut p, 12, "ipfs://c", vec![]).unwrap_err();
    assert_eq!(e, UniversalNFTError::MaxSupplyExceeded);
    assert_eq!(e.kind(), ErrorKind::SupplyExceeded);
    assert_eq!(p, before);
    assert!(p.program_state.total_minted <= p.program_state.max_supply);
}

#[test]
fn mint_rejects_bad_inputs() {
    let mut p = program(10);
    mint(&mut p, 10, "ipfs://a", vec![]).unwrap();
    let before = p.clone();
    assert_eq!(
        p.mint_nft(key(9), key(11), key(50), "u".to_string(), 1, vec![], 5).unwrap_err(),
        UniversalNFTError::Unauthorized
    );
    assert_eq!(mint(&mut p, 10, "ipfs://a", vec![]).unwrap_err(), UniversalNFTError::NFTAlreadyExists);
    assert_eq!(
        mint(&mut p, 11, &"a".repeat(201), vec![]).unwrap_err(),
        UniversalNFTError::InvalidMetadataURILength
    );
    assert_eq!(
        p.mint_nft(key(AUTHORITY), key(11), key(50), "u".to_string(), 99, vec![], 5).unwrap_err(),
        UniversalNFTError::InvalidZetaChainID
    );
    assert_eq!(
        mint(&mut p, 11, "u", vec![0u8; 1001]).unwrap_err(),
        UniversalNFTError::InvalidCrossChainData
    );
    assert_eq!(p, before);
    assert!(mint(&mut p, 11, "u", vec![0u8; 1000]).is_ok());
}

#[test]
fn mint_then_open_outbound_scenario() {
    let mut p = program(10);
    let id = mint(&mut p, 10, "ipfs://a", vec![]).unwrap();
    assert_eq!(id, 1000000);
    p.cross_chain_transfer(key(50), key(10), 2, vec![7u8; 20], vec![], START + 2).unwrap();
    let t = p.get_token(&key(10)).unwrap();
    assert_eq!(t.owner, Pubkey::zeroed());
    assert_eq!(t.updated_at, START + 2);
    assert_eq!(p.program_state.total_minted, 0);
    let r = p.get_transfer(&key(10)).unwrap();
    assert_eq!(r.token_id, id);
    assert_eq!(r.source_chain_id, 1);
    assert_eq!(r.target_chain_id, 2);
    assert_eq!(r.recipient, vec![7u8; 20]);
    assert_eq!(r.status, TransferStatus::InProgress);
    assert_eq!(r.zeta_tx_hash, [0u8; 32]);
    let e = p.cross_chain_transfer(key(50), key(10), 2, vec![7u8; 20], vec![], START + 3).unwrap_err();
    assert_eq!(e, UniversalNFTError::TransferInProgress);
    assert_eq!(e.kind(), ErrorKind::TransferInProgress);
    assert_eq!(p.transfers.len(), 1);
}

#[test]
fn outbound_rejects_bad_inputs() {
    let mut p = program(10);
    mint(&mut p, 10, "ipfs://a", vec![]).unwrap();
    let before = p.clone();
    let mut open = |owner: u8, mint_key: u8, target: u64, rec: usize, data: usize| {
        p.cross_chain_transfer(key(owner), key(mint_key), target, vec![1; rec], vec![1; data], 9)
            .unwrap_err()
    };
    assert_eq!(open(50, 11, 2, 20, 0), UniversalNFTError::NFTNotFound);
    assert_eq!(open(50, 10, 99, 20, 0), UniversalNFTError::UnsupportedTargetChain);
    assert_eq!(open(50, 10, 1, 20, 0), UniversalNFTError::InvalidZetaChainID);
    assert_eq!(open(50, 10, 2, 101, 0), UniversalNFTError::InvalidRecipientAddress);
    assert_eq!(open(50, 10, 2, 20, 1001), UniversalNFTError::InvalidCrossChainData);
    assert_eq!(open(51, 10, 2, 20, 0), UniversalNFTError::Unauthorized);
    // Ownership is checked before the target chain and the lengths.
    assert_eq!(open(51, 10, 99, 101, 1001), UniversalNFTError::Unauthorized);
    assert_eq!(UniversalNFTError::UnsupportedTargetChain.kind(), ErrorKind::UnsupportedChain);
    assert_eq!(p, before);
}

#[test]
fn finalize_with_wrong_source_is_a_mismatch() {
    let mut p = program(10);
    mint(&mut p, 10, "ipfs://a", vec![]).unwrap();
    p.cross_chain_transfer(key(50), key(10), 2, vec![7u8; 20], vec![], START + 2).unwrap();
    let before = p.clone();
    // The stored record names chain 1 as its source.
    let e = p
        .process_incoming_nft(key(60), key(10), "ipfs://b".to_string(), 2, vec![], [5u8; 32], START + 3)
        .unwrap_err();
    assert_eq!(e, UniversalNFTError::SourceChainMismatch);
    assert_eq!(e.kind(), ErrorKind::DataMismatch);
    assert_eq!(p.get_transfer(&key(10)).unwrap().status, TransferStatus::InProgress);
    assert_eq!(p, before);
}

#[test]
fn round_trip_keeps_original_uri() {
    let mut p = program(10);
    let id = mint(&mut p, 10, "ipfs://a", vec![]).unwrap();
    p.cross_chain_transfer(key(50), key(10), 2, vec![7u8; 20], vec![], START + 2).unwrap();
    // The token comes back from chain 2 under a new local mint.
    p.transfers.push(inbound_record(20, id, 2));
    p.process_incoming_nft(key(60), key(20), "ipfs://other".to_string(), 2, vec![4, 5], [9u8; 32], START + 5)
        .unwrap();
    let t = p.get_token(&key(20)).unwrap();
    assert_eq!(t.metadata_uri, "ipfs://a");
    assert_eq!(t.owner, key(60));
    assert_eq!(t.token_id, id);
    assert_eq!(t.zeta_chain_id, 2);
    assert_eq!(t.cross_chain_data_hash, solana_program::keccak::hash(&[4, 5]).to_bytes());
    let o = p.get_origin(id).unwrap();
    assert_eq!(o.original_metadata_uri, "ipfs://a");
    assert_eq!(o.original_mint, key(10));
    assert_eq!(p.origins.len(), 1);
    let r = p.get_transfer(&key(20)).unwrap();
    assert_eq!(r.status, TransferStatus::Completed);
    assert_eq!(r.zeta_tx_hash, [9u8; 32]);
    assert_eq!(p.program_state.total_minted, 1);
}

#[test]
fn first_arrival_writes_origin() {
    let mut p = program(10);
    p.transfers.push(inbound_record(20, 777, 3));
    p.process_incoming_nft(key(60), key(20), "ipfs://new".to_string(), 3, vec![], [1u8; 32], START + 5)
        .unwrap();
    let o = p.get_origin(777).unwrap();
    assert_eq!(o.original_metadata_uri, "ipfs://new");
    assert_eq!(o.original_mint, key(20));
    assert_eq!(o.source_chain_id, 3);
    assert_eq!(o.created_at, START + 5);
    let t = p.get_token(&key(20)).unwrap();
    assert_eq!(t.metadata_uri, "ipfs://new");
    assert_eq!(t.cross_chain_data_hash, EMPTY_KECCAK);
    assert_eq!(p.program_state.total_minted, 1);
    // The transfer is closed: a second arrival is refused.
    assert_eq!(
        p.process_incoming_nft(key(60), key(20), "x".to_string(), 3, vec![], [1u8; 32], START + 6)
            .unwrap_err(),
        UniversalNFTError::InvalidTransferStatus
    );
}

#[test]
fn finalize_rejects_bad_inputs() {
    let mut p = program(10);
    p.transfers.push(inbound_record(20, 777, 3));
    let before = p.clone();
    let mut arrive = |mint_key: u8, uri: String, source: u64, data: usize| {
        p.process_incoming_nft(key(60), key(mint_key), uri, source, vec![0; data], [1u8; 32], 9)
            .unwrap_err()
    };
    assert_eq!(arrive(21, "u".to_string(), 3, 0), UniversalNFTError::InvalidTransferStatus);
    assert_eq!(arrive(20, "a".repeat(201), 3, 0), UniversalNFTError::InvalidMetadataURILength);
    assert_eq!(arrive(20, "u".to_string(), 99, 0), UniversalNFTError::InvalidZetaChainID);
    assert_eq!(arrive(20, "u".to_string(), 1, 0), UniversalNFTError::InvalidZetaChainID);
    assert_eq!(arrive(20, "u".to_string(), 3, 1001), UniversalNFTError::InvalidCrossChainData);
    assert_eq!(arrive(20, "u".to_string(), 4, 0), UniversalNFTError::SourceChainMismatch);
    assert_eq!(p, before);
}

#[test]
fn proof_with_matching_hash_verifies() {
    let mut p = program(10);
    mint(&mut p, 10, "ipfs://a", vec![1, 2, 3]).unwrap();
    p.verify_cross_chain_ownership(key(10), vec![1, 2, 3], START + 7).unwrap();
    let v = p.get_verification(&key(10)).unwrap();
    assert!(v.verified);
    assert_eq!(v.verified_at, START + 7);
    assert_eq!(v.proof_hash, solana_program::keccak::hash(&[1, 2, 3]).to_bytes());
    assert_eq!(v.zeta_owner, vec![0u8; 100]);
    assert_eq!(v.nft_mint, key(10));
}

#[test]
fn proof_with_other_bytes_fails() {
    let mut p = program(10);
    mint(&mut p, 10, "ipfs://a", vec![1, 2, 3]).unwrap();
    let before = p.clone();
    let e = p.verify_cross_chain_ownership(key(10), vec![], 1).unwrap_err();
    assert_eq!(e, UniversalNFTError::InvalidProofData);
    let e = p.verify_cross_chain_ownership(key(10), vec![1, 2], 1).unwrap_err();
    assert_eq!(e, UniversalNFTError::CrossChainDataHashMismatch);
    assert_eq!(e.kind(), ErrorKind::ProofMismatch);
    assert_eq!(
        p.verify_cross_chain_ownership(key(11), vec![1], 1).unwrap_err(),
        UniversalNFTError::NFTNotFound
    );
    assert!(p.get_verification(&key(10)).is_none());
    assert_eq!(p, before);
}

#[test]
fn record_proof_compares_hashes() {
    let mut p = program(10);
    mint(&mut p, 10, "ipfs://a", vec![]).unwrap();
    assert_eq!(
        p.record_ownership_proof(key(10), [0u8; 32], 3).unwrap_err(),
        UniversalNFTError::CrossChainDataHashMismatch
    );
    p.record_ownership_proof(key(10), EMPTY_KECCAK, 3).unwrap();
    assert!(p.get_verification(&key(10)).unwrap().verified);
    p.record_ownership_proof(key(10), EMPTY_KECCAK, 4).unwrap();
    assert_eq!(p.verifications.len(), 1);
    assert_eq!(p.get_verification(&key(10)).unwrap().verified_at, 4);
}

#[test]
fn registry_update_rules() {
    let mut p = program(10);
    let before = p.clone();
    let ok_time = START + 60;
    assert_eq!(
        p.setup_gateway(key(AUTHORITY), [1; 20], (1..=14).collect(), 1, ok_time).unwrap_err(),
        UniversalNFTError::TooManySupportedChains
    );
    let e = p.setup_gateway(key(AUTHORITY), [1; 20], vec![1, 2], 1, START + 59).unwrap_err();
    assert_eq!(e, UniversalNFTError::GatewayNotConfigured);
    assert_eq!(e.kind(), ErrorKind::RegistryNotReady);
    assert_eq!(
        p.setup_gateway(key(AUTHORITY), [1; 20], vec![1, 2], 0, ok_time).unwrap_err(),
        UniversalNFTError::GatewayNotConfigured
    );
    assert_eq!(
        p.setup_gateway(key(9), [1; 20], vec![1, 2], 1, ok_time).unwrap_err(),
        UniversalNFTError::Unauthorized
    );
    assert_eq!(p, before);
    p.setup_gateway(key(AUTHORITY), [1; 20], (1..=13).rev().collect(), 3, ok_time).unwrap();
    assert_eq!(p.gateway_state.gateway_address, [1; 20]);
    assert_eq!(p.gateway_state.supported_chains, (1..=13).rev().collect::<Vec<u64>>());
    assert_eq!(p.gateway_state.version, 3);
    assert_eq!(p.gateway_state.updated_at, ok_time);
    // The version may not go back down.
    assert_eq!(
        p.setup_gateway(key(AUTHORITY), [1; 20], vec![2], 2, ok_time + 600).unwrap_err(),
        UniversalNFTError::GatewayNotConfigured
    );
}

#[test]
fn registry_validates_remote_chains() {
    let p = program(10);
    assert!(p.gateway_state.validate_target(2));
    assert!(p.gateway_state.validate_source(13));
    assert!(!p.gateway_state.validate_target(1));
    assert!(!p.gateway_state.validate_source(1));
    assert!(!p.gateway_state.validate_target(14));
    assert!(p.gateway_state.is_supported(1));
}

#[test]
fn local_transfer_moves_owner() {
    let mut p = program(10);
    mint(&mut p, 10, "ipfs://a", vec![]).unwrap();
    assert_eq!(
        p.transfer_nft(key(51), key(10), key(52), 3).unwrap_err(),
        UniversalNFTError::Unauthorized
    );
    assert_eq!(
        p.transfer_nft(key(50), key(11), key(52), 3).unwrap_err(),
        UniversalNFTError::NFTNotFound
    );
    p.transfer_nft(key(50), key(10), key(52), 3).unwrap();
    let t = p.get_token(&key(10)).unwrap();
    assert_eq!(t.owner, key(52));
    assert_eq!(t.updated_at, 3);
    assert_eq!(p.program_state.total_minted, 1);
}

#[test]
fn metadata_update_keeps_origin() {
    let mut p = program(10);
    let id = mint(&mut p, 10, "ipfs://a", vec![]).unwrap();
    assert_eq!(
        p.update_metadata(key(50), key(10), "a".repeat(201), 3).unwrap_err(),
        UniversalNFTError::InvalidMetadataURILength
    );
    assert_eq!(
        p.update_metadata(key(51), key(10), "ipfs://b".to_string(), 3).unwrap_err(),
        UniversalNFTError::Unauthorized
    );
    p.update_metadata(key(50), key(10), "ipfs://b".to_string(), 3).unwrap();
    assert_eq!(p.get_token(&key(10)).unwrap().metadata_uri, "ipfs://b");
    assert_eq!(p.get_origin(id).unwrap().original_metadata_uri, "ipfs://a");
}

#[test]
fn burn_removes_token_and_keeps_origin() {
    let mut p = program(10);
    let id = mint(&mut p, 10, "ipfs://a", vec![]).unwrap();
    assert_eq!(p.burn_nft(key(51), key(10)).unwrap_err(), UniversalNFTError::Unauthorized);
    p.burn_nft(key(50), key(10)).unwrap();
    assert!(p.get_token(&key(10)).is_none());
    assert_eq!(p.program_state.total_minted, 0);
    assert!(p.get_origin(id).is_some());
    assert_eq!(p.burn_nft(key(50), key(10)).unwrap_err(), UniversalNFTError::NFTNotFound);
}

#[test]
fn keys_compare_bytewise() {
    assert!(key(3).equals(&key(3)));
    assert!(!key(3).equals(&key(4)));
    assert!(Pubkey::zeroed().equals(&Pubkey::new_from_array([0; 32])));
    assert!(universal_nft::hashing::bytes32_eq(&[7; 32], &[7; 32]));
    let mut b = [7u8; 32];
    b[31] = 8;
    assert!(!universal_nft::hashing::bytes32_eq(&[7; 32], &b));
}

#[test]
fn transfer_status_terminal_states() {
    assert!(TransferStatus::Completed.is_terminal());
    assert!(TransferStatus::Failed.is_terminal());
    assert!(!TransferStatus::InProgress.is_terminal());
    assert!(!TransferStatus::Pending.is_terminal());
}

#[test]
fn inbound_arrival_at_ceiling_is_refused() {
    let mut p = program(1);
    mint(&mut p, 10, "ipfs://a", vec![]).unwrap();
    p.transfers.push(inbound_record(20, 777, 3));
    let before = p.clone();
    let e = p
        .process_incoming_nft(key(60), key(20), "ipfs://new".to_string(), 3, vec![], [1u8; 32], START + 5)
        .unwrap_err();
    assert_eq!(e, UniversalNFTError::MaxSupplyExceeded);
    assert_eq!(e.kind(), ErrorKind::SupplyExceeded);
    assert_eq!(p, before);
    // Once a token leaves, the arrival fits under the ceiling again.
    p.cross_chain_transfer(key(50), key(10), 2, vec![7u8; 20], vec![], START + 6).unwrap();
    p.process_incoming_nft(key(60), key(20), "ipfs://new".to_string(), 3, vec![], [1u8; 32], START + 7)
        .unwrap();
    assert_eq!(p.program_state.total_minted, 1);
}

#[test]
fn sentinel_identity_cannot_own_or_act() {
    let zero = Pubkey::zeroed();
    let mut p = program(10);
    assert_eq!(
        p.mint_nft(key(AUTHORITY), key(10), zero, "u".to_string(), 1, vec![], 5).unwrap_err(),
        UniversalNFTError::InvalidMintAuthority
    );
    mint(&mut p, 10, "ipfs://a", vec![]).unwrap();
    assert_eq!(p.transfer_nft(key(50), key(10), zero, 6).unwrap_err(), UniversalNFTError::InvalidSigner);
    p.cross_chain_transfer(key(50), key(10), 2, vec![7u8; 20], vec![], 7).unwrap();
    // The locked token cannot be moved, renamed or burned by the sentinel.
    assert_eq!(p.transfer_nft(zero, key(10), key(52), 8).unwrap_err(), UniversalNFTError::Unauthorized);
    assert_eq!(
        p.update_metadata(zero, key(10), "x".to_string(), 8).unwrap_err(),
        UniversalNFTError::Unauthorized
    );
    assert_eq!(p.burn_nft(zero, key(10)).unwrap_err(), UniversalNFTError::Unauthorized);
    // A new mint under a key whose transfer is open is refused.
    assert_eq!(mint(&mut p, 10, "ipfs://b", vec![]).unwrap_err(), UniversalNFTError::NFTAlreadyExists);
    p.transfers.push(inbound_record(20, 777, 3));
    assert_eq!(
        p.process_incoming_nft(zero, key(20), "u".to_string(), 3, vec![], [1u8; 32], 9).unwrap_err(),
        UniversalNFTError::InvalidSigner
    );
}

#[test]
fn record_sizes() {
    assert_eq!(ProgramState::LEN, 73);
    assert_eq!(ZetaChainGatewayState::LEN, 146);
    assert_eq!(NFTMetadata::LEN, 341);
    assert_eq!(NFTOrigin::LEN, 269);
    assert_eq!(CrossChainTransferState::LEN, 210);
    assert_eq!(OwnershipVerificationState::LEN, 186);
}
