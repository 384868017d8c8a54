use block_import::felt::Felt;
use block_import::state_root::{
    calculate_state_root, state_prefix, trusted_global_state_root, verify_global_state_root,
};
use block_import::types::{BlockImportError, DbOperation, InternalError, StorageError};
use starknet_types_core::felt::Felt as StarkFelt;
use starknet_types_core::hash::{Poseidon, StarkHash};

fn to_stark(f: Felt) -> StarkFelt {
    StarkFelt::from_bytes_be(&f.to_bytes_be())
}

fn from_stark(f: StarkFelt) -> Felt {
    Felt::from_bytes_be(f.to_bytes_be())
}

#[test]
fn felt_from_u64_encodes_big_endian() {
    let f = Felt::from_u64(0x12345);
    let mut expected = [0u8; 32];
    expected[29] = 0x01;
    expected[30] = 0x23;
    expected[31] = 0x45;
    assert_eq!(f.to_bytes_be(), expected);
    assert!(Felt::zero().is_zero());
    assert!(!Felt::from_u64(1).is_zero());
    assert_eq!(Felt::from_u64(0), Felt::zero());
    assert_ne!(Felt::from_u64(1), Felt::from_u64(2));
}

#[test]
fn state_prefix_is_the_state_domain_text() {
    assert_eq!(to_stark(state_prefix()), StarkFelt::from_bytes_be_slice(b"STARKNET_STATE_V0"));
    assert_eq!(to_stark(state_prefix()), StarkFelt::from_hex_unchecked("0x535441524b4e45545f53544154455f5630"));
}

#[test]
fn empty_class_trie_keeps_contract_root() {
    let root = calculate_state_root(Felt::from_u64(1), Felt::zero());
    assert_eq!(root, Felt::from_u64(1));
    let root = calculate_state_root(Felt::from_u64(0xabcdef), Felt::zero());
    assert_eq!(root, Felt::from_u64(0xabcdef));
}

#[test]
fn nonempty_class_trie_hashes_both_roots() {
    let root = calculate_state_root(Felt::from_u64(1), Felt::from_u64(2));
    let expected = Poseidon::hash_array(&[
        StarkFelt::from_bytes_be_slice(b"STARKNET_STATE_V0"),
        StarkFelt::from(1u64),
        StarkFelt::from(2u64),
    ]);
    assert_eq!(to_stark(root), expected);
    assert_ne!(root, Felt::from_u64(1));
    assert_ne!(root, Felt::from_u64(2));
}

#[test]
fn trusted_root_is_taken_verbatim() {
    let asserted = Felt::from_u64(0x777);
    match trusted_global_state_root(Some(asserted)) {
        Ok(root) => assert_eq!(root, asserted),
        Err(e) => panic!("unexpected error {:?}", e),
    }
    assert!(matches!(
        trusted_global_state_root(None),
        Err(BlockImportError::Internal(InternalError::MissingGlobalStateRoot))
    ));
}

#[test]
fn computed_root_must_match_asserted_root() {
    let expected = from_stark(Poseidon::hash_array(&[
        StarkFelt::from_bytes_be_slice(b"STARKNET_STATE_V0"),
        StarkFelt::from(5u64),
        StarkFelt::from(6u64),
    ]));
    match verify_global_state_root(Ok(Felt::from_u64(5)), Ok(Felt::from_u64(6)), Some(expected)) {
        Ok(root) => assert_eq!(root, expected),
        Err(e) => panic!("unexpected error {:?}", e),
    }
    match verify_global_state_root(Ok(Felt::from_u64(5)), Ok(Felt::zero()), None) {
        Ok(root) => assert_eq!(root, Felt::from_u64(5)),
        Err(e) => panic!("unexpected error {:?}", e),
    }
    match verify_global_state_root(Ok(Felt::from_u64(5)), Ok(Felt::zero()), Some(Felt::from_u64(9))) {
        Err(BlockImportError::GlobalStateRoot { got, expected }) => {
            assert_eq!(got, Felt::from_u64(5));
            assert_eq!(expected, Felt::from_u64(9));
        }
        other => panic!("unexpected outcome {:?}", other),
    }
}

#[test]
fn trie_storage_errors_name_their_trie() {
    let err = StorageError { message: "disk".to_string() };
    match verify_global_state_root(Err(err.clone()), Ok(Felt::zero()), None) {
        Err(BlockImportError::InternalDb { context, error }) => {
            assert_eq!(context, DbOperation::UpdatingContractTrieRoot);
            assert_eq!(error.message, "disk");
        }
        other => panic!("unexpected outcome {:?}", other),
    }
    match verify_global_state_root(Ok(Felt::zero()), Err(err), None) {
        Err(BlockImportError::InternalDb { context, .. }) => {
            assert_eq!(context, DbOperation::UpdatingClassTrieRoot)
        }
        other => panic!("unexpected outcome {:?}", other),
    }
}
