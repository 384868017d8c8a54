use crate::felt::{lemma_felt_view_eq, poseidon_felt, poseidon_hash3, zero_felt, Felt};
use crate::types::{BlockImportError, DbOperation, InternalError, StorageError};
use vstd::prelude::*;

verus! {

/// The encoding of the felt that holds the ASCII text "STARKNET_STATE_V0":
/// the domain separator of the global state root.
pub open spec fn state_prefix_bytes() -> Seq<u8> {
    Seq::new(15, |i: int| 0u8) + seq![
        0x53u8, 0x54, 0x41, 0x52, 0x4b, 0x4e, 0x45, 0x54, 0x5f, 0x53, 0x54, 0x41, 0x54, 0x45, 0x5f, 0x56, 0x30,
    ]
}

/// The felt that holds "STARKNET_STATE_V0".
pub open spec fn state_prefix_felt() -> Felt {
    choose|f: Felt| f@ == state_prefix_bytes()
}

/// The global state root made of the two trie roots: the contract root alone
/// while the class trie is empty, else Poseidon of the prefix and both roots.
pub open spec fn combine_roots(contracts_trie_root: Felt, classes_trie_root: Felt) -> Felt {
    if classes_trie_root == zero_felt() {
        contracts_trie_root
    } else {
        poseidon_felt(seq![state_prefix_felt(), contracts_trie_root, classes_trie_root])
    }
}

/// The felt that holds "STARKNET_STATE_V0".
pub fn state_prefix() -> (r: Felt)
    ensures
        r@ == state_prefix_bytes(),
        r == state_prefix_felt(),
{
    let bytes: [u8; 32] = [
        0, 0, 0, 0, 0, 0, 0, 0, 0, 0, 0, 0, 0, 0, 0, 0x53, 0x54, 0x41, 0x52, 0x4b, 0x4e, 0x45, 0x54, 0x5f,
        0x53, 0x54, 0x41, 0x54, 0x45, 0x5f, 0x56, 0x30,
    ];
    let r = Felt::from_bytes_be(bytes);
    assert(r@ =~= state_prefix_bytes());
    proof {
        lemma_felt_view_eq(r, state_prefix_felt());
    }
    r
}

/// Combines the contract and class trie roots into the global state root.
pub fn calculate_state_root(contracts_trie_root: Felt, classes_trie_root: Felt) -> (r: Felt)
    ensures
        r == combine_roots(contracts_trie_root, classes_trie_root),
{
    if classes_trie_root.is_zero() {
        contracts_trie_root
    } else {
        poseidon_hash3(state_prefix(), contracts_trie_root, classes_trie_root)
    }
}

/// The state-root combination law: an empty class trie leaves the contract
/// root as it is, and any other class root is hashed with it under the prefix.
pub proof fn lemma_state_root_combination(contracts_trie_root: Felt, classes_trie_root: Felt)
    ensures
        combine_roots(contracts_trie_root, zero_felt()) == contracts_trie_root,
        classes_trie_root != zero_felt() ==> combine_roots(contracts_trie_root, classes_trie_root)
            == poseidon_felt(seq![state_prefix_felt(), contracts_trie_root, classes_trie_root]),
{
}

/// The global state root of an import with trusted tries: the asserted one,
/// which must be there.
pub fn trusted_global_state_root(unverified_global_state_root: Option<Felt>) -> (r: Result<
    Felt,
    BlockImportError,
>)
    ensures
        r == match unverified_global_state_root {
            Some(root) => Ok(root),
            None => Err(BlockImportError::Internal(InternalError::MissingGlobalStateRoot)),
        },
{
    match unverified_global_state_root {
        Some(root) => Ok(root),
        None => Err(BlockImportError::Internal(InternalError::MissingGlobalStateRoot)),
    }
}

/// The outcome of checking the two new trie roots against the block's
/// asserted global state root, where there is one.
pub open spec fn checked_state_root(
    contract_trie_root: Result<Felt, StorageError>,
    class_trie_root: Result<Felt, StorageError>,
    unverified_global_state_root: Option<Felt>,
) -> Result<Felt, BlockImportError> {
    match (contract_trie_root, class_trie_root) {
        (Err(error), _) => Err(BlockImportError::InternalDb { context: DbOperation::UpdatingContractTrieRoot, error }),
        (Ok(_), Err(error)) => Err(BlockImportError::InternalDb { context: DbOperation::UpdatingClassTrieRoot, error }),
        (Ok(contracts), Ok(classes)) => {
            let computed = combine_roots(contracts, classes);
            match unverified_global_state_root {
                Some(expected) if expected != computed => Err(
                    BlockImportError::GlobalStateRoot { got: computed, expected },
                ),
                _ => Ok(computed),
            }
        },
    }
}

/// Combines the trie roots that the trie update gave, and checks the result
/// against the block's asserted global state root. A mismatch is an error
/// whatever the validation policy.
pub fn verify_global_state_root(
    contract_trie_root: Result<Felt, StorageError>,
    class_trie_root: Result<Felt, StorageError>,
    unverified_global_state_root: Option<Felt>,
) -> (r: Result<Felt, BlockImportError>)
    ensures
        r == checked_state_root(contract_trie_root, class_trie_root, unverified_global_state_root),
{
    let contracts = match contract_trie_root {
        Ok(root) => root,
        Err(error) => {
            return Err(BlockImportError::InternalDb { context: DbOperation::UpdatingContractTrieRoot, error });
        },
    };
    let classes = match class_trie_root {
        Ok(root) => root,
        Err(error) => {
            return Err(BlockImportError::InternalDb { context: DbOperation::UpdatingClassTrieRoot, error });
        },
    };
    let state_root = calculate_state_root(contracts, classes);
    if let Some(expected) = unverified_global_state_root {
        if expected != state_root {
            return Err(BlockImportError::GlobalStateRoot { got: state_root, expected });
        }
    }
    Ok(state_root)
}

} // verus!
