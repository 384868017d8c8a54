use crate::felt::Felt;
use vstd::prelude::*;

verus! {

/// The network a block belongs to; mixed into the block hash.
#[derive(Clone, Debug)]
pub enum ChainId {
    Mainnet,
    Sepolia,
    IntegrationSepolia,
    Other(String),
}

impl ChainId {
    /// Whether this is the primary production chain.
    pub fn is_mainnet(&self) -> (r: bool)
        ensures
            r == (*self is Mainnet),
    {
        match self {
            ChainId::Mainnet => true,
            _ => false,
        }
    }
}

/// The policy under which a block is imported.
#[derive(Clone, Debug)]
pub struct BlockValidationContext {
    pub chain_id: ChainId,
    /// Tolerate a block number, parent hash or block hash that does not match.
    pub ignore_block_order: bool,
    /// Skip the trie update and accept the block's asserted global state root.
    pub trust_global_tries: bool,
}

/// How a block publishes its data on L1.
#[derive(Clone, Copy, Debug, PartialEq, Eq, Structural)]
pub enum L1DataAvailabilityMode {
    Calldata,
    Blob,
}

/// The L1 gas prices a block was produced under.
#[derive(Clone, Copy, Debug, PartialEq, Eq, Structural)]
pub struct GasPrices {
    pub eth_l1_gas_price: u128,
    pub strk_l1_gas_price: u128,
    pub eth_l1_data_gas_price: u128,
    pub strk_l1_data_gas_price: u128,
}

/// A protocol version `major.minor.patch.build`.
#[derive(Clone, Copy, Debug, PartialEq, Eq, Structural)]
pub struct StarknetVersion {
    pub major: u8,
    pub minor: u8,
    pub patch: u8,
    pub build: u8,
}

/// The header fields a producer supplies before verification.
#[derive(Clone, Copy, Debug)]
pub struct UnverifiedHeader {
    pub parent_block_hash: Option<Felt>,
    pub sequencer_address: Felt,
    pub block_timestamp: u64,
    pub protocol_version: StarknetVersion,
    pub l1_gas_price: GasPrices,
    pub l1_da_mode: L1DataAvailabilityMode,
}

/// Counts and commitments computed and checked by the earlier validation stage.
#[derive(Clone, Copy, Debug)]
pub struct ValidatedCommitments {
    pub transaction_count: u64,
    pub transaction_commitment: Felt,
    pub event_count: u64,
    pub event_commitment: Felt,
    pub state_diff_length: u64,
    pub state_diff_commitment: Felt,
    pub receipt_commitment: Felt,
}

/// What this stage reads of a validated block that is to be finalized.
///
/// The transactions, receipts, state diff and classes travel beside it to the
/// store; nothing here decides on them.
#[derive(Clone, Copy, Debug)]
pub struct PreValidatedBlock {
    pub header: UnverifiedHeader,
    pub commitments: ValidatedCommitments,
    pub unverified_global_state_root: Option<Felt>,
    pub unverified_block_hash: Option<Felt>,
    pub unverified_block_number: Option<u64>,
}

/// What this stage reads of a validated pending block.
#[derive(Clone, Copy, Debug)]
pub struct PreValidatedPendingBlock {
    pub header: UnverifiedHeader,
}

/// The header of a finalized block.
#[derive(Clone, Copy, Debug)]
pub struct Header {
    pub parent_block_hash: Felt,
    pub block_number: u64,
    pub global_state_root: Felt,
    pub sequencer_address: Felt,
    pub block_timestamp: u64,
    pub transaction_count: u64,
    pub transaction_commitment: Felt,
    pub event_count: u64,
    pub event_commitment: Felt,
    pub state_diff_length: Option<u64>,
    pub state_diff_commitment: Option<Felt>,
    pub receipt_commitment: Option<Felt>,
    pub protocol_version: StarknetVersion,
    pub l1_gas_price: GasPrices,
    pub l1_da_mode: L1DataAvailabilityMode,
}

/// The header of a pending block: no number, state root or hash yet.
#[derive(Clone, Copy, Debug)]
pub struct PendingHeader {
    pub parent_block_hash: Felt,
    pub sequencer_address: Felt,
    pub block_timestamp: u64,
    pub protocol_version: StarknetVersion,
    pub l1_gas_price: GasPrices,
    pub l1_da_mode: L1DataAvailabilityMode,
}

/// What the store knows of the latest block.
#[derive(Clone, Copy, Debug)]
pub enum LatestBlockInfo {
    Finalized { block_number: u64, block_hash: Felt },
    Pending,
}

/// A failure reported by the persistent store.
#[derive(Clone, Debug)]
pub struct StorageError {
    pub message: String,
}

/// The store operation during which a storage error came.
#[derive(Clone, Copy, Debug, PartialEq, Eq, Structural)]
pub enum DbOperation {
    GettingLatestBlockInfo,
    UpdatingContractTrieRoot,
    UpdatingClassTrieRoot,
    StoringBlock,
}

/// A broken invariant of the node or its configuration, never of the block.
#[derive(Clone, Copy, Debug, PartialEq, Eq, Structural)]
pub enum InternalError {
    /// The store's latest block is a pending one.
    LatestBlockPending,
    /// Trusted tries were asked for, but the block asserts no global state root.
    MissingGlobalStateRoot,
    /// The latest block number is the largest a block number can be.
    BlockNumberOverflow,
}

/// Why a block was not imported.
#[allow(inconsistent_fields)]
#[derive(Clone, Debug)]
pub enum BlockImportError {
    LatestBlockN { expected: u64, got: u64 },
    ParentHash { expected: Felt, got: Felt },
    GlobalStateRoot { got: Felt, expected: Felt },
    BlockHash { got: Felt, expected: Felt },
    InternalDb { context: DbOperation, error: StorageError },
    Internal(InternalError),
}

/// A finalized block that was imported.
#[derive(Clone, Copy, Debug)]
pub struct BlockImportResult {
    pub header: Header,
    pub block_hash: Felt,
}

/// The mark that a pending block was imported.
#[derive(Clone, Copy, Debug)]
pub struct PendingBlockImportResult {}

} // verus!
