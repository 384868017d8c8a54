use crate::felt::Felt;
use crate::types::{
    BlockImportError, ChainId, Header, PendingHeader, PreValidatedBlock, UnverifiedHeader,
};
use vstd::prelude::*;

verus! {

/// The first block of the production chain whose asserted hash is taken as it is.
pub const MAINNET_TRUSTED_HASH_FIRST_BLOCK: u64 = 1466;

/// The last block of the production chain whose asserted hash is taken as it is.
pub const MAINNET_TRUSTED_HASH_LAST_BLOCK: u64 = 2242;

/// Whether a block lies in the production chain's historical range where the
/// hash that the network published differs from the computed one, and the
/// published hash is kept.
pub open spec fn is_trusted_hash_block(chain_id: ChainId, block_number: u64) -> bool {
    chain_id is Mainnet && MAINNET_TRUSTED_HASH_FIRST_BLOCK <= block_number
        <= MAINNET_TRUSTED_HASH_LAST_BLOCK
}

/// The finalized header of a block, from its producer's fields, its resolved
/// number, parent hash and global state root, and its validated commitments.
pub open spec fn header_of(
    block: PreValidatedBlock,
    block_number: u64,
    parent_block_hash: Felt,
    global_state_root: Felt,
) -> Header {
    Header {
        parent_block_hash,
        block_number,
        global_state_root,
        sequencer_address: block.header.sequencer_address,
        block_timestamp: block.header.block_timestamp,
        transaction_count: block.commitments.transaction_count,
        transaction_commitment: block.commitments.transaction_commitment,
        event_count: block.commitments.event_count,
        event_commitment: block.commitments.event_commitment,
        state_diff_length: Some(block.commitments.state_diff_length),
        state_diff_commitment: Some(block.commitments.state_diff_commitment),
        receipt_commitment: Some(block.commitments.receipt_commitment),
        protocol_version: block.header.protocol_version,
        l1_gas_price: block.header.l1_gas_price,
        l1_da_mode: block.header.l1_da_mode,
    }
}

/// The header of a pending block, with the resolved parent hash.
pub open spec fn pending_header_of(header: UnverifiedHeader, parent_block_hash: Felt) -> PendingHeader {
    PendingHeader {
        parent_block_hash,
        sequencer_address: header.sequencer_address,
        block_timestamp: header.block_timestamp,
        protocol_version: header.protocol_version,
        l1_gas_price: header.l1_gas_price,
        l1_da_mode: header.l1_da_mode,
    }
}

/// The hash a block is stored under, given the hash computed from its header.
///
/// Without an asserted hash the computed one stands. In the production
/// chain's historical range the asserted one stands. Elsewhere an asserted
/// hash that differs fails, unless the order is ignored.
pub open spec fn resolved_block_hash(
    unverified_block_hash: Option<Felt>,
    computed: Felt,
    chain_id: ChainId,
    block_number: u64,
    ignore_block_order: bool,
) -> Result<Felt, BlockImportError> {
    match unverified_block_hash {
        None => Ok(computed),
        Some(expected) => {
            if is_trusted_hash_block(chain_id, block_number) {
                Ok(expected)
            } else if expected != computed && !ignore_block_order {
                Err(BlockImportError::BlockHash { got: computed, expected })
            } else {
                Ok(computed)
            }
        },
    }
}

/// Builds the finalized header of a block.
pub fn build_header(
    block: &PreValidatedBlock,
    block_number: u64,
    parent_block_hash: Felt,
    global_state_root: Felt,
) -> (r: Header)
    ensures
        r == header_of(*block, block_number, parent_block_hash, global_state_root),
{
    Header {
        parent_block_hash,
        block_number,
        global_state_root,
        sequencer_address: block.header.sequencer_address,
        block_timestamp: block.header.block_timestamp,
        transaction_count: block.commitments.transaction_count,
        transaction_commitment: block.commitments.transaction_commitment,
        event_count: block.commitments.event_count,
        event_commitment: block.commitments.event_commitment,
        state_diff_length: Some(block.commitments.state_diff_length),
        state_diff_commitment: Some(block.commitments.state_diff_commitment),
        receipt_commitment: Some(block.commitments.receipt_commitment),
        protocol_version: block.header.protocol_version,
        l1_gas_price: block.header.l1_gas_price,
        l1_da_mode: block.header.l1_da_mode,
    }
}

/// Builds the header of a pending block.
pub fn build_pending_header(header: &UnverifiedHeader, parent_block_hash: Felt) -> (r: PendingHeader)
    ensures
        r == pending_header_of(*header, parent_block_hash),
{
    PendingHeader {
        parent_block_hash,
        sequencer_address: header.sequencer_address,
        block_timestamp: header.block_timestamp,
        protocol_version: header.protocol_version,
        l1_gas_price: header.l1_gas_price,
        l1_da_mode: header.l1_da_mode,
    }
}

/// Checks the hash computed from a block's header against the hash the block
/// asserts, and returns the hash the block is stored under.
pub fn block_hash(
    unverified_block_hash: Option<Felt>,
    computed: Felt,
    chain_id: &ChainId,
    block_number: u64,
    ignore_block_order: bool,
) -> (r: Result<Felt, BlockImportError>)
    ensures
        r == resolved_block_hash(unverified_block_hash, computed, *chain_id, block_number, ignore_block_order),
{
    match unverified_block_hash {
        None => Ok(computed),
        Some(expected) => {
            if chain_id.is_mainnet() && MAINNET_TRUSTED_HASH_FIRST_BLOCK <= block_number && block_number
                <= MAINNET_TRUSTED_HASH_LAST_BLOCK {
                return Ok(expected);
            }
            if expected != computed && !ignore_block_order {
                return Err(BlockImportError::BlockHash { got: computed, expected });
            }
            Ok(computed)
        },
    }
}

/// The historical exception: on the production chain an asserted hash that
/// differs from the computed one is accepted for blocks 1466 to 2242, both
/// included, and refused just outside that range when the order is not ignored.
pub proof fn lemma_mainnet_hash_exception(expected: Felt, computed: Felt, block_number: u64)
    requires
        expected != computed,
    ensures
        1466 <= block_number <= 2242 ==> resolved_block_hash(
            Some(expected),
            computed,
            ChainId::Mainnet,
            block_number,
            false,
        ) == Ok::<Felt, BlockImportError>(expected),
        (block_number == 1465 || block_number == 2243) ==> resolved_block_hash(
            Some(expected),
            computed,
            ChainId::Mainnet,
            block_number,
            false,
        ) == Err::<Felt, BlockImportError>(BlockImportError::BlockHash { got: computed, expected }),
{
}

} // verus!
