use crate::felt::Felt;
use crate::types::LatestBlockInfo;
use vstd::prelude::*;

verus! {

/// The hash and number of the most recent accepted block.
#[derive(Clone, Copy, Debug)]
pub struct BlockHashAndNumber {
    pub block_hash: Felt,
    pub block_number: u64,
}

/// Why the head of the chain cannot be reported.
#[derive(Clone, Copy, Debug, PartialEq, Eq, Structural)]
pub enum StarknetRpcApiError {
    /// The node holds no block yet.
    BlockNotFound,
    /// The latest block is a pending one, which the node never makes its head.
    InternalServerError,
}

/// The hash and number of the latest accepted block, from what the store
/// holds as the latest block.
pub fn block_hash_and_number(latest: Option<LatestBlockInfo>) -> (r: Result<BlockHashAndNumber, StarknetRpcApiError>)
    ensures
        r == match latest {
            None => Err(StarknetRpcApiError::BlockNotFound),
            Some(LatestBlockInfo::Pending) => Err(StarknetRpcApiError::InternalServerError),
            Some(LatestBlockInfo::Finalized { block_number, block_hash }) => Ok(
                BlockHashAndNumber { block_hash, block_number },
            ),
        },
{
    match latest {
        None => Err(StarknetRpcApiError::BlockNotFound),
        Some(LatestBlockInfo::Pending) => Err(StarknetRpcApiError::InternalServerError),
        Some(LatestBlockInfo::Finalized { block_number, block_hash }) => Ok(
            BlockHashAndNumber { block_hash, block_number },
        ),
    }
}

} // verus!
