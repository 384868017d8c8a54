use crate::felt::{zero_felt, Felt};
use crate::types::{BlockImportError, BlockValidationContext, InternalError, LatestBlockInfo};
use vstd::prelude::*;

verus! {

/// The number and parent hash that the next block must have, given the latest
/// block: block 0 with parent zero when there is none.
pub open spec fn expected_next(latest: Option<LatestBlockInfo>) -> Result<(u64, Felt), InternalError> {
    match latest {
        None => Ok((0, zero_felt())),
        Some(LatestBlockInfo::Pending) => Err(InternalError::LatestBlockPending),
        Some(LatestBlockInfo::Finalized { block_number, block_hash }) => {
            if block_number == u64::MAX {
                Err(InternalError::BlockNumberOverflow)
            } else {
                Ok(((block_number + 1) as u64, block_hash))
            }
        },
    }
}

/// What the continuity check gives on these inputs.
///
/// A claimed number or parent hash that differs from the expected one fails
/// unless the order is ignored. The parent hash that comes out is always the
/// expected one; the number is the claimed one where there is a claim.
pub open spec fn continuity(
    latest: Option<LatestBlockInfo>,
    parent_block_hash: Option<Felt>,
    unverified_block_number: Option<u64>,
    ignore_block_order: bool,
) -> Result<(u64, Felt), BlockImportError> {
    match expected_next(latest) {
        Err(e) => Err(BlockImportError::Internal(e)),
        Ok((n, h)) => {
            if unverified_block_number is Some && unverified_block_number->0 != n && !ignore_block_order {
                Err(BlockImportError::LatestBlockN { expected: n, got: unverified_block_number->0 })
            } else if parent_block_hash is Some && parent_block_hash->0 != h && !ignore_block_order {
                Err(BlockImportError::ParentHash { expected: h, got: parent_block_hash->0 })
            } else {
                Ok(
                    (
                        match unverified_block_number {
                            Some(claimed) => claimed,
                            None => n,
                        },
                        h,
                    ),
                )
            }
        },
    }
}

/// Checks a block's claimed number and parent hash against the latest block,
/// and returns the number and parent hash that the block's header will hold.
pub fn check_parent_hash_and_num(
    latest: Option<LatestBlockInfo>,
    parent_block_hash: Option<Felt>,
    unverified_block_number: Option<u64>,
    validation: &BlockValidationContext,
) -> (r: Result<(u64, Felt), BlockImportError>)
    ensures
        r == continuity(latest, parent_block_hash, unverified_block_number, validation.ignore_block_order),
{
    let (expected_block_number, expected_parent_block_hash) = match latest {
        None => (0u64, Felt::zero()),
        Some(LatestBlockInfo::Pending) => {
            return Err(BlockImportError::Internal(InternalError::LatestBlockPending));
        },
        Some(LatestBlockInfo::Finalized { block_number, block_hash }) => {
            if block_number == u64::MAX {
                return Err(BlockImportError::Internal(InternalError::BlockNumberOverflow));
            }
            (block_number + 1, block_hash)
        },
    };
    let block_number = match unverified_block_number {
        Some(block_n) => {
            if block_n != expected_block_number && !validation.ignore_block_order {
                return Err(BlockImportError::LatestBlockN { expected: expected_block_number, got: block_n });
            }
            block_n
        },
        None => expected_block_number,
    };
    if let Some(claimed) = parent_block_hash {
        if claimed != expected_parent_block_hash && !validation.ignore_block_order {
            return Err(BlockImportError::ParentHash { expected: expected_parent_block_hash, got: claimed });
        }
    }
    Ok((block_number, expected_parent_block_hash))
}

} // verus!
