use crate::block_hash::{block_hash, build_header, build_pending_header, header_of, pending_header_of, resolved_block_hash};
use crate::continuity::{check_parent_hash_and_num, continuity};
use crate::felt::{zero_felt, Felt};
use crate::state_root::{checked_state_root, trusted_global_state_root, verify_global_state_root};
use crate::types::{
    BlockImportError, BlockImportResult, BlockValidationContext, DbOperation, Header, InternalError,
    LatestBlockInfo, PendingBlockImportResult, PendingHeader, PreValidatedBlock, PreValidatedPendingBlock,
    StorageError,
};
use vstd::prelude::*;

verus! {

/// What an import asks its driver to do next against the store.
#[allow(inconsistent_fields)]
#[derive(Clone, Copy, Debug)]
pub enum ImportAction {
    /// Read what the store holds as the latest block.
    ReadLatestBlock,
    /// Apply the block's state diff to the contract and class tries, as block `block_number`.
    UpdateTries { block_number: u64 },
    /// Compute the canonical hash of this header under the context's chain.
    ComputeBlockHash { header: Header },
    /// Store the block, its state diff and classes, as finalized with this header and hash.
    StoreBlock { header: Header, block_hash: Felt },
    /// Store the block, its state diff and classes, as the pending block with this header.
    StorePendingBlock { header: PendingHeader },
    /// Nothing: the import is over.
    Finished,
}

/// What the driver hands back after an action.
#[derive(Debug)]
pub enum ImportEvent {
    LatestBlock(Result<Option<LatestBlockInfo>, StorageError>),
    TrieRoots { contract_trie_root: Result<Felt, StorageError>, class_trie_root: Result<Felt, StorageError> },
    BlockHashComputed(Felt),
    BlockStored(Result<(), StorageError>),
}

/// Where an import of a finalized block stands.
#[derive(Debug)]
pub enum ImportPhase {
    AwaitingLatestBlock,
    AwaitingTries { block_number: u64, parent_block_hash: Felt },
    AwaitingBlockHash { header: Header },
    AwaitingStore { header: Header, block_hash: Felt },
    Done(Result<BlockImportResult, BlockImportError>),
}

/// Where an import of a pending block stands.
#[derive(Debug)]
pub enum PendingImportPhase {
    AwaitingLatestBlock,
    AwaitingStore { header: PendingHeader },
    Done(Result<PendingBlockImportResult, BlockImportError>),
}

/// The phase that follows a continuity check: an error ends the import; with
/// trusted tries the asserted root is taken and the hash is next; else the
/// tries are updated.
pub open spec fn phase_after_continuity(
    block: PreValidatedBlock,
    validation: BlockValidationContext,
    checked: Result<(u64, Felt), BlockImportError>,
) -> ImportPhase {
    match checked {
        Err(e) => ImportPhase::Done(Err(e)),
        Ok((block_number, parent_block_hash)) => {
            if validation.trust_global_tries {
                match block.unverified_global_state_root {
                    None => ImportPhase::Done(
                        Err(BlockImportError::Internal(InternalError::MissingGlobalStateRoot)),
                    ),
                    Some(root) => ImportPhase::AwaitingBlockHash {
                        header: header_of(block, block_number, parent_block_hash, root),
                    },
                }
            } else {
                ImportPhase::AwaitingTries { block_number, parent_block_hash }
            }
        },
    }
}

/// The phase of a finalized import after an event. An event that does not
/// answer the pending action leaves the phase as it is.
pub open spec fn next_phase(
    block: PreValidatedBlock,
    validation: BlockValidationContext,
    phase: ImportPhase,
    event: ImportEvent,
) -> ImportPhase {
    match (phase, event) {
        (ImportPhase::AwaitingLatestBlock, ImportEvent::LatestBlock(Err(error))) => ImportPhase::Done(
            Err(BlockImportError::InternalDb { context: DbOperation::GettingLatestBlockInfo, error }),
        ),
        (ImportPhase::AwaitingLatestBlock, ImportEvent::LatestBlock(Ok(latest))) => phase_after_continuity(
            block,
            validation,
            continuity(
                latest,
                block.header.parent_block_hash,
                block.unverified_block_number,
                validation.ignore_block_order,
            ),
        ),
        (
            ImportPhase::AwaitingTries { block_number, parent_block_hash },
            ImportEvent::TrieRoots { contract_trie_root, class_trie_root },
        ) => match checked_state_root(contract_trie_root, class_trie_root, block.unverified_global_state_root) {
            Err(e) => ImportPhase::Done(Err(e)),
            Ok(root) => ImportPhase::AwaitingBlockHash {
                header: header_of(block, block_number, parent_block_hash, root),
            },
        },
        (ImportPhase::AwaitingBlockHash { header }, ImportEvent::BlockHashComputed(computed)) => {
            match resolved_block_hash(
                block.unverified_block_hash,
                computed,
                validation.chain_id,
                header.block_number,
                validation.ignore_block_order,
            ) {
                Err(e) => ImportPhase::Done(Err(e)),
                Ok(block_hash) => ImportPhase::AwaitingStore { header, block_hash },
            }
        },
        (ImportPhase::AwaitingStore { .. }, ImportEvent::BlockStored(Err(error))) => ImportPhase::Done(
            Err(BlockImportError::InternalDb { context: DbOperation::StoringBlock, error }),
        ),
        (ImportPhase::AwaitingStore { header, block_hash }, ImportEvent::BlockStored(Ok(_))) => ImportPhase::Done(
            Ok(BlockImportResult { header, block_hash }),
        ),
        _ => phase,
    }
}

/// The action that a phase of a finalized import asks for.
pub open spec fn action_for(phase: ImportPhase) -> ImportAction {
    match phase {
        ImportPhase::AwaitingLatestBlock => ImportAction::ReadLatestBlock,
        ImportPhase::AwaitingTries { block_number, .. } => ImportAction::UpdateTries { block_number },
        ImportPhase::AwaitingBlockHash { header } => ImportAction::ComputeBlockHash { header },
        ImportPhase::AwaitingStore { header, block_hash } => ImportAction::StoreBlock { header, block_hash },
        ImportPhase::Done(_) => ImportAction::Finished,
    }
}

/// The phase of a pending import after an event. An event that does not
/// answer the pending action leaves the phase as it is.
pub open spec fn next_pending_phase(
    block: PreValidatedPendingBlock,
    validation: BlockValidationContext,
    phase: PendingImportPhase,
    event: ImportEvent,
) -> PendingImportPhase {
    match (phase, event) {
        (PendingImportPhase::AwaitingLatestBlock, ImportEvent::LatestBlock(Err(error))) => PendingImportPhase::Done(
            Err(BlockImportError::InternalDb { context: DbOperation::GettingLatestBlockInfo, error }),
        ),
        (PendingImportPhase::AwaitingLatestBlock, ImportEvent::LatestBlock(Ok(latest))) => {
            match continuity(latest, block.header.parent_block_hash, None, validation.ignore_block_order) {
                Err(e) => PendingImportPhase::Done(Err(e)),
                Ok((_, parent_block_hash)) => PendingImportPhase::AwaitingStore {
                    header: pending_header_of(block.header, parent_block_hash),
                },
            }
        },
        (PendingImportPhase::AwaitingStore { .. }, ImportEvent::BlockStored(Err(error))) => PendingImportPhase::Done(
            Err(BlockImportError::InternalDb { context: DbOperation::StoringBlock, error }),
        ),
        (PendingImportPhase::AwaitingStore { .. }, ImportEvent::BlockStored(Ok(_))) => PendingImportPhase::Done(
            Ok(PendingBlockImportResult {  }),
        ),
        _ => phase,
    }
}

/// The action that a phase of a pending import asks for.
pub open spec fn pending_action_for(phase: PendingImportPhase) -> ImportAction {
    match phase {
        PendingImportPhase::AwaitingLatestBlock => ImportAction::ReadLatestBlock,
        PendingImportPhase::AwaitingStore { header } => ImportAction::StorePendingBlock { header },
        PendingImportPhase::Done(_) => ImportAction::Finished,
    }
}

/// The import of one finalized block: check continuity, update the tries (or
/// trust the asserted root), build the header, check its hash, store it.
///
/// The driver performs each action against the store and hands back the
/// event; it must hold the node's single import lock from `new` until the
/// import is done, so that no other import, finalized or pending, interleaves.
pub struct BlockImport {
    pub block: PreValidatedBlock,
    pub validation: BlockValidationContext,
    pub phase: ImportPhase,
}

impl BlockImport {
    /// Starts the import of `block`; its first action is to read the latest block.
    pub fn new(block: PreValidatedBlock, validation: BlockValidationContext) -> (r: BlockImport)
        ensures
            r.block == block,
            r.validation == validation,
            r.phase == ImportPhase::AwaitingLatestBlock,
    {
        BlockImport { block, validation, phase: ImportPhase::AwaitingLatestBlock }
    }

    /// The action the import asks for now.
    pub fn next_action(&self) -> (r: ImportAction)
        ensures
            r == action_for(self.phase),
    {
        match &self.phase {
            ImportPhase::AwaitingLatestBlock => ImportAction::ReadLatestBlock,
            ImportPhase::AwaitingTries { block_number, .. } => ImportAction::UpdateTries {
                block_number: *block_number,
            },
            ImportPhase::AwaitingBlockHash { header } => ImportAction::ComputeBlockHash { header: *header },
            ImportPhase::AwaitingStore { header, block_hash } => ImportAction::StoreBlock {
                header: *header,
                block_hash: *block_hash,
            },
            ImportPhase::Done(_) => ImportAction::Finished,
        }
    }

    /// Takes the answer to the last action, and returns the next action.
    pub fn step(&mut self, event: ImportEvent) -> (r: ImportAction)
        ensures
            final(self).block == old(self).block,
            final(self).validation == old(self).validation,
            final(self).phase == next_phase(old(self).block, old(self).validation, old(self).phase, event),
            r == action_for(final(self).phase),
    {
        let next = match (&self.phase, event) {
            (ImportPhase::AwaitingLatestBlock, ImportEvent::LatestBlock(Err(error))) => Some(ImportPhase::Done(
                Err(BlockImportError::InternalDb { context: DbOperation::GettingLatestBlockInfo, error }),
            )),
            (ImportPhase::AwaitingLatestBlock, ImportEvent::LatestBlock(Ok(latest))) => {
                Some(match check_parent_hash_and_num(
                    latest,
                    self.block.header.parent_block_hash,
                    self.block.unverified_block_number,
                    &self.validation,
                ) {
                    Err(e) => ImportPhase::Done(Err(e)),
                    Ok((block_number, parent_block_hash)) => {
                        if self.validation.trust_global_tries {
                            match trusted_global_state_root(self.block.unverified_global_state_root) {
                                Err(e) => ImportPhase::Done(Err(e)),
                                Ok(root) => ImportPhase::AwaitingBlockHash {
                                    header: build_header(&self.block, block_number, parent_block_hash, root),
                                },
                            }
                        } else {
                            ImportPhase::AwaitingTries { block_number, parent_block_hash }
                        }
                    },
                })
            },
            (
                ImportPhase::AwaitingTries { block_number, parent_block_hash },
                ImportEvent::TrieRoots { contract_trie_root, class_trie_root },
            ) => {
                Some(match verify_global_state_root(
                    contract_trie_root,
                    class_trie_root,
                    self.block.unverified_global_state_root,
                ) {
                    Err(e) => ImportPhase::Done(Err(e)),
                    Ok(root) => ImportPhase::AwaitingBlockHash {
                        header: build_header(&self.block, *block_number, *parent_block_hash, root),
                    },
                })
            },
            (ImportPhase::AwaitingBlockHash { header }, ImportEvent::BlockHashComputed(computed)) => {
                Some(match block_hash(
                    self.block.unverified_block_hash,
                    computed,
                    &self.validation.chain_id,
                    header.block_number,
                    self.validation.ignore_block_order,
                ) {
                    Err(e) => ImportPhase::Done(Err(e)),
                    Ok(resolved) => ImportPhase::AwaitingStore { header: *header, block_hash: resolved },
                })
            },
            (ImportPhase::AwaitingStore { .. }, ImportEvent::BlockStored(Err(error))) => Some(ImportPhase::Done(
                Err(BlockImportError::InternalDb { context: DbOperation::StoringBlock, error }),
            )),
            (ImportPhase::AwaitingStore { header, block_hash }, ImportEvent::BlockStored(Ok(_))) => {
                Some(ImportPhase::Done(Ok(BlockImportResult { header: *header, block_hash: *block_hash })))
            },
            _ => None,
        };
        if let Some(phase) = next {
            self.phase = phase;
        }
        self.next_action()
    }

    /// The outcome, once the import is done.
    pub fn into_result(self) -> (r: Option<Result<BlockImportResult, BlockImportError>>)
        ensures
            r == match self.phase {
                ImportPhase::Done(outcome) => Some(outcome),
                _ => None,
            },
    {
        match self.phase {
            ImportPhase::Done(outcome) => Some(outcome),
            _ => None,
        }
    }
}

/// The import of one pending block: check the parent hash against the latest
/// finalized block, build the pending header, store it.
///
/// As for [`BlockImport`], the driver holds the single import lock throughout.
pub struct PendingBlockImport {
    pub block: PreValidatedPendingBlock,
    pub validation: BlockValidationContext,
    pub phase: PendingImportPhase,
}

impl PendingBlockImport {
    /// Starts the import of `block`; its first action is to read the latest block.
    pub fn new(block: PreValidatedPendingBlock, validation: BlockValidationContext) -> (r: PendingBlockImport)
        ensures
            r.block == block,
            r.validation == validation,
            r.phase == PendingImportPhase::AwaitingLatestBlock,
    {
        PendingBlockImport { block, validation, phase: PendingImportPhase::AwaitingLatestBlock }
    }

    /// The action the import asks for now.
    pub fn next_action(&self) -> (r: ImportAction)
        ensures
            r == pending_action_for(self.phase),
    {
        match &self.phase {
            PendingImportPhase::AwaitingLatestBlock => ImportAction::ReadLatestBlock,
            PendingImportPhase::AwaitingStore { header } => ImportAction::StorePendingBlock { header: *header },
            PendingImportPhase::Done(_) => ImportAction::Finished,
        }
    }

    /// Takes the answer to the last action, and returns the next action.
    pub fn step(&mut self, event: ImportEvent) -> (r: ImportAction)
        ensures
            final(self).block == old(self).block,
            final(self).validation == old(self).validation,
            final(self).phase == next_pending_phase(old(self).block, old(self).validation, old(self).phase, event),
            r == pending_action_for(final(self).phase),
    {
        let next = match (&self.phase, event) {
            (PendingImportPhase::AwaitingLatestBlock, ImportEvent::LatestBlock(Err(error))) => Some(
                PendingImportPhase::Done(
                    Err(BlockImportError::InternalDb { context: DbOperation::GettingLatestBlockInfo, error }),
                ),
            ),
            (PendingImportPhase::AwaitingLatestBlock, ImportEvent::LatestBlock(Ok(latest))) => {
                Some(match check_parent_hash_and_num(
                    latest,
                    self.block.header.parent_block_hash,
                    None,
                    &self.validation,
                ) {
                    Err(e) => PendingImportPhase::Done(Err(e)),
                    Ok((_, parent_block_hash)) => PendingImportPhase::AwaitingStore {
                        header: build_pending_header(&self.block.header, parent_block_hash),
                    },
                })
            },
            (PendingImportPhase::AwaitingStore { .. }, ImportEvent::BlockStored(Err(error))) => Some(
                PendingImportPhase::Done(
                    Err(BlockImportError::InternalDb { context: DbOperation::StoringBlock, error }),
                ),
            ),
            (PendingImportPhase::AwaitingStore { .. }, ImportEvent::BlockStored(Ok(_))) => Some(
                PendingImportPhase::Done(Ok(PendingBlockImportResult {  })),
            ),
            _ => None,
        };
        if let Some(phase) = next {
            self.phase = phase;
        }
        self.next_action()
    }

    /// The outcome, once the import is done.
    pub fn into_result(self) -> (r: Option<Result<PendingBlockImportResult, BlockImportError>>)
        ensures
            r == match self.phase {
                PendingImportPhase::Done(outcome) => Some(outcome),
                _ => None,
            },
    {
        match self.phase {
            PendingImportPhase::Done(outcome) => Some(outcome),
            _ => None,
        }
    }
}

/// Genesis: with no latest block and the order not ignored, a block that
/// passes is block 0 with parent zero, and a claimed number other than 0
/// fails with a block-number mismatch.
pub proof fn lemma_genesis(parent_block_hash: Option<Felt>, unverified_block_number: Option<u64>)
    ensures
        continuity(None, parent_block_hash, unverified_block_number, false) matches Ok((n, p)) ==> n == 0 && p
            == zero_felt(),
        unverified_block_number is Some && unverified_block_number->0 != 0 ==> continuity(
            None,
            parent_block_hash,
            unverified_block_number,
            false,
        ) == Err::<(u64, Felt), BlockImportError>(
            BlockImportError::LatestBlockN { expected: 0, got: unverified_block_number->0 },
        ),
{
}

/// Whether a phase of a finalized import is anchored on the latest block
/// `n`, `h`: the block it builds is number `n + 1` and has parent `h`.
pub open spec fn anchored_on(phase: ImportPhase, n: u64, h: Felt) -> bool {
    match phase {
        ImportPhase::AwaitingLatestBlock => false,
        ImportPhase::AwaitingTries { block_number, parent_block_hash } => block_number == n + 1
            && parent_block_hash == h,
        ImportPhase::AwaitingBlockHash { header } => header.block_number == n + 1 && header.parent_block_hash == h,
        ImportPhase::AwaitingStore { header, .. } => header.block_number == n + 1 && header.parent_block_hash
            == h,
        ImportPhase::Done(Ok(result)) => result.header.block_number == n + 1 && result.header.parent_block_hash
            == h,
        ImportPhase::Done(Err(_)) => true,
    }
}

/// Chain continuity, first half: when the latest block is finalized block `n`
/// with hash `h` and the order is not ignored, what the import goes on with
/// after reading it is block `n + 1` with parent `h`, whatever the block claims.
pub proof fn lemma_continuity_anchors_import(
    block: PreValidatedBlock,
    validation: BlockValidationContext,
    n: u64,
    h: Felt,
)
    requires
        !validation.ignore_block_order,
    ensures
        anchored_on(
            next_phase(
                block,
                validation,
                ImportPhase::AwaitingLatestBlock,
                ImportEvent::LatestBlock(Ok(Some(LatestBlockInfo::Finalized { block_number: n, block_hash: h }))),
            ),
            n,
            h,
        ),
{
}

/// Chain continuity, second half: every later step keeps the anchor, so an
/// import that succeeds stores block `n + 1` with parent `h`.
pub proof fn lemma_anchor_kept(
    block: PreValidatedBlock,
    validation: BlockValidationContext,
    phase: ImportPhase,
    event: ImportEvent,
    n: u64,
    h: Felt,
)
    requires
        anchored_on(phase, n, h),
    ensures
        anchored_on(next_phase(block, validation, phase, event), n, h),
{
}

/// The trusted-trie fast path: with trusted tries, a block that passes the
/// continuity check goes straight to its hash with the asserted root as its
/// global state root, and no trie update is asked for; without an asserted
/// root the import fails with an internal error.
pub proof fn lemma_trusted_tries(
    block: PreValidatedBlock,
    validation: BlockValidationContext,
    latest: Option<LatestBlockInfo>,
)
    requires
        validation.trust_global_tries,
    ensures
        ({
            let checked = continuity(
                latest,
                block.header.parent_block_hash,
                block.unverified_block_number,
                validation.ignore_block_order,
            );
            let next = next_phase(block, validation, ImportPhase::AwaitingLatestBlock, ImportEvent::LatestBlock(Ok(latest)));
            checked matches Ok((number, parent)) ==> match block.unverified_global_state_root {
                Some(root) => next == ImportPhase::AwaitingBlockHash { header: header_of(block, number, parent, root) }
                    && header_of(block, number, parent, root).global_state_root == root,
                None => next == ImportPhase::Done(
                    Err(BlockImportError::Internal(InternalError::MissingGlobalStateRoot)),
                ),
            }
        }),
        !(action_for(next_phase(block, validation, ImportPhase::AwaitingLatestBlock, ImportEvent::LatestBlock(Ok(latest)))) is UpdateTries),
{
}

} // verus!
