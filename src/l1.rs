use vstd::prelude::*;

verus! {

/// How many L1 blocks back the search for the last event goes: about a day
/// at fifteen seconds a block.
pub const EVENT_LOOKBACK_BLOCKS: u64 = 6000;

/// Why the last occurrence of an event on L1 could not be found.
#[derive(Clone, Copy, Debug, PartialEq, Eq, Structural)]
pub enum L1EventError {
    /// No log in the searched range decodes as the event.
    NoEventFound,
    /// The last such log carries no block number.
    NoBlockNumberInLog,
}

/// The inclusive range of L1 blocks searched for an event, ending at the
/// latest L1 block.
pub fn event_search_range(latest_block: u64) -> (r: (u64, u64))
    requires
        latest_block >= EVENT_LOOKBACK_BLOCKS,
    ensures
        r == ((latest_block - EVENT_LOOKBACK_BLOCKS) as u64, latest_block),
{
    (latest_block - EVENT_LOOKBACK_BLOCKS, latest_block)
}

/// The L1 block of the last occurrence of an event, given, in order, the
/// block number of each log of the range that decodes as the event.
pub fn last_event_block_number(decoded_logs: &Vec<Option<u64>>) -> (r: Result<u64, L1EventError>)
    ensures
        r == if decoded_logs@.len() == 0 {
            Err(L1EventError::NoEventFound)
        } else {
            match decoded_logs@.last() {
                Some(block_number) => Ok(block_number),
                None => Err(L1EventError::NoBlockNumberInLog),
            }
        },
{
    let n = decoded_logs.len();
    if n == 0 {
        return Err(L1EventError::NoEventFound);
    }
    match decoded_logs[n - 1] {
        Some(block_number) => Ok(block_number),
        None => Err(L1EventError::NoBlockNumberInLog),
    }
}

/// Whether the L1 core contract is deployed, from the code found at its address.
pub fn core_contract_exists(bytecode: &Vec<u8>) -> (r: bool)
    ensures
        r == (bytecode@.len() > 0),
{
    bytecode.len() > 0
}

} // verus!
