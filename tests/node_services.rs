use block_import::felt::Felt;
use block_import::gateway::GatewayConfig;
use block_import::l1::{core_contract_exists, event_search_range, last_event_block_number, L1EventError};
use block_import::rpc::{block_hash_and_number, StarknetRpcApiError};
use block_import::types::LatestBlockInfo;

#[test]
fn test_block_hash_and_number() {
    let r = block_hash_and_number(Some(LatestBlockInfo::Finalized { block_number: 0, block_hash: Felt::from_u64(1) }))
        .unwrap();
    assert_eq!(r.block_hash, Felt::from_u64(1));
    assert_eq!(r.block_number, 0);
    let r = block_hash_and_number(Some(LatestBlockInfo::Finalized {
        block_number: 1,
        block_hash: Felt::from_u64(0x12345),
    }))
    .unwrap();
    assert_eq!(r.block_hash, Felt::from_u64(0x12345));
    assert_eq!(r.block_number, 1);
}

#[test]
fn head_query_errors() {
    assert_eq!(
        block_hash_and_number(Some(LatestBlockInfo::Pending)).unwrap_err(),
        StarknetRpcApiError::InternalServerError
    );
    assert_eq!(block_hash_and_number(None).unwrap_err(), StarknetRpcApiError::BlockNotFound);
}

#[test]
fn event_search_covers_the_last_six_thousand_blocks() {
    assert_eq!(event_search_range(20395662), (20389662, 20395662));
    assert_eq!(event_search_range(6000), (0, 6000));
}

#[test]
fn last_event_is_the_last_decoded_log() {
    assert_eq!(last_event_block_number(&vec![Some(5), Some(9)]), Ok(9));
    assert_eq!(last_event_block_number(&vec![]), Err(L1EventError::NoEventFound));
    assert_eq!(last_event_block_number(&vec![Some(5), None]), Err(L1EventError::NoBlockNumberInLog));
}

#[test]
fn core_contract_needs_code() {
    assert!(!core_contract_exists(&vec![]));
    assert!(core_contract_exists(&vec![0x60, 0x80]));
}

#[test]
fn gateway_starts_when_either_is_enabled() {
    let mut c = GatewayConfig { feeder_gateway_enable: false, gateway_enable: false, gateway_external: false, gateway_port: 8080 };
    assert!(!c.should_start());
    c.gateway_enable = true;
    assert!(c.should_start());
    c = GatewayConfig { feeder_gateway_enable: true, gateway_enable: false, gateway_external: true, gateway_port: 8080 };
    assert!(c.should_start());
}
