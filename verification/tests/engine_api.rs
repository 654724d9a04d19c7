//! Tests of the Engine API service against a consensus-engine channel
//! and in-memory stores.

use engine_api::chain_spec::ChainSpec;
use engine_api::engine_api::{EngineApi, MAX_PAYLOAD_BODIES_LIMIT};
use engine_api::error::EngineApiError;
use engine_api::message::BeaconEngineMessage;
use engine_api::payload_store::PayloadStore;
use engine_api::store::{Block, BlockStore};
use engine_api::types::{
    BlockHash, ExecutionPayload, ExecutionPayloadBody, PayloadStatus, PayloadStatusTag,
    TransitionConfiguration, Withdrawal, U256,
};

use tokio::sync::mpsc::UnboundedReceiver;

const SHANGHAI_TIME: u64 = 1_681_338_455;
const PARIS_TTD_LOW: u64 = 58_750;

fn test_chain_spec() -> ChainSpec {
    ChainSpec {
        shanghai_time: Some(SHANGHAI_TIME),
        paris_ttd: Some(U256::from_low(PARIS_TTD_LOW)),
    }
}

fn setup_engine_api() -> (UnboundedReceiver<BeaconEngineMessage>, EngineApi) {
    let (to_beacon_consensus, engine_rx) = tokio::sync::mpsc::unbounded_channel();
    let api = EngineApi::new(
        BlockStore::new(),
        test_chain_spec(),
        to_beacon_consensus,
        PayloadStore::new(),
    );
    (engine_rx, api)
}

fn default_payload() -> ExecutionPayload {
    ExecutionPayload {
        parent_hash: BlockHash::zero(),
        block_hash: BlockHash::zero(),
        block_number: 0,
        prev_randao: BlockHash::zero(),
        timestamp: 0,
        transactions: vec![],
        withdrawals: None,
    }
}

/// A deterministic block whose hash and contents depend on its number.
fn sample_block(number: u64, salt: u64) -> Block {
    Block {
        number,
        hash: BlockHash {
            w0: number,
            w1: salt,
            w2: 0xb10c,
            w3: 0,
        },
        transactions: vec![vec![number as u8, 1, 2], vec![3]],
        ommers: vec![BlockHash::from_low(number.wrapping_add(1_000_000))],
        withdrawals: if number % 2 == 0 {
            Some(vec![Withdrawal {
                index: number,
                validator_index: 7,
                amount_gwei: 100,
            }])
        } else {
            None
        },
    }
}

fn expected_body(block: &Block) -> ExecutionPayloadBody {
    ExecutionPayloadBody {
        transactions: block.transactions.clone(),
        ommers: block.ommers.clone(),
        withdrawals: block.withdrawals.clone(),
    }
}

fn valid_status() -> PayloadStatus {
    PayloadStatus {
        status: PayloadStatusTag::Valid,
        latest_valid_hash: Some(BlockHash::from_low(9)),
        validation_error: None,
    }
}

#[test]
fn forwards_responses_to_consensus_engine() {
    let (mut engine_rx, api) = setup_engine_api();

    let payload = default_payload();
    let pending = api.new_payload_v1(payload.clone()).unwrap();

    match engine_rx.try_recv().unwrap() {
        BeaconEngineMessage::NewPayload { payload: forwarded, tx } => {
            assert_eq!(forwarded, payload);
            tx.send(Ok(valid_status())).unwrap();
        }
        _ => panic!("expected a new-payload message"),
    }

    // Exactly one message was emitted, and the engine's reply arrives on
    // the request's own slot.
    assert!(engine_rx.try_recv().is_err());
    let mut pending = pending;
    assert_eq!(pending.try_recv().unwrap(), Ok(valid_status()));
}

#[test]
fn invalid_params() {
    let (_engine_rx, api) = setup_engine_api();

    let by_range_tests = [
        // (start, count)
        (0, 0),
        (0, 1),
        (1, 0),
    ];

    for (start, count) in by_range_tests {
        let res = api.get_payload_bodies_by_range(start, count);
        assert!(matches!(res, Err(EngineApiError::InvalidBodiesRange { .. })));
    }
}

#[test]
fn request_too_large() {
    let (_engine_rx, api) = setup_engine_api();

    let request_count = MAX_PAYLOAD_BODIES_LIMIT + 1;
    let res = api.get_payload_bodies_by_range(0, request_count);
    assert_eq!(
        res,
        Err(EngineApiError::PayloadRequestTooLarge { len: 1025 })
    );
}

#[test]
fn returns_payload_bodies() {
    let (_engine_rx, mut api) = setup_engine_api();

    let (start, count) = (1u64, 10u64);
    let blocks: Vec<Block> = (start..start + count).map(|n| sample_block(n, 0)).collect();
    for block in &blocks {
        api.client.insert(block.clone());
    }

    let expected: Vec<Option<ExecutionPayloadBody>> =
        blocks.iter().map(|b| Some(expected_body(b))).collect();

    let res = api.get_payload_bodies_by_range(start, count).unwrap();
    assert_eq!(res, expected);
}

#[test]
fn returns_payload_bodies_with_gaps() {
    let (_engine_rx, mut api) = setup_engine_api();

    let (start, count) = (1u64, 100u64);
    let blocks: Vec<Block> = (start..start + count).map(|n| sample_block(n, 0)).collect();

    // Store only blocks numbered 1..=25 and 51..=75.
    let first_missing_range = 26..=50;
    let second_missing_range = 76..=100;
    for block in &blocks {
        if !first_missing_range.contains(&block.number)
            && !second_missing_range.contains(&block.number)
        {
            api.client.insert(block.clone());
        }
    }

    let expected: Vec<Option<ExecutionPayloadBody>> = blocks
        .iter()
        .map(|b| {
            if first_missing_range.contains(&b.number)
                || second_missing_range.contains(&b.number)
            {
                None
            } else {
                Some(expected_body(b))
            }
        })
        .collect();

    let res = api.get_payload_bodies_by_range(start, count).unwrap();
    assert_eq!(res, expected);

    let hashes: Vec<BlockHash> = blocks.iter().map(|b| b.hash).collect();
    let res = api.get_payload_bodies_by_hash(hashes).unwrap();
    assert_eq!(res, expected);
}

#[test]
fn terminal_td_mismatch() {
    let (_engine_rx, api) = setup_engine_api();

    let transition_config = TransitionConfiguration {
        terminal_total_difficulty: U256::from_low(PARIS_TTD_LOW + 1),
        terminal_block_hash: BlockHash::zero(),
        terminal_block_number: 0,
    };

    let res = api.exchange_transition_configuration(transition_config);

    assert_eq!(
        res,
        Err(EngineApiError::TerminalTD {
            execution: U256::from_low(PARIS_TTD_LOW),
            consensus: U256::from_low(PARIS_TTD_LOW + 1),
        })
    );
}

#[test]
fn terminal_block_hash_mismatch() {
    let (_engine_rx, mut api) = setup_engine_api();

    let terminal_block_number = 1000u64;
    let consensus_terminal_block = sample_block(terminal_block_number, 1);
    let execution_terminal_block = sample_block(terminal_block_number, 2);

    let transition_config = TransitionConfiguration {
        terminal_total_difficulty: U256::from_low(PARIS_TTD_LOW),
        terminal_block_hash: consensus_terminal_block.hash,
        terminal_block_number,
    };

    // Unknown block number.
    let res = api.exchange_transition_configuration(transition_config);
    assert_eq!(
        res,
        Err(EngineApiError::TerminalBlockHash {
            execution: None,
            consensus: consensus_terminal_block.hash,
        })
    );

    // A different block stored at that number.
    api.client.insert(execution_terminal_block.clone());
    let res = api.exchange_transition_configuration(transition_config);
    assert_eq!(
        res,
        Err(EngineApiError::TerminalBlockHash {
            execution: Some(execution_terminal_block.hash),
            consensus: consensus_terminal_block.hash,
        })
    );

    // Once the asserted block itself is stored, the exchange succeeds.
    api.client.insert(consensus_terminal_block);
    let res = api.exchange_transition_configuration(transition_config);
    assert_eq!(res, Ok(transition_config));
}

#[test]
fn configurations_match() {
    let (_engine_rx, mut api) = setup_engine_api();

    let terminal_block_number = 1000u64;
    let terminal_block = sample_block(terminal_block_number, 3);

    let transition_config = TransitionConfiguration {
        terminal_total_difficulty: U256::from_low(PARIS_TTD_LOW),
        terminal_block_hash: terminal_block.hash,
        terminal_block_number,
    };

    api.client.insert(terminal_block);

    let config = api.exchange_transition_configuration(transition_config).unwrap();
    assert_eq!(config, transition_config);
}
