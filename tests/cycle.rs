use external_service::discovery::{DiscoveredEvent, EthEvent, EthEventId};
use external_service::event_data::{AvtLowerClaimedData, EventData};
use external_service::events::AppError;
use external_service::orchestrator::{
    find_current_node_author, is_evm_block_finalised, plan_instance, EthBlockRange,
    EthBridgeInstance, InstanceAction, ETH_FINALITY,
};
use external_service::pool::{after_failed_attempt, parse_endpoints, ClientPool, EndpointProbe, RETRY_LIMIT};
use external_service::votes::{
    create_partitions, events_vote_proof, latest_block_proof, select_partition,
    SUBMIT_LATEST_ETH_BLOCK_CONTEXT,
};

#[test]
fn range_is_final_only_after_twenty_confirmations() {
    assert!(!is_evm_block_finalised(119, 100, ETH_FINALITY));
    assert!(is_evm_block_finalised(120, 100, ETH_FINALITY));
    assert!(!is_evm_block_finalised(u64::MAX, u64::MAX, 1));
    let range = EthBlockRange { start_block: 90, end_block: 100 };
    assert_eq!(plan_instance(Some(range), 119, false), InstanceAction::AwaitFinality);
    assert_eq!(plan_instance(Some(range), 120, false), InstanceAction::VoteOnRange);
    assert_eq!(plan_instance(Some(range), 120, true), InstanceAction::NothingToDo);
    assert_eq!(plan_instance(None, 5, false), InstanceAction::SubmitLatestBlock);
    assert_eq!(plan_instance(None, 5, true), InstanceAction::NothingToDo);
}

#[test]
fn pool_fails_over_to_the_next_endpoint_and_caches() {
    let mut pool: ClientPool<String> = ClientPool::new();
    let probes = vec![
        EndpointProbe::Unreachable,
        EndpointProbe::Connected { chain_id: 42, client: "good".to_string() },
    ];
    let mut found_at = None;
    for (i, probe) in probes.into_iter().enumerate() {
        if pool.record_endpoint(42, probe) {
            found_at = Some(i);
            break;
        }
    }
    assert_eq!(found_at, Some(1));
    assert_eq!(pool.get(42), Some(&"good".to_string()));
    // A second request is served from the cache, before any endpoint is probed.
    assert_eq!(pool.get(42).cloned(), Some("good".to_string()));
}

#[test]
fn pool_caches_other_chains_and_keeps_first_client() {
    let mut pool: ClientPool<u32> = ClientPool::new();
    assert!(!pool.record_endpoint(42, EndpointProbe::Connected { chain_id: 7, client: 1 }));
    assert!(!pool.record_endpoint(42, EndpointProbe::Connected { chain_id: 7, client: 2 }));
    assert_eq!(pool.get(7), Some(&1));
    assert_eq!(pool.get(42), None);
}

#[test]
fn endpoints_that_do_not_parse_are_skipped() {
    let urls = vec!["not a url".to_string(), "http://127.0.0.1:8545".to_string()];
    let parsed = parse_endpoints(&urls);
    assert_eq!(parsed.len(), 2);
    assert!(parsed[0].is_none());
    assert_eq!(parsed[1].as_ref().unwrap().port(), Some(8545));
}

#[test]
fn three_failed_attempts_reach_the_retry_limit() {
    assert_eq!(RETRY_LIMIT, 3);
    let mut failed = 0usize;
    let mut outcome = None;
    for _ in 0..10 {
        match after_failed_attempt(failed) {
            Ok(n) => failed = n,
            Err(e) => {
                outcome = Some(e);
                break;
            },
        }
    }
    assert_eq!(failed, 2);
    assert_eq!(outcome, Some(AppError::RetryLimitReached));
}

#[test]
fn author_is_first_whose_key_is_held_locally() {
    let authors: Result<Vec<([u8; 32], [u8; 32])>, ()> =
        Ok(vec![([1; 32], [11; 32]), ([2; 32], [12; 32]), ([3; 32], [13; 32])]);
    let author = find_current_node_author(authors, vec![[13; 32], [12; 32]]).unwrap();
    assert_eq!(author.address(), [2; 32]);
    assert_eq!(author.signing_key(), [12; 32]);
    let none: Result<Vec<([u8; 32], [u8; 32])>, ()> = Ok(vec![([1; 32], [11; 32])]);
    assert!(find_current_node_author(none, vec![[12; 32]]).is_none());
    let failed: Result<Vec<([u8; 32], [u8; 32])>, &str> = Err("unavailable");
    assert!(find_current_node_author(failed, vec![[11; 32]]).is_none());
}

fn event(n: u32) -> DiscoveredEvent {
    DiscoveredEvent {
        event: EthEvent {
            event_id: EthEventId { signature: [1; 32], transaction_hash: [n as u8; 32] },
            event_data: EventData::LogLowerClaimed(AvtLowerClaimedData { lower_id: n }),
        },
        block: n as u64,
    }
}

#[test]
fn events_are_split_into_numbered_partitions() {
    let range = EthBlockRange { start_block: 1, end_block: 50 };
    let events: Vec<DiscoveredEvent> = (0..70).map(event).collect();
    let parts = create_partitions(range, &events);
    assert_eq!(parts.len(), 3);
    assert_eq!(parts[0].data.len(), 32);
    assert_eq!(parts[2].data.len(), 6);
    assert_eq!(parts[1].data[0], event(32));
    assert!(parts[2].is_last && !parts[0].is_last);
    assert_eq!(select_partition(&parts, 2).unwrap().id(), 2);
    assert!(select_partition(&parts, 3).is_none());

    let empty = create_partitions(range, &vec![]);
    assert_eq!(empty.len(), 1);
    assert!(empty[0].is_last && empty[0].data.is_empty());
}

#[test]
fn vote_payloads_have_context_instance_author_and_body() {
    let instance = EthBridgeInstance { chain_id: 0x0102, bridge_contract: [0xbb; 20] };
    let proof = latest_block_proof(7, &instance, &[0xaa; 32], 0x0a0b0c);
    let mut expected = SUBMIT_LATEST_ETH_BLOCK_CONTEXT.to_vec();
    expected.extend_from_slice(&[7, 0, 0, 0]);
    expected.extend_from_slice(&[2, 1, 0, 0, 0, 0, 0, 0]);
    expected.extend_from_slice(&[0xbb; 20]);
    expected.extend_from_slice(&[0xaa; 32]);
    expected.extend_from_slice(&[0x0c, 0x0b, 0x0a, 0, 0, 0, 0, 0]);
    assert_eq!(proof, expected);

    let range = EthBlockRange { start_block: 1, end_block: 2 };
    let parts = create_partitions(range, &vec![event(3)]);
    let vote = events_vote_proof(7, &instance, &[0xaa; 32], &parts[0]);
    assert_eq!(vote.len(), 26 + 4 + 8 + 20 + 32 + 4 + 4 + 2 + 1 + 4 + 72);
    assert_eq!(vote[vote.len() - 8..], [3, 0, 0, 0, 0, 0, 0, 0]);
}
