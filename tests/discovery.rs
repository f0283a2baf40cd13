use external_service::chain::{ChainLog, ChainReceipt};
use external_service::discovery::{
    merge_discovered_logs, needs_secondary_discovery, parse_log, primary_events_filter,
    receipt_block_numbers, secondary_events_filter, DiscoveredEvent,
};
use external_service::event_data::{EventData, LiftedData};
use external_service::events::{
    AppError, ValidEvents, AVT_GROWTH_LIFTED_SIGNATURE, AVT_LOWER_CLAIMED_SIGNATURE,
    ERC20_DIRECT_TRANSFER_SIGNATURE, LIFTED_SIGNATURE,
};
use external_service::registry::EventRegistry;

fn address(b: u8) -> [u8; 20] {
    [b; 20]
}

fn address_topic(a: [u8; 20]) -> [u8; 32] {
    let mut t = [0u8; 32];
    t[12..].copy_from_slice(&a);
    t
}

fn uint_word(v: u128) -> Vec<u8> {
    let mut w = vec![0u8; 16];
    w.extend_from_slice(&v.to_be_bytes());
    w
}

fn lift_log(tx: u8, token: [u8; 20], receiver: [u8; 32], amount: u128) -> ChainLog {
    ChainLog {
        address: address(0xbb),
        topics: vec![LIFTED_SIGNATURE, address_topic(token), receiver],
        data: uint_word(amount),
        transaction_hash: Some([tx; 32]),
        block_number: Some(7),
    }
}

fn transfer_log(tx: u8, emitter: [u8; 20], from: [u8; 20], to: [u8; 20], amount: u128) -> ChainLog {
    ChainLog {
        address: emitter,
        topics: vec![ERC20_DIRECT_TRANSFER_SIGNATURE, address_topic(from), address_topic(to)],
        data: uint_word(amount),
        transaction_hash: Some([tx; 32]),
        block_number: Some(9),
    }
}

fn lower_claimed_log(tx: u8, lower_id: u32) -> ChainLog {
    ChainLog {
        address: address(0xbb),
        topics: vec![AVT_LOWER_CLAIMED_SIGNATURE],
        data: uint_word(lower_id as u128),
        transaction_hash: Some([tx; 32]),
        block_number: Some(11),
    }
}

#[test]
fn primary_event_wins_over_secondary_for_same_transaction() {
    let registry = EventRegistry::new();
    let primary = vec![lift_log(1, address(0x11), [0x22; 32], 500)];
    let secondary = vec![transfer_log(1, address(0xab), address(0x33), address(0xbb), 900)];
    let wanted = vec![LIFTED_SIGNATURE, ERC20_DIRECT_TRANSFER_SIGNATURE];
    let events = merge_discovered_logs(primary, secondary, &wanted, &registry).unwrap();
    assert_eq!(events.len(), 1);
    assert_eq!(events[0].event.event_id.signature, LIFTED_SIGNATURE);
    assert_eq!(
        events[0].event.event_data,
        EventData::LogLifted(LiftedData {
            token_contract: address(0x11),
            sender_address: [0u8; 20],
            receiver_address: [0x22; 32],
            amount: 500,
        })
    );
}

#[test]
fn logs_sharing_a_transaction_give_one_event() {
    let registry = EventRegistry::new();
    let primary = vec![
        lift_log(5, address(0x11), [0x22; 32], 1),
        lift_log(5, address(0x12), [0x23; 32], 2),
        lift_log(5, address(0x13), [0x24; 32], 3),
    ];
    let wanted = vec![LIFTED_SIGNATURE];
    let events = merge_discovered_logs(primary, vec![], &wanted, &registry).unwrap();
    assert_eq!(events.len(), 1);
    match events[0].event.event_data {
        EventData::LogLifted(d) => assert_eq!(d.amount, 1),
        other => panic!("unexpected event {:?}", other),
    }
}

#[test]
fn events_not_requested_are_left_out() {
    let registry = EventRegistry::new();
    let primary = vec![lift_log(1, address(0x11), [0x22; 32], 10), lower_claimed_log(2, 77)];
    let wanted = vec![LIFTED_SIGNATURE];
    let events = merge_discovered_logs(primary, vec![], &wanted, &registry).unwrap();
    assert_eq!(events.len(), 1);
    assert_eq!(events[0].event.event_id.transaction_hash, [1u8; 32]);
    assert_eq!(events[0].block, 7);

    let wanted_lower = vec![AVT_LOWER_CLAIMED_SIGNATURE];
    let primary = vec![lift_log(1, address(0x11), [0x22; 32], 10), lower_claimed_log(2, 77)];
    let events = merge_discovered_logs(primary, vec![], &wanted_lower, &registry).unwrap();
    assert_eq!(events.len(), 1);
    assert_eq!(
        events[0].event.event_data,
        EventData::LogLowerClaimed(external_service::event_data::AvtLowerClaimedData {
            lower_id: 77
        })
    );
}

#[test]
fn direct_transfer_with_zero_token_takes_emitter_address() {
    let registry = EventRegistry::new();
    let mut emitter = [0u8; 20];
    emitter[0] = 0xab;
    emitter[1] = 0xcd;
    let log = transfer_log(3, emitter, address(0x33), address(0xbb), 42);
    let ev: DiscoveredEvent = parse_log(&log, &registry).unwrap();
    match ev.event.event_data {
        EventData::LogErc20Transfer(d) => {
            assert_eq!(d.token_contract, emitter);
            assert_eq!(d.sender_address, address(0x33));
            assert_eq!(d.amount, 42);
        },
        other => panic!("unexpected event {:?}", other),
    }
}

#[test]
fn log_without_topics_fails_discovery() {
    let registry = EventRegistry::new();
    let bad = ChainLog {
        address: address(0xbb),
        topics: vec![],
        data: vec![],
        transaction_hash: Some([9u8; 32]),
        block_number: Some(1),
    };
    let wanted = vec![LIFTED_SIGNATURE];
    let r = merge_discovered_logs(vec![bad], vec![], &wanted, &registry);
    assert_eq!(r, Err(AppError::MissingEventSignature));
}

#[test]
fn log_without_transaction_hash_is_rejected() {
    let registry = EventRegistry::new();
    let mut log = lift_log(1, address(0x11), [0x22; 32], 10);
    log.transaction_hash = None;
    assert_eq!(parse_log(&log, &registry), Err(AppError::MissingTransactionHash));
    let mut log = lift_log(1, address(0x11), [0x22; 32], 10);
    log.block_number = None;
    assert_eq!(parse_log(&log, &registry), Err(AppError::MissingBlockNumber));
}

#[test]
fn unknown_signature_and_bad_data_fail_to_parse() {
    let registry = EventRegistry::new();
    let mut log = lift_log(1, address(0x11), [0x22; 32], 10);
    log.topics[0] = [0x01; 32];
    assert_eq!(parse_log(&log, &registry), Err(AppError::ErrorParsingEventLogs));

    let mut log = lift_log(1, address(0x11), [0x22; 32], 10);
    log.data = vec![0xff; 32];
    assert_eq!(parse_log(&log, &registry), Err(AppError::ErrorParsingEventLogs));

    let mut log = lift_log(1, address(0x11), [0x22; 32], 10);
    log.topics[1] = [0xff; 32];
    assert_eq!(parse_log(&log, &registry), Err(AppError::ErrorParsingEventLogs));
}

#[test]
fn growth_event_decodes_amount_and_period() {
    let registry = EventRegistry::new();
    let mut data = uint_word(1_000_000);
    data.extend(uint_word(12));
    let log = ChainLog {
        address: address(0xbb),
        topics: vec![AVT_GROWTH_LIFTED_SIGNATURE],
        data,
        transaction_hash: Some([4u8; 32]),
        block_number: Some(100),
    };
    let ev = parse_log(&log, &registry).unwrap();
    assert_eq!(
        ev.event.event_data,
        EventData::LogAvtGrowthLifted(external_service::event_data::AvtGrowthLiftedData {
            amount: 1_000_000,
            period: 12,
        })
    );
    assert_eq!(ev.block, 100);
}

#[test]
fn registry_knows_every_event() {
    let registry = EventRegistry::new();
    for k in ValidEvents::values() {
        let info = registry.get_event_info(&k.signature()).unwrap();
        assert_eq!(info.kind, k);
    }
    assert!(registry.get_event_info(&[0u8; 32]).is_none());
    assert_eq!(ValidEvents::Lifted.signature()[..4], [0x41, 0x8d, 0xa8, 0xf8]);
}

#[test]
fn filters_query_primary_and_secondary_events() {
    let bridge = address(0xbb);
    let primary = primary_events_filter(10, 20, &vec![bridge]);
    assert_eq!((primary.from_block, primary.to_block), (10, 20));
    assert_eq!(primary.addresses, vec![bridge]);
    let t0 = primary.topics[0].clone().unwrap();
    assert_eq!(t0.len(), 10);
    assert!(!t0.contains(&ERC20_DIRECT_TRANSFER_SIGNATURE));
    assert!(primary.topics[2].is_none());

    let secondary = secondary_events_filter(10, 20, &vec![bridge]);
    assert!(secondary.addresses.is_empty());
    assert_eq!(secondary.topics[0].clone().unwrap(), vec![ERC20_DIRECT_TRANSFER_SIGNATURE]);
    assert_eq!(secondary.topics[2].clone().unwrap(), vec![address_topic(bridge)]);
    assert!(secondary.topics[1].is_none() && secondary.topics[3].is_none());
}

#[test]
fn secondary_query_only_when_a_secondary_event_is_requested() {
    assert!(!needs_secondary_discovery(&vec![LIFTED_SIGNATURE]));
    assert!(needs_secondary_discovery(&vec![LIFTED_SIGNATURE, ERC20_DIRECT_TRANSFER_SIGNATURE]));
    assert!(!needs_secondary_discovery(&vec![]));
}

#[test]
fn receipts_give_blocks_of_found_transactions() {
    let receipts = vec![
        Some(ChainReceipt { block_number: Some(5), json: vec![] }),
        None,
        Some(ChainReceipt { block_number: None, json: vec![1] }),
        Some(ChainReceipt { block_number: Some(8), json: vec![] }),
    ];
    assert_eq!(receipt_block_numbers(&receipts), vec![5, 8]);
}
