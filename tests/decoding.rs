use external_service::bytes::{address_to_topic, hash_eq, word_to_address, word_to_uint};
use external_service::event_data::{
    decode_event_data, AddedValidatorData, EventData, LiftedData, LowerRevertedData,
    NftCancelListingData, NftEndBatchListingData, NftMintData, NftTransferToData,
};
use external_service::events::{AppError, ValidEvents};

fn word(v: u128) -> Vec<u8> {
    let mut w = vec![0u8; 16];
    w.extend_from_slice(&v.to_be_bytes());
    w
}

fn topic_of(a: [u8; 20]) -> [u8; 32] {
    let mut t = [0u8; 32];
    t[12..].copy_from_slice(&a);
    t
}

#[test]
fn added_validator_reads_keys_and_transaction_id() {
    let k = ValidEvents::AddedValidator;
    let topics = vec![k.signature(), [1; 32], [2; 32], [3; 32]];
    let r = decode_event_data(k, &word(99), &topics).unwrap();
    assert_eq!(
        r,
        EventData::LogAddedValidator(AddedValidatorData {
            eth_public_key_lhs: [1; 32],
            eth_public_key_rhs: [2; 32],
            t2_public_key: [3; 32],
            t2_tx_id: 99,
        })
    );
    let too_big = word(1u128 << 64);
    assert_eq!(decode_event_data(k, &too_big, &topics), Err(AppError::ErrorParsingEventLogs));
}

#[test]
fn prediction_market_lift_reads_like_a_lift() {
    let k = ValidEvents::LiftedToPredictionMarket;
    let topics = vec![k.signature(), topic_of([7; 20]), [8; 32]];
    let r = decode_event_data(k, &word(1234), &topics).unwrap();
    assert_eq!(
        r,
        EventData::LogLiftedToPredictionMarket(LiftedData {
            token_contract: [7; 20],
            sender_address: [0; 20],
            receiver_address: [8; 32],
            amount: 1234,
        })
    );
    assert_eq!(
        decode_event_data(k, &word(1), &topics[..2].to_vec()),
        Err(AppError::ErrorParsingEventLogs)
    );
}

#[test]
fn nft_events_read_their_words() {
    let mut data = word(5);
    data.extend(word(6));
    data.extend(vec![9u8; 32]);
    let k = ValidEvents::NftMint;
    assert_eq!(
        decode_event_data(k, &data, &vec![k.signature()]).unwrap(),
        EventData::LogNftMinted(NftMintData { nft_id: 5, sale_index: 6, t2_owner_public_key: [9; 32] })
    );
    let mut data = word(5);
    data.extend(vec![9u8; 32]);
    data.extend(word(6));
    let k = ValidEvents::NftTransferTo;
    assert_eq!(
        decode_event_data(k, &data, &vec![k.signature()]).unwrap(),
        EventData::LogNftTransferTo(NftTransferToData {
            nft_id: 5,
            t2_transfer_to_public_key: [9; 32],
            op_id: 6,
        })
    );
    let mut data = word(5);
    data.extend(word(6));
    let k = ValidEvents::NftCancelListing;
    assert_eq!(
        decode_event_data(k, &data, &vec![k.signature()]).unwrap(),
        EventData::LogNftCancelListing(NftCancelListingData { nft_id: 5, op_id: 6 })
    );
    let k = ValidEvents::NftEndBatchListing;
    assert_eq!(
        decode_event_data(k, &word(77), &vec![k.signature()]).unwrap(),
        EventData::LogNftEndBatchListing(NftEndBatchListingData { batch_id: 77 })
    );
    assert_eq!(
        decode_event_data(k, &vec![0u8; 31], &vec![k.signature()]),
        Err(AppError::ErrorParsingEventLogs)
    );
}

#[test]
fn lower_reverted_reads_token_sender_amount_and_id() {
    let k = ValidEvents::LowerReverted;
    let mut data = word(500);
    data.extend(word(3));
    let topics = vec![k.signature(), topic_of([4; 20]), [5; 32]];
    assert_eq!(
        decode_event_data(k, &data, &topics).unwrap(),
        EventData::LogLowerReverted(LowerRevertedData {
            token_contract: [4; 20],
            t2_sender_public_key: [5; 32],
            amount: 500,
            lower_id: 3,
        })
    );
    let mut data = word(500);
    data.extend(word(1u128 << 32));
    assert_eq!(decode_event_data(k, &data, &topics), Err(AppError::ErrorParsingEventLogs));
}

#[test]
fn word_helpers_read_big_endian_values() {
    let mut w = [0u8; 32];
    w[30] = 1;
    w[31] = 2;
    assert_eq!(word_to_uint(&w, 4), Some(258));
    w[0] = 1;
    assert_eq!(word_to_uint(&w, 16), None);
    assert_eq!(word_to_address(&topic_of([6; 20])), Some([6; 20]));
    assert_eq!(word_to_address(&[1; 32]), None);
    assert_eq!(address_to_topic(&[6; 20]), topic_of([6; 20]));
    assert!(hash_eq(&[3; 32], &[3; 32]));
    assert!(!hash_eq(&[3; 32], &[4; 32]));
}
