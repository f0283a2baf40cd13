//! Decoded event payloads and the layout that each known event gives its
//! topics and data.
//!
//! Data is a sequence of 32-byte words. An address sits in the low twenty
//! bytes of a topic whose high twelve bytes are zero. An unsigned integer of
//! `n` bytes sits in the low `n` bytes of a word whose other bytes are zero.

use vstd::prelude::*;

use crate::bytes::{
    be_value, byte_power, leading_zero, word_to_address, word_to_uint, zero_address, ChainAddress,
    ChainHash,
};
use crate::events::{AppError, ValidEvents};

verus! {

/// A lift into the consensus chain (also used for prediction-market lifts and
/// for direct token transfers to the bridge).
#[derive(Clone, Copy, Debug, PartialEq, Eq)]
pub struct LiftedData {
    pub token_contract: ChainAddress,
    pub sender_address: ChainAddress,
    pub receiver_address: ChainHash,
    pub amount: u128,
}

#[derive(Clone, Copy, Debug, PartialEq, Eq)]
pub struct AddedValidatorData {
    pub eth_public_key_lhs: ChainHash,
    pub eth_public_key_rhs: ChainHash,
    pub t2_public_key: ChainHash,
    pub t2_tx_id: u64,
}

#[derive(Clone, Copy, Debug, PartialEq, Eq)]
pub struct NftMintData {
    pub nft_id: u128,
    pub sale_index: u64,
    pub t2_owner_public_key: ChainHash,
}

#[derive(Clone, Copy, Debug, PartialEq, Eq)]
pub struct NftTransferToData {
    pub nft_id: u128,
    pub t2_transfer_to_public_key: ChainHash,
    pub op_id: u64,
}

#[derive(Clone, Copy, Debug, PartialEq, Eq)]
pub struct NftCancelListingData {
    pub nft_id: u128,
    pub op_id: u64,
}

#[derive(Clone, Copy, Debug, PartialEq, Eq)]
pub struct NftEndBatchListingData {
    pub batch_id: u128,
}

#[derive(Clone, Copy, Debug, PartialEq, Eq)]
pub struct AvtGrowthLiftedData {
    pub amount: u128,
    pub period: u32,
}

#[derive(Clone, Copy, Debug, PartialEq, Eq)]
pub struct AvtLowerClaimedData {
    pub lower_id: u32,
}

#[derive(Clone, Copy, Debug, PartialEq, Eq)]
pub struct LowerRevertedData {
    pub token_contract: ChainAddress,
    pub t2_sender_public_key: ChainHash,
    pub amount: u128,
    pub lower_id: u32,
}

/// The decoded payload of a known event.
#[derive(Clone, Copy, Debug, PartialEq, Eq)]
pub enum EventData {
    LogAddedValidator(AddedValidatorData),
    LogLifted(LiftedData),
    LogNftMinted(NftMintData),
    LogNftTransferTo(NftTransferToData),
    LogNftCancelListing(NftCancelListingData),
    LogNftEndBatchListing(NftEndBatchListingData),
    LogAvtGrowthLifted(AvtGrowthLiftedData),
    LogLowerClaimed(AvtLowerClaimedData),
    LogLiftedToPredictionMarket(LiftedData),
    LogErc20Transfer(LiftedData),
    LogLowerReverted(LowerRevertedData),
}

/// Data word `j`.
pub open spec fn word_of(data: Seq<u8>, j: int) -> Seq<u8> {
    data.subrange(32 * j, 32 * j + 32)
}

/// Topic `i` holds an address.
pub open spec fn address_topic_ok(topics: Seq<ChainHash>, i: int) -> bool {
    leading_zero(topics[i]@, 12)
}

/// The address held by topic `i`.
pub open spec fn address_in_topic(topics: Seq<ChainHash>, i: int) -> Seq<u8> {
    topics[i]@.subrange(12, 32)
}

/// Data word `j` holds an integer of `n` bytes.
pub open spec fn uint_ok(data: Seq<u8>, j: int, n: int) -> bool {
    leading_zero(word_of(data, j), 32 - n)
}

/// The integer of `n` bytes held by data word `j`.
pub open spec fn uint_at(data: Seq<u8>, j: int, n: int) -> nat {
    be_value(word_of(data, j).subrange(32 - n, 32))
}

/// The number of topics, signature included, that event `k` carries.
pub open spec fn topic_count(k: ValidEvents) -> nat {
    match k {
        ValidEvents::AddedValidator => 4,
        ValidEvents::Lifted => 3,
        ValidEvents::LiftedToPredictionMarket => 3,
        ValidEvents::Erc20DirectTransfer => 3,
        ValidEvents::LowerReverted => 3,
        _ => 1,
    }
}

/// The number of 32-byte data words that event `k` carries.
pub open spec fn word_count(k: ValidEvents) -> nat {
    match k {
        ValidEvents::NftMint => 3,
        ValidEvents::NftTransferTo => 3,
        ValidEvents::NftCancelListing => 2,
        ValidEvents::AvtGrowthLifted => 2,
        ValidEvents::LowerReverted => 2,
        _ => 1,
    }
}

/// The address topics and integer words of event `k` are well formed.
pub open spec fn fields_ok(k: ValidEvents, data: Seq<u8>, topics: Seq<ChainHash>) -> bool {
    match k {
        ValidEvents::AddedValidator => uint_ok(data, 0, 8),
        ValidEvents::Lifted | ValidEvents::LiftedToPredictionMarket => address_topic_ok(topics, 1)
            && uint_ok(data, 0, 16),
        ValidEvents::Erc20DirectTransfer => address_topic_ok(topics, 1) && address_topic_ok(
            topics,
            2,
        ) && uint_ok(data, 0, 16),
        ValidEvents::NftMint => uint_ok(data, 0, 16) && uint_ok(data, 1, 8),
        ValidEvents::NftTransferTo => uint_ok(data, 0, 16) && uint_ok(data, 2, 8),
        ValidEvents::NftCancelListing => uint_ok(data, 0, 16) && uint_ok(data, 1, 8),
        ValidEvents::NftEndBatchListing => uint_ok(data, 0, 16),
        ValidEvents::AvtGrowthLifted => uint_ok(data, 0, 16) && uint_ok(data, 1, 4),
        ValidEvents::AvtLowerClaimed => uint_ok(data, 0, 4),
        ValidEvents::LowerReverted => address_topic_ok(topics, 1) && uint_ok(data, 0, 16)
            && uint_ok(data, 1, 4),
    }
}

/// `data` and `topics` fit the layout of event `k`.
pub open spec fn decodable(k: ValidEvents, data: Seq<u8>, topics: Seq<ChainHash>) -> bool {
    &&& topics.len() == topic_count(k)
    &&& data.len() == 32 * word_count(k)
    &&& fields_ok(k, data, topics)
}

/// `d` is the lift that topics 1 and 2 and data word 0 describe.
pub open spec fn lift_fields(d: LiftedData, data: Seq<u8>, topics: Seq<ChainHash>) -> bool {
    &&& d.token_contract@ == address_in_topic(topics, 1)
    &&& d.sender_address@ == zero_address()
    &&& d.receiver_address == topics[2]
    &&& d.amount as nat == uint_at(data, 0, 16)
}

/// `ev` is what event `k` decodes to from `data` and `topics`, before any
/// repair of the token contract.
pub open spec fn decodes_to(
    k: ValidEvents,
    data: Seq<u8>,
    topics: Seq<ChainHash>,
    ev: EventData,
) -> bool {
    match (k, ev) {
        (ValidEvents::AddedValidator, EventData::LogAddedValidator(d)) => {
            &&& d.eth_public_key_lhs == topics[1]
            &&& d.eth_public_key_rhs == topics[2]
            &&& d.t2_public_key == topics[3]
            &&& d.t2_tx_id as nat == uint_at(data, 0, 8)
        },
        (ValidEvents::Lifted, EventData::LogLifted(d)) => lift_fields(d, data, topics),
        (ValidEvents::LiftedToPredictionMarket, EventData::LogLiftedToPredictionMarket(d)) =>
            lift_fields(d, data, topics),
        (ValidEvents::Erc20DirectTransfer, EventData::LogErc20Transfer(d)) => {
            &&& d.token_contract@ == zero_address()
            &&& d.sender_address@ == address_in_topic(topics, 1)
            &&& d.receiver_address == topics[2]
            &&& d.amount as nat == uint_at(data, 0, 16)
        },
        (ValidEvents::NftMint, EventData::LogNftMinted(d)) => {
            &&& d.nft_id as nat == uint_at(data, 0, 16)
            &&& d.sale_index as nat == uint_at(data, 1, 8)
            &&& d.t2_owner_public_key@ == word_of(data, 2)
        },
        (ValidEvents::NftTransferTo, EventData::LogNftTransferTo(d)) => {
            &&& d.nft_id as nat == uint_at(data, 0, 16)
            &&& d.t2_transfer_to_public_key@ == word_of(data, 1)
            &&& d.op_id as nat == uint_at(data, 2, 8)
        },
        (ValidEvents::NftCancelListing, EventData::LogNftCancelListing(d)) => {
            &&& d.nft_id as nat == uint_at(data, 0, 16)
            &&& d.op_id as nat == uint_at(data, 1, 8)
        },
        (ValidEvents::NftEndBatchListing, EventData::LogNftEndBatchListing(d)) => {
            d.batch_id as nat == uint_at(data, 0, 16)
        },
        (ValidEvents::AvtGrowthLifted, EventData::LogAvtGrowthLifted(d)) => {
            &&& d.amount as nat == uint_at(data, 0, 16)
            &&& d.period as nat == uint_at(data, 1, 4)
        },
        (ValidEvents::AvtLowerClaimed, EventData::LogLowerClaimed(d)) => {
            d.lower_id as nat == uint_at(data, 0, 4)
        },
        (ValidEvents::LowerReverted, EventData::LogLowerReverted(d)) => {
            &&& d.token_contract@ == address_in_topic(topics, 1)
            &&& d.t2_sender_public_key == topics[2]
            &&& d.amount as nat == uint_at(data, 0, 16)
            &&& d.lower_id as nat == uint_at(data, 1, 4)
        },
        _ => false,
    }
}

/// Copies data word `j`.
fn read_word(data: &Vec<u8>, j: usize) -> (r: ChainHash)
    requires
        32 * j + 32 <= data.len(),
    ensures
        r@ == word_of(data@, j as int),
{
    let start: usize = 32 * j;
    let mut w: ChainHash = [0u8; 32];
    let mut i: usize = 0;
    while i < 32
        invariant
            start == 32 * j,
            start + 32 <= data.len(),
            0 <= i <= 32,
            forall|m: int| 0 <= m < i ==> w@[m] == data@[start + m],
        decreases 32 - i,
    {
        w[i] = data[start + i];
        i = i + 1;
    }
    assert(w@ =~= word_of(data@, j as int));
    w
}

/// The integer of `n` bytes held by data word `j`.
fn read_uint(data: &Vec<u8>, j: usize, n: usize) -> (r: Result<u128, AppError>)
    requires
        32 * j + 32 <= data.len(),
        1 <= n <= 16,
    ensures
        r.is_ok() == uint_ok(data@, j as int, n as int),
        r matches Ok(v) ==> v as nat == uint_at(data@, j as int, n as int),
        r matches Ok(v) ==> (v as nat) < byte_power(n as nat),
        r matches Err(e) ==> e == AppError::ErrorParsingEventLogs,
{
    let w = read_word(data, j);
    match word_to_uint(&w, n) {
        Some(v) => Ok(v),
        None => Err(AppError::ErrorParsingEventLogs),
    }
}

/// The address held by topic `i`.
fn read_topic_address(topics: &Vec<ChainHash>, i: usize) -> (r: Result<ChainAddress, AppError>)
    requires
        i < topics.len(),
    ensures
        r.is_ok() == address_topic_ok(topics@, i as int),
        r matches Ok(a) ==> a@ == address_in_topic(topics@, i as int),
        r matches Err(e) ==> e == AppError::ErrorParsingEventLogs,
{
    match word_to_address(&topics[i]) {
        Some(a) => Ok(a),
        None => Err(AppError::ErrorParsingEventLogs),
    }
}

/// Decodes the payload of event `k` from a log's data and topics.
pub fn decode_event_data(k: ValidEvents, data: &Vec<u8>, topics: &Vec<ChainHash>) -> (r: Result<
    EventData,
    AppError,
>)
    ensures
        r.is_ok() == decodable(k, data@, topics@),
        r matches Ok(ev) ==> decodes_to(k, data@, topics@, ev),
        r matches Err(e) ==> e == AppError::ErrorParsingEventLogs,
{
    proof {
        lemma_byte_power_small();
    }
    let tc: usize = match k {
        ValidEvents::AddedValidator => 4,
        ValidEvents::Lifted => 3,
        ValidEvents::LiftedToPredictionMarket => 3,
        ValidEvents::Erc20DirectTransfer => 3,
        ValidEvents::LowerReverted => 3,
        _ => 1,
    };
    let wc: usize = match k {
        ValidEvents::NftMint => 3,
        ValidEvents::NftTransferTo => 3,
        ValidEvents::NftCancelListing => 2,
        ValidEvents::AvtGrowthLifted => 2,
        ValidEvents::LowerReverted => 2,
        _ => 1,
    };
    if topics.len() != tc || data.len() != 32 * wc {
        return Err(AppError::ErrorParsingEventLogs);
    }
    match k {
        ValidEvents::AddedValidator => {
            let id = read_uint(data, 0, 8)?;
            Ok(
                EventData::LogAddedValidator(
                    AddedValidatorData {
                        eth_public_key_lhs: topics[1],
                        eth_public_key_rhs: topics[2],
                        t2_public_key: topics[3],
                        t2_tx_id: id as u64,
                    },
                ),
            )
        },
        ValidEvents::Lifted => {
            let d = decode_lift(data, topics)?;
            Ok(EventData::LogLifted(d))
        },
        ValidEvents::LiftedToPredictionMarket => {
            let d = decode_lift(data, topics)?;
            Ok(EventData::LogLiftedToPredictionMarket(d))
        },
        ValidEvents::Erc20DirectTransfer => {
            let from = read_topic_address(topics, 1)?;
            let _to = read_topic_address(topics, 2)?;
            let amount = read_uint(data, 0, 16)?;
            let d = LiftedData {
                token_contract: [0u8; 20],
                sender_address: from,
                receiver_address: topics[2],
                amount,
            };
            assert(d.token_contract@ =~= zero_address());
            Ok(EventData::LogErc20Transfer(d))
        },
        ValidEvents::NftMint => {
            let nft_id = read_uint(data, 0, 16)?;
            let sale_index = read_uint(data, 1, 8)?;
            let owner = read_word(data, 2);
            Ok(
                EventData::LogNftMinted(
                    NftMintData { nft_id, sale_index: sale_index as u64, t2_owner_public_key: owner },
                ),
            )
        },
        ValidEvents::NftTransferTo => {
            let nft_id = read_uint(data, 0, 16)?;
            let to = read_word(data, 1);
            let op_id = read_uint(data, 2, 8)?;
            Ok(
                EventData::LogNftTransferTo(
                    NftTransferToData {
                        nft_id,
                        t2_transfer_to_public_key: to,
                        op_id: op_id as u64,
                    },
                ),
            )
        },
        ValidEvents::NftCancelListing => {
            let nft_id = read_uint(data, 0, 16)?;
            let op_id = read_uint(data, 1, 8)?;
            Ok(
                EventData::LogNftCancelListing(
                    NftCancelListingData { nft_id, op_id: op_id as u64 },
                ),
            )
        },
        ValidEvents::NftEndBatchListing => {
            let batch_id = read_uint(data, 0, 16)?;
            Ok(EventData::LogNftEndBatchListing(NftEndBatchListingData { batch_id }))
        },
        ValidEvents::AvtGrowthLifted => {
            let amount = read_uint(data, 0, 16)?;
            let period = read_uint(data, 1, 4)?;
            Ok(EventData::LogAvtGrowthLifted(AvtGrowthLiftedData { amount, period: period as u32 }))
        },
        ValidEvents::AvtLowerClaimed => {
            let lower_id = read_uint(data, 0, 4)?;
            Ok(EventData::LogLowerClaimed(AvtLowerClaimedData { lower_id: lower_id as u32 }))
        },
        ValidEvents::LowerReverted => {
            let token = read_topic_address(topics, 1)?;
            let amount = read_uint(data, 0, 16)?;
            let lower_id = read_uint(data, 1, 4)?;
            Ok(
                EventData::LogLowerReverted(
                    LowerRevertedData {
                        token_contract: token,
                        t2_sender_public_key: topics[2],
                        amount,
                        lower_id: lower_id as u32,
                    },
                ),
            )
        },
    }
}

/// Decodes a lift: token address in topic 1, receiver in topic 2, amount in word 0.
fn decode_lift(data: &Vec<u8>, topics: &Vec<ChainHash>) -> (r: Result<LiftedData, AppError>)
    requires
        topics.len() == 3,
        data.len() == 32,
    ensures
        r.is_ok() == (address_topic_ok(topics@, 1) && uint_ok(data@, 0, 16)),
        r matches Ok(d) ==> lift_fields(d, data@, topics@),
        r matches Err(e) ==> e == AppError::ErrorParsingEventLogs,
{
    let token = read_topic_address(topics, 1)?;
    let amount = read_uint(data, 0, 16)?;
    let d = LiftedData {
        token_contract: token,
        sender_address: [0u8; 20],
        receiver_address: topics[2],
        amount,
    };
    assert(d.sender_address@ =~= zero_address());
    Ok(d)
}

proof fn lemma_byte_power_small()
    ensures
        byte_power(4) == 0x1_0000_0000,
        byte_power(8) == 0x1_0000_0000_0000_0000,
{
    reveal_with_fuel(byte_power, 9);
}

} // verus!
