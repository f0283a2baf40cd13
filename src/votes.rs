//! The payloads this node signs and submits: a vote on the latest observed
//! block, and a vote on one partition of the events discovered in a range.
//!
//! A payload is a context tag, then the instance (its id as four bytes, its
//! chain id as eight, its bridge contract), then this node's address, then
//! what is voted on. Integers are written least significant byte first.

use vstd::prelude::*;

use crate::bytes::{le_bytes, push_le, ChainHash};
use crate::discovery::DiscoveredEvent;
use crate::orchestrator::{EthBlockRange, EthBridgeInstance};

verus! {

/// Tag of a vote on the latest observed block: `avn:submit_latest_eth_block`.
pub const SUBMIT_LATEST_ETH_BLOCK_CONTEXT: [u8; 27] = [
    0x61, 0x76, 0x6e, 0x3a, 0x73, 0x75, 0x62, 0x6d, 0x69, 0x74, 0x5f, 0x6c, 0x61, 0x74,
    0x65, 0x73, 0x74, 0x5f, 0x65, 0x74, 0x68, 0x5f, 0x62, 0x6c, 0x6f, 0x63, 0x6b,
];

/// Tag of a vote on a partition of events: `avn:submit_ethereum_events`.
pub const SUBMIT_ETHEREUM_EVENTS_HASH_CONTEXT: [u8; 26] = [
    0x61, 0x76, 0x6e, 0x3a, 0x73, 0x75, 0x62, 0x6d, 0x69, 0x74, 0x5f, 0x65, 0x74, 0x68,
    0x65, 0x72, 0x65, 0x75, 0x6d, 0x5f, 0x65, 0x76, 0x65, 0x6e, 0x74, 0x73,
];

/// Most events in one partition.
pub const EVENTS_PARTITION_SIZE: usize = 32;

/// One batch of the events discovered in a range, with its position among
/// the batches.
#[derive(Clone, Debug, PartialEq, Eq)]
pub struct EthereumEventsPartition {
    pub range: EthBlockRange,
    pub partition: u16,
    pub is_last: bool,
    pub data: Vec<DiscoveredEvent>,
}

impl EthereumEventsPartition {
    pub fn id(&self) -> (r: u16)
        ensures
            r == self.partition,
    {
        self.partition
    }

    pub fn range(&self) -> (r: EthBlockRange)
        ensures
            r == self.range,
    {
        self.range
    }
}

/// How many partitions `n` events make: one even when there are none.
pub open spec fn partition_count(n: nat) -> nat {
    if n == 0 {
        1
    } else {
        ((n + 31) / 32) as nat
    }
}

/// The events of partition `k`.
pub open spec fn chunk(events: Seq<DiscoveredEvent>, k: int) -> Seq<DiscoveredEvent> {
    let end = if 32 * k + 32 < events.len() {
        32 * k + 32
    } else {
        events.len() as int
    };
    events.subrange(32 * k, end)
}

/// Splits the events of `range`, in order, into partitions of at most
/// `EVENTS_PARTITION_SIZE` events, numbered from zero; the final one is
/// marked last.
pub fn create_partitions(range: EthBlockRange, events: &Vec<DiscoveredEvent>) -> (r: Vec<
    EthereumEventsPartition,
>)
    requires
        events.len() <= 32 * 65536,
    ensures
        r@.len() == partition_count(events@.len()),
        forall|k: int|
            0 <= k < r@.len() ==> {
                let p = #[trigger] r@[k];
                &&& p.range == range
                &&& p.partition as int == k
                &&& p.is_last == (k == r@.len() - 1)
                &&& p.data@ == chunk(events@, k)
            },
{
    let n = events.len();
    let count: usize = if n == 0 {
        1
    } else {
        (n + 31) / 32
    };
    let mut parts: Vec<EthereumEventsPartition> = Vec::new();
    let mut k: usize = 0;
    while k < count
        invariant
            n == events.len(),
            n <= 32 * 65536,
            count == partition_count(n as nat),
            0 <= k <= count,
            parts@.len() == k,
            forall|j: int|
                0 <= j < k ==> {
                    let p = #[trigger] parts@[j];
                    &&& p.range == range
                    &&& p.partition as int == j
                    &&& p.is_last == (j == count - 1)
                    &&& p.data@ == chunk(events@, j)
                },
        decreases count - k,
    {
        assert(k * 32 <= n && k <= 65535) by (nonlinear_arith)
            requires
                k < count,
                count == (if n == 0 {
                    1
                } else {
                    (n + 31) / 32
                }),
                n <= 32 * 65536,
        ;
        let start: usize = k * 32;
        let end: usize = if start + 32 < n {
            start + 32
        } else {
            n
        };
        let mut data: Vec<DiscoveredEvent> = Vec::new();
        let mut i: usize = start;
        while i < end
            invariant
                start <= i <= end,
                end <= n,
                n == events.len(),
                data@ == events@.subrange(start as int, i as int),
            decreases end - i,
        {
            data.push(events[i]);
            assert(data@ =~= events@.subrange(start as int, i + 1));
            i = i + 1;
        }
        let ghost before = parts@;
        parts.push(
            EthereumEventsPartition { range, partition: k as u16, is_last: k + 1 == count, data },
        );
        assert forall|j: int| 0 <= j < k + 1 implies {
            let p = #[trigger] parts@[j];
            &&& p.range == range
            &&& p.partition as int == j
            &&& p.is_last == (j == count - 1)
            &&& p.data@ == chunk(events@, j)
        } by {
            if j < k {
                assert(parts@[j] == before[j]);
            }
        }
        k = k + 1;
    }
    parts
}

/// The partition numbered `partition_id`, if there is one.
pub fn select_partition(partitions: &Vec<EthereumEventsPartition>, partition_id: u16) -> (r: Option<
    &EthereumEventsPartition,
>)
    ensures
        match r {
            Some(p) => p.partition == partition_id && partitions@.contains(*p),
            None => forall|i: int|
                0 <= i < partitions@.len() ==> (#[trigger] partitions@[i]).partition
                    != partition_id,
        },
{
    let mut i: usize = 0;
    while i < partitions.len()
        invariant
            0 <= i <= partitions.len(),
            forall|j: int| 0 <= j < i ==> (#[trigger] partitions@[j]).partition != partition_id,
        decreases partitions.len() - i,
    {
        if partitions[i].partition == partition_id {
            assert(partitions@[i as int] == partitions@[i as int]);
            return Some(&partitions[i]);
        }
        i = i + 1;
    }
    None
}

/// The bytes that identify an instance.
pub open spec fn instance_bytes(instance_id: u32, instance: EthBridgeInstance) -> Seq<u8> {
    le_bytes(instance_id as nat, 4) + le_bytes(instance.chain_id as nat, 8)
        + instance.bridge_contract@
}

/// The payload of a vote on the latest observed block.
pub open spec fn latest_block_payload(
    instance_id: u32,
    instance: EthBridgeInstance,
    author_address: ChainHash,
    block: u64,
) -> Seq<u8> {
    SUBMIT_LATEST_ETH_BLOCK_CONTEXT@ + instance_bytes(instance_id, instance) + author_address@
        + le_bytes(block as nat, 8)
}

/// The bytes of one event in a vote: its signature, its transaction hash
/// and its block.
pub open spec fn event_bytes(e: DiscoveredEvent) -> Seq<u8> {
    e.event.event_id.signature@ + e.event.event_id.transaction_hash@ + le_bytes(e.block as nat, 8)
}

pub open spec fn events_bytes(s: Seq<DiscoveredEvent>) -> Seq<u8>
    decreases s.len(),
{
    if s.len() == 0 {
        Seq::empty()
    } else {
        events_bytes(s.drop_last()) + event_bytes(s.last())
    }
}

/// The bytes of a partition in a vote.
pub open spec fn partition_bytes(p: EthereumEventsPartition) -> Seq<u8> {
    le_bytes(p.range.start_block as nat, 4) + le_bytes(p.range.end_block as nat, 4) + le_bytes(
        p.partition as nat,
        2,
    ) + seq![if p.is_last { 1u8 } else { 0u8 }] + le_bytes(p.data@.len(), 4) + events_bytes(
        p.data@,
    )
}

/// The payload of a vote on a partition of events.
pub open spec fn events_vote_payload(
    instance_id: u32,
    instance: EthBridgeInstance,
    author_address: ChainHash,
    p: EthereumEventsPartition,
) -> Seq<u8> {
    SUBMIT_ETHEREUM_EVENTS_HASH_CONTEXT@ + instance_bytes(instance_id, instance) + author_address@
        + partition_bytes(p)
}

fn push_all(out: &mut Vec<u8>, bytes: &[u8])
    ensures
        final(out)@ == old(out)@ + bytes@,
{
    let mut i: usize = 0;
    while i < bytes.len()
        invariant
            0 <= i <= bytes.len(),
            out@ == old(out)@ + bytes@.subrange(0, i as int),
        decreases bytes.len() - i,
    {
        out.push(bytes[i]);
        assert(out@ =~= old(out)@ + bytes@.subrange(0, i + 1));
        i = i + 1;
    }
    assert(bytes@.subrange(0, bytes@.len() as int) =~= bytes@);
}

fn push_instance(out: &mut Vec<u8>, instance_id: u32, instance: &EthBridgeInstance)
    ensures
        final(out)@ == old(out)@ + instance_bytes(instance_id, *instance),
{
    let ghost start = out@;
    push_le(out, instance_id as u64, 4);
    push_le(out, instance.chain_id, 8);
    push_all(out, &instance.bridge_contract);
    assert(out@ =~= start + instance_bytes(instance_id, *instance));
}

/// Builds the payload of a vote on the latest observed block.
pub fn latest_block_proof(
    instance_id: u32,
    instance: &EthBridgeInstance,
    author_address: &ChainHash,
    latest_block: u64,
) -> (r: Vec<u8>)
    ensures
        r@ == latest_block_payload(instance_id, *instance, *author_address, latest_block),
{
    let mut out: Vec<u8> = Vec::new();
    push_all(&mut out, &SUBMIT_LATEST_ETH_BLOCK_CONTEXT);
    push_instance(&mut out, instance_id, instance);
    push_all(&mut out, author_address);
    push_le(&mut out, latest_block, 8);
    assert(out@ =~= latest_block_payload(instance_id, *instance, *author_address, latest_block));
    out
}

/// Builds the payload of a vote on partition `p`.
pub fn events_vote_proof(
    instance_id: u32,
    instance: &EthBridgeInstance,
    author_address: &ChainHash,
    p: &EthereumEventsPartition,
) -> (r: Vec<u8>)
    ensures
        r@ == events_vote_payload(instance_id, *instance, *author_address, *p),
{
    let mut out: Vec<u8> = Vec::new();
    push_all(&mut out, &SUBMIT_ETHEREUM_EVENTS_HASH_CONTEXT);
    push_instance(&mut out, instance_id, instance);
    push_all(&mut out, author_address);
    let ghost head = out@;
    push_le(&mut out, p.range.start_block as u64, 4);
    push_le(&mut out, p.range.end_block as u64, 4);
    push_le(&mut out, p.partition as u64, 2);
    out.push(if p.is_last { 1u8 } else { 0u8 });
    push_le(&mut out, p.data.len() as u64, 4);
    let ghost fixed = out@;
    let mut i: usize = 0;
    while i < p.data.len()
        invariant
            0 <= i <= p.data.len(),
            out@ == fixed + events_bytes(p.data@.subrange(0, i as int)),
        decreases p.data.len() - i,
    {
        let e = p.data[i];
        assert(p.data@.subrange(0, i + 1).drop_last() =~= p.data@.subrange(0, i as int));
        let ghost before = out@;
        push_all(&mut out, &e.event.event_id.signature);
        push_all(&mut out, &e.event.event_id.transaction_hash);
        push_le(&mut out, e.block, 8);
        assert(out@ =~= before + event_bytes(e));
        assert(out@ =~= fixed + events_bytes(p.data@.subrange(0, i + 1)));
        i = i + 1;
    }
    assert(p.data@.subrange(0, p.data@.len() as int) =~= p.data@);
    assert(out@ =~= events_vote_payload(instance_id, *instance, *author_address, *p));
    out
}

} // verus!
