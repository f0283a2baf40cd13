//! The per-instance decisions of each cycle: whether a range is final enough
//! to vote on, what to do for an instance, and who this node is.

use vstd::prelude::*;

use crate::bytes::{contains_hash, ChainAddress, ChainHash};

verus! {

/// Confirmations required past a range's end block before voting on it.
pub const ETH_FINALITY: u64 = 20;

/// Seconds between two cycles.
pub const SLEEP_TIME: u64 = 60;

/// A bridge instance: an external chain and the bridge contract on it.
#[derive(Clone, Copy, Debug, PartialEq, Eq)]
pub struct EthBridgeInstance {
    pub chain_id: u64,
    pub bridge_contract: ChainAddress,
}

/// The inclusive block window currently open for voting on an instance.
#[derive(Clone, Copy, Debug, PartialEq, Eq)]
pub struct EthBlockRange {
    pub start_block: u32,
    pub end_block: u32,
}

/// What to do for one instance in this cycle.
#[derive(Clone, Copy, Debug, PartialEq, Eq)]
pub enum InstanceAction {
    /// No range is open: vote on the latest observed block.
    SubmitLatestBlock,
    /// A range is open but not yet final: skip the instance this cycle.
    AwaitFinality,
    /// A range is open and final: discover its events and vote on them.
    VoteOnRange,
    /// This node has already voted.
    NothingToDo,
}

/// Block `block` is buried under at least `depth` blocks below `head`.
pub open spec fn finalised(head: u64, block: u64, depth: u64) -> bool {
    head as int >= block as int + depth as int
}

/// Whether `current_block_num` has `num_blocks_to_wait` confirmations when
/// the external chain's head is `latest_block`.
pub fn is_evm_block_finalised(latest_block: u64, current_block_num: u64, num_blocks_to_wait: u64) -> (r:
    bool)
    ensures
        r == finalised(latest_block, current_block_num, num_blocks_to_wait),
{
    if current_block_num > u64::MAX - num_blocks_to_wait {
        false
    } else {
        latest_block >= current_block_num + num_blocks_to_wait
    }
}

/// The action for an instance, from the active range reported by the host
/// chain, the external chain's head and whether this node has voted.
pub open spec fn spec_plan(active_range: Option<EthBlockRange>, head: u64, has_voted: bool) -> InstanceAction {
    match active_range {
        None => if has_voted {
            InstanceAction::NothingToDo
        } else {
            InstanceAction::SubmitLatestBlock
        },
        Some(range) => if !finalised(head, range.end_block as u64, ETH_FINALITY) {
            InstanceAction::AwaitFinality
        } else if has_voted {
            InstanceAction::NothingToDo
        } else {
            InstanceAction::VoteOnRange
        },
    }
}

/// Decides what to do for one instance in this cycle.
pub fn plan_instance(active_range: Option<EthBlockRange>, external_chain_head: u64, has_voted: bool) -> (r:
    InstanceAction)
    ensures
        r == spec_plan(active_range, external_chain_head, has_voted),
{
    match active_range {
        None => if has_voted {
            InstanceAction::NothingToDo
        } else {
            InstanceAction::SubmitLatestBlock
        },
        Some(range) => if !is_evm_block_finalised(
            external_chain_head,
            range.end_block as u64,
            ETH_FINALITY,
        ) {
            InstanceAction::AwaitFinality
        } else if has_voted {
            InstanceAction::NothingToDo
        } else {
            InstanceAction::VoteOnRange
        },
    }
}

/// This node's on-chain identity: its address and its registered signing key.
#[derive(Clone, Copy, Debug, PartialEq, Eq)]
pub struct CurrentNodeAuthor {
    address: ChainHash,
    signing_key: ChainHash,
}

impl CurrentNodeAuthor {
    pub closed spec fn spec_address(&self) -> ChainHash {
        self.address
    }

    pub closed spec fn spec_signing_key(&self) -> ChainHash {
        self.signing_key
    }

    pub fn new(address: ChainHash, signing_key: ChainHash) -> (r: Self)
        ensures
            r.spec_address() == address,
            r.spec_signing_key() == signing_key,
    {
        CurrentNodeAuthor { address, signing_key }
    }

    pub fn address(&self) -> (r: ChainHash)
        ensures
            r == self.spec_address(),
    {
        self.address
    }

    pub fn signing_key(&self) -> (r: ChainHash)
        ensures
            r == self.spec_signing_key(),
    {
        self.signing_key
    }
}

/// The index of the first author whose signing key is one of `keys`, or -1.
pub open spec fn first_author_with_key(
    authors: Seq<(ChainHash, ChainHash)>,
    keys: Seq<ChainHash>,
) -> int
    decreases authors.len(),
{
    if authors.len() == 0 {
        -1
    } else {
        let f = first_author_with_key(authors.drop_last(), keys);
        if f >= 0 {
            f
        } else if keys.contains(authors.last().1) {
            authors.len() - 1
        } else {
            -1
        }
    }
}

/// This node's author entry: the first `(address, signing key)` pair of the
/// host chain's author set whose signing key is among this node's own keys.
/// Nothing when the author set could not be read.
pub fn find_current_node_author<T>(
    authors: Result<Vec<(ChainHash, ChainHash)>, T>,
    node_signing_keys: Vec<ChainHash>,
) -> (r: Option<CurrentNodeAuthor>)
    ensures
        match authors {
            Err(_) => r.is_none(),
            Ok(a) => {
                let f = first_author_with_key(a@, node_signing_keys@);
                if f < 0 {
                    r.is_none()
                } else {
                    r matches Some(author) && author.spec_address() == a@[f].0
                        && author.spec_signing_key() == a@[f].1
                }
            },
        },
{
    let list = match authors {
        Ok(a) => a,
        Err(_) => {
            return None;
        },
    };
    let mut i: usize = 0;
    while i < list.len()
        invariant
            authors == Ok::<Vec<(ChainHash, ChainHash)>, T>(list),
            0 <= i <= list.len(),
            first_author_with_key(list@.subrange(0, i as int), node_signing_keys@) < 0,
        decreases list.len() - i,
    {
        assert(list@.subrange(0, i + 1).drop_last() =~= list@.subrange(0, i as int));
        let (address, signing_key) = list[i];
        if contains_hash(&node_signing_keys, &signing_key) {
            proof {
                assert(first_author_with_key(list@.subrange(0, i + 1), node_signing_keys@) == i);
                lemma_first_author_bound(list@, node_signing_keys@);
                lemma_first_author_prefix(list@, node_signing_keys@, i as int + 1);
            }
            return Some(CurrentNodeAuthor::new(address, signing_key));
        }
        i = i + 1;
    }
    assert(list@.subrange(0, list@.len() as int) =~= list@);
    proof {
        lemma_first_author_bound(list@, node_signing_keys@);
    }
    None
}

proof fn lemma_first_author_bound(authors: Seq<(ChainHash, ChainHash)>, keys: Seq<ChainHash>)
    ensures
        first_author_with_key(authors, keys) < authors.len(),
    decreases authors.len(),
{
    if authors.len() > 0 {
        lemma_first_author_bound(authors.drop_last(), keys);
    }
}

proof fn lemma_first_author_prefix(
    authors: Seq<(ChainHash, ChainHash)>,
    keys: Seq<ChainHash>,
    i: int,
)
    requires
        0 <= i <= authors.len(),
        first_author_with_key(authors.subrange(0, i), keys) >= 0,
    ensures
        first_author_with_key(authors, keys) == first_author_with_key(authors.subrange(0, i), keys),
    decreases authors.len(),
{
    if i == authors.len() {
        assert(authors.subrange(0, i) =~= authors);
    } else {
        assert(authors.drop_last().subrange(0, i) =~= authors.subrange(0, i));
        lemma_first_author_prefix(authors.drop_last(), keys, i);
    }
}

} // verus!
