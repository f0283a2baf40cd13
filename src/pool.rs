//! One live client per external chain id, found by probing the configured
//! endpoints in order, and the retry policy for acquiring one.

use vstd::prelude::*;

use std::collections::HashMap;

use crate::events::AppError;

verus! {

broadcast use vstd::std_specs::hash::group_hash_axioms;

/// How many times acquiring a client for a chain is attempted in one cycle.
pub const RETRY_LIMIT: usize = 3;

/// Seconds to wait between two attempts to acquire a client.
pub const RETRY_DELAY: u64 = 5;

#[verifier::external_type_specification]
#[verifier::external_body]
pub struct ExUrl(url::Url);

/// Whether `s` parses as an absolute URL.
pub uninterp spec fn url_parses(s: Seq<char>) -> bool;

/// Relies on `url::Url::parse`: the outcome depends on the text alone.
#[verifier::external_body]
fn parse_url(s: &str) -> (r: Option<url::Url>)
    ensures
        r.is_some() == url_parses(s@),
{
    url::Url::parse(s).ok()
}

/// Parses each configured endpoint URL; an endpoint whose URL does not parse
/// is `None` and is never probed.
pub fn parse_endpoints(eth_node_urls: &Vec<String>) -> (r: Vec<Option<url::Url>>)
    ensures
        r@.len() == eth_node_urls@.len(),
        forall|i: int|
            0 <= i < r@.len() ==> (#[trigger] r@[i]).is_some() == url_parses(eth_node_urls@[i]@),
{
    let mut r: Vec<Option<url::Url>> = Vec::new();
    let mut i: usize = 0;
    while i < eth_node_urls.len()
        invariant
            0 <= i <= eth_node_urls.len(),
            r@.len() == i,
            forall|j: int|
                0 <= j < i ==> (#[trigger] r@[j]).is_some() == url_parses(eth_node_urls@[j]@),
        decreases eth_node_urls.len() - i,
    {
        r.push(parse_url(eth_node_urls[i].as_str()));
        i = i + 1;
    }
    r
}

/// What probing one endpoint found: nothing usable, or a connected client
/// and the chain id that it reported.
pub enum EndpointProbe<C> {
    Unreachable,
    Connected { chain_id: u64, client: C },
}

/// The pool after recording `probe`: a newly seen chain id is cached with its
/// client; a chain id already cached keeps its client.
pub open spec fn pool_after<C>(pool: Map<u64, C>, probe: EndpointProbe<C>) -> Map<u64, C> {
    match probe {
        EndpointProbe::Unreachable => pool,
        EndpointProbe::Connected { chain_id, client } => if pool.contains_key(chain_id) {
            pool
        } else {
            pool.insert(chain_id, client)
        },
    }
}

/// Live clients keyed by the chain id that each reported.
pub struct ClientPool<C> {
    pub evm_clients: HashMap<u64, C>,
}

impl<C> View for ClientPool<C> {
    type V = Map<u64, C>;

    open spec fn view(&self) -> Map<u64, C> {
        self.evm_clients@
    }
}

impl<C> ClientPool<C> {
    pub fn new() -> (r: Self)
        ensures
            r@ == Map::<u64, C>::empty(),
    {
        ClientPool { evm_clients: HashMap::new() }
    }

    /// The cached client for `chain_id`, if one was found before.
    pub fn get(&self, chain_id: u64) -> (r: Option<&C>)
        ensures
            match r {
                Some(c) => self@.contains_key(chain_id) && *c == self@[chain_id],
                None => !self@.contains_key(chain_id),
            },
    {
        self.evm_clients.get(&chain_id)
    }

    /// Records what probing one endpoint found, and says whether it reached
    /// the wanted chain, whose client `get` then returns.
    pub fn record_endpoint(&mut self, wanted_chain_id: u64, probe: EndpointProbe<C>) -> (found:
        bool)
        ensures
            final(self)@ == pool_after(old(self)@, probe),
            found == (probe matches EndpointProbe::Connected { chain_id, .. } && chain_id
                == wanted_chain_id),
            found ==> final(self)@.contains_key(wanted_chain_id),
    {
        match probe {
            EndpointProbe::Unreachable => false,
            EndpointProbe::Connected { chain_id, client } => {
                if !self.evm_clients.contains_key(&chain_id) {
                    self.evm_clients.insert(chain_id, client);
                }
                chain_id == wanted_chain_id
            },
        }
    }
}

/// The decision after a failed attempt to acquire a client, given how many
/// attempts had failed before it: try again, or give up with
/// `RetryLimitReached` once `RETRY_LIMIT` attempts have failed.
pub fn after_failed_attempt(failed_before: usize) -> (r: Result<usize, AppError>)
    requires
        failed_before < RETRY_LIMIT,
    ensures
        failed_before + 1 < RETRY_LIMIT ==> r == Ok::<usize, AppError>((failed_before + 1) as usize),
        failed_before + 1 >= RETRY_LIMIT ==> r == Err::<usize, AppError>(
            AppError::RetryLimitReached,
        ),
{
    let attempts = failed_before + 1;
    if attempts >= RETRY_LIMIT {
        Err(AppError::RetryLimitReached)
    } else {
        Ok(attempts)
    }
}

} // verus!
