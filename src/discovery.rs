//! Turning raw logs into discovered events: the filters sent to the external
//! chain, decoding of one log, and the merge that keeps one event per
//! transaction with primary events taking precedence.

use vstd::prelude::*;

use crate::bytes::{
    address_to_topic, contains_hash, is_zero_address, padded_address, zero_address, ChainAddress,
    ChainHash,
};
use crate::chain::{ChainLog, ChainReceipt, LogFilter};
use crate::event_data::{decodable, decodes_to, EventData, LiftedData};
use crate::events::{all_valid_events, kind_of_signature, AppError, ValidEvents};
use crate::registry::EventRegistry;

verus! {

/// Identifies one event on the external chain.
#[derive(Clone, Copy, Debug, PartialEq, Eq)]
pub struct EthEventId {
    pub signature: ChainHash,
    pub transaction_hash: ChainHash,
}

#[derive(Clone, Copy, Debug, PartialEq, Eq)]
pub struct EthEvent {
    pub event_id: EthEventId,
    pub event_data: EventData,
}

/// A decoded event and the block that holds it.
#[derive(Clone, Copy, Debug, PartialEq, Eq)]
pub struct DiscoveredEvent {
    pub event: EthEvent,
    pub block: u64,
}

/// Why `log` cannot become a discovered event, checked in this order: no
/// signature, no transaction hash, no block number, unknown signature or data
/// that does not fit the event's layout.
pub open spec fn log_error(log: ChainLog) -> Option<AppError> {
    if log.topics@.len() == 0 {
        Some(AppError::MissingEventSignature)
    } else if log.transaction_hash.is_none() {
        Some(AppError::MissingTransactionHash)
    } else if log.block_number.is_none() {
        Some(AppError::MissingBlockNumber)
    } else {
        match kind_of_signature(log.topics@[0]) {
            None => Some(AppError::ErrorParsingEventLogs),
            Some(k) => if decodable(k, log.data@, log.topics@) {
                None
            } else {
                Some(AppError::ErrorParsingEventLogs)
            },
        }
    }
}

/// `out` is `raw` after repair: a direct transfer whose token contract is the
/// zero address takes the emitting contract's address instead.
pub open spec fn repaired(raw: EventData, emitter: ChainAddress, out: EventData) -> bool {
    match raw {
        EventData::LogErc20Transfer(d) => match out {
            EventData::LogErc20Transfer(o) => if d.token_contract@ == zero_address() {
                o == LiftedData { token_contract: emitter, ..d }
            } else {
                o == d
            },
            _ => false,
        },
        _ => out == raw,
    }
}

/// `ev` is the event decoded from `log`.
pub open spec fn log_yields(log: ChainLog, ev: DiscoveredEvent) -> bool {
    &&& log_error(log).is_none()
    &&& ev.event.event_id.signature == log.topics@[0]
    &&& log.transaction_hash == Some(ev.event.event_id.transaction_hash)
    &&& log.block_number == Some(ev.block)
    &&& exists|raw: EventData|
        #[trigger] decodes_to(kind_of_signature(log.topics@[0]).unwrap(), log.data@, log.topics@, raw)
            && repaired(raw, log.address, ev.event.event_data)
}

/// Decodes the payload of an event with signature `signature`.
pub fn parse_event_data(
    signature: &ChainHash,
    data: &Vec<u8>,
    topics: &Vec<ChainHash>,
    events_registry: &EventRegistry,
) -> (r: Result<EventData, AppError>)
    requires
        events_registry.wf(),
    ensures
        r.is_ok() == (kind_of_signature(*signature) matches Some(k) && decodable(k, data@, topics@)),
        r matches Ok(ev) ==> decodes_to(kind_of_signature(*signature).unwrap(), data@, topics@, ev),
        r matches Err(e) ==> e == AppError::ErrorParsingEventLogs,
{
    match events_registry.get_event_info(signature) {
        Some(info) => info.parse(data, topics),
        None => Err(AppError::ErrorParsingEventLogs),
    }
}

/// Decodes one log into a discovered event.
pub fn parse_log(log: &ChainLog, events_registry: &EventRegistry) -> (r: Result<
    DiscoveredEvent,
    AppError,
>)
    requires
        events_registry.wf(),
    ensures
        r.is_ok() == log_error(*log).is_none(),
        r matches Ok(ev) ==> log_yields(*log, ev),
        r matches Err(e) ==> log_error(*log) == Some(e),
{
    if log.topics.len() == 0 {
        return Err(AppError::MissingEventSignature);
    }
    let signature = log.topics[0];
    let transaction_hash = match log.transaction_hash {
        Some(h) => h,
        None => {
            return Err(AppError::MissingTransactionHash);
        },
    };
    let block = match log.block_number {
        Some(b) => b,
        None => {
            return Err(AppError::MissingBlockNumber);
        },
    };
    let raw = match parse_event_data(&signature, &log.data, &log.topics, events_registry) {
        Ok(ev) => ev,
        Err(e) => {
            return Err(e);
        },
    };
    let event_data = match raw {
        EventData::LogErc20Transfer(d) => {
            if is_zero_address(&d.token_contract) {
                EventData::LogErc20Transfer(
                    LiftedData {
                        token_contract: log.address,
                        sender_address: d.sender_address,
                        receiver_address: d.receiver_address,
                        amount: d.amount,
                    },
                )
            } else {
                raw
            }
        },
        _ => raw,
    };
    let ev = DiscoveredEvent {
        event: EthEvent { event_id: EthEventId { signature, transaction_hash }, event_data },
        block,
    };
    assert(decodes_to(kind_of_signature(log.topics@[0]).unwrap(), log.data@, log.topics@, raw)
        && repaired(raw, log.address, ev.event.event_data));
    Ok(ev)
}

/// The transaction hash of a log that carries one.
pub open spec fn tx_of(l: ChainLog) -> ChainHash {
    match l.transaction_hash {
        Some(h) => h,
        None => arbitrary(),
    }
}

pub open spec fn tx_hashes(s: Seq<ChainLog>) -> Seq<ChainHash> {
    s.map_values(|l: ChainLog| tx_of(l))
}

/// The logs that deduplication keeps, in order: each log that carries a
/// transaction hash that no earlier log carried.
pub open spec fn retained(s: Seq<ChainLog>) -> Seq<ChainLog>
    decreases s.len(),
{
    if s.len() == 0 {
        Seq::empty()
    } else {
        let r = retained(s.drop_last());
        let l = s.last();
        if l.transaction_hash.is_some() && !tx_hashes(r).contains(tx_of(l)) {
            r.push(l)
        } else {
            r
        }
    }
}

/// The logs of `s` whose signature is one of `wanted`, in order.
pub open spec fn wanted_logs(s: Seq<ChainLog>, wanted: Seq<ChainHash>) -> Seq<ChainLog>
    decreases s.len(),
{
    if s.len() == 0 {
        Seq::empty()
    } else {
        let r = wanted_logs(s.drop_last(), wanted);
        if wanted.contains(s.last().topics@[0]) {
            r.push(s.last())
        } else {
            r
        }
    }
}

/// The error of the first log in `s` that cannot be decoded.
pub open spec fn first_error(s: Seq<ChainLog>) -> Option<AppError>
    decreases s.len(),
{
    if s.len() == 0 {
        None
    } else {
        let e = first_error(s.drop_last());
        if e.is_some() {
            e
        } else {
            log_error(s.last())
        }
    }
}

/// The index of the first log in `s` that carries transaction hash `h`, or -1.
pub open spec fn first_tx_index(s: Seq<ChainLog>, h: ChainHash) -> int
    decreases s.len(),
{
    if s.len() == 0 {
        -1
    } else {
        let f = first_tx_index(s.drop_last(), h);
        if f >= 0 {
            f
        } else if s.last().transaction_hash == Some(h) {
            s.len() - 1
        } else {
            -1
        }
    }
}

/// `evs` is what discovery returns for the merged logs `logs`.
pub open spec fn discovered_from(
    logs: Seq<ChainLog>,
    wanted: Seq<ChainHash>,
    evs: Seq<DiscoveredEvent>,
) -> bool {
    let sel = wanted_logs(retained(logs), wanted);
    &&& first_error(retained(logs)).is_none()
    &&& evs.len() == sel.len()
    &&& forall|i: int| 0 <= i < evs.len() ==> log_yields(sel[i], #[trigger] evs[i])
}

pub open spec fn is_prefix<T>(a: Seq<T>, b: Seq<T>) -> bool {
    a.len() <= b.len() && b.subrange(0, a.len() as int) == a
}

proof fn lemma_retained_prefix(s: Seq<ChainLog>, i: int, j: int)
    requires
        0 <= i <= j <= s.len(),
    ensures
        is_prefix(retained(s.subrange(0, i)), retained(s.subrange(0, j))),
    decreases j - i,
{
    let a = retained(s.subrange(0, i));
    if i == j {
        assert(a.subrange(0, a.len() as int) =~= a);
    } else {
        lemma_retained_prefix(s, i, j - 1);
        assert(s.subrange(0, j).drop_last() =~= s.subrange(0, j - 1));
        let b = retained(s.subrange(0, j - 1));
        let c = retained(s.subrange(0, j));
        if c != b {
            assert(c.subrange(0, a.len() as int) =~= b.subrange(0, a.len() as int));
        }
    }
}

proof fn lemma_first_error_prefix(a: Seq<ChainLog>, b: Seq<ChainLog>)
    requires
        is_prefix(a, b),
        first_error(a).is_some(),
    ensures
        first_error(b) == first_error(a),
    decreases b.len(),
{
    if b.len() == a.len() {
        assert(b =~= a);
    } else {
        assert(b.drop_last().subrange(0, a.len() as int) =~= b.subrange(0, a.len() as int));
        lemma_first_error_prefix(a, b.drop_last());
    }
}

proof fn lemma_error_persists(s: Seq<ChainLog>, i: int)
    requires
        0 <= i <= s.len(),
        first_error(retained(s.subrange(0, i))).is_some(),
    ensures
        first_error(retained(s)) == first_error(retained(s.subrange(0, i))),
{
    lemma_retained_prefix(s, i, s.len() as int);
    assert(s.subrange(0, s.len() as int) =~= s);
    lemma_first_error_prefix(retained(s.subrange(0, i)), retained(s));
}

/// Merges the logs of the primary query and of the secondary query, keeps
/// the first log of each transaction (so a primary log wins over a secondary
/// one), decodes each kept log, and returns the events whose signature is one
/// of `event_signatures_to_find`, in the order of their logs.
pub fn merge_discovered_logs(
    primary_logs: Vec<ChainLog>,
    secondary_logs: Vec<ChainLog>,
    event_signatures_to_find: &Vec<ChainHash>,
    events_registry: &EventRegistry,
) -> (r: Result<Vec<DiscoveredEvent>, AppError>)
    requires
        events_registry.wf(),
    ensures
        match r {
            Ok(evs) => discovered_from(
                primary_logs@ + secondary_logs@,
                event_signatures_to_find@,
                evs@,
            ),
            Err(e) => first_error(retained(primary_logs@ + secondary_logs@)) == Some(e),
        },
{
    let ghost all_logs = primary_logs@ + secondary_logs@;
    let mut logs = primary_logs;
    let mut rest = secondary_logs;
    logs.append(&mut rest);
    let ghost w = event_signatures_to_find@;
    let mut seen: Vec<ChainHash> = Vec::new();
    let mut out: Vec<DiscoveredEvent> = Vec::new();
    let mut i: usize = 0;
    assert(logs@.subrange(0, 0) =~= Seq::<ChainLog>::empty());
    assert(tx_hashes(Seq::<ChainLog>::empty()) =~= Seq::<ChainHash>::empty());
    while i < logs.len()
        invariant
            events_registry.wf(),
            logs@ == all_logs,
            all_logs == primary_logs@ + secondary_logs@,
            w == event_signatures_to_find@,
            0 <= i <= logs.len(),
            seen@ == tx_hashes(retained(logs@.subrange(0, i as int))),
            first_error(retained(logs@.subrange(0, i as int))).is_none(),
            out@.len() == wanted_logs(retained(logs@.subrange(0, i as int)), w).len(),
            forall|j: int|
                0 <= j < out@.len() ==> log_yields(
                    wanted_logs(retained(logs@.subrange(0, i as int)), w)[j],
                    #[trigger] out@[j],
                ),
        decreases logs.len() - i,
    {
        let ghost p = logs@.subrange(0, i as int);
        let ghost p1 = logs@.subrange(0, i + 1);
        assert(p1.drop_last() =~= p);
        let ghost r = retained(p);
        let log = &logs[i];
        match log.transaction_hash {
            None => {},
            Some(h) => {
                if !contains_hash(&seen, &h) {
                    assert(retained(p1) == r.push(*log));
                    assert(r.push(*log).drop_last() =~= r);
                    match parse_log(log, events_registry) {
                        Err(e) => {
                            proof {
                                assert(first_error(retained(p1)) == Some(e));
                                lemma_error_persists(logs@, i + 1);
                                assert(first_error(retained(all_logs)) == Some(e));
                            }
                            return Err(e);
                        },
                        Ok(ev) => {
                            assert(tx_hashes(r.push(*log)) =~= tx_hashes(r).push(h));
                            seen.push(h);
                            if contains_hash(event_signatures_to_find, &ev.event.event_id.signature) {
                                let ghost before = out@;
                                out.push(ev);
                                assert forall|j: int| 0 <= j < out@.len() implies log_yields(
                                    wanted_logs(retained(p1), w)[j],
                                    #[trigger] out@[j],
                                ) by {
                                    if j < out@.len() - 1 {
                                        assert(out@[j] == before[j]);
                                    }
                                }
                            }
                        },
                    }
                }
            },
        }
        i = i + 1;
    }
    assert(logs@.subrange(0, logs@.len() as int) =~= logs@);
    Ok(out)
}

proof fn lemma_retained_shape(s: Seq<ChainLog>)
    ensures
        forall|h: ChainHash|
            #![trigger tx_hashes(retained(s)).contains(h)]
            #![trigger first_tx_index(s, h)]
            tx_hashes(retained(s)).contains(h) <==> first_tx_index(s, h) >= 0,
        forall|k: int|
            0 <= k < retained(s).len() ==> {
                let l = #[trigger] retained(s)[k];
                &&& l.transaction_hash.is_some()
                &&& 0 <= first_tx_index(s, tx_of(l)) < s.len()
                &&& l == s[first_tx_index(s, tx_of(l))]
            },
        forall|i: int, j: int|
            0 <= i < j < retained(s).len() ==> tx_of(#[trigger] retained(s)[i]) != tx_of(
                #[trigger] retained(s)[j],
            ),
    decreases s.len(),
{
    if s.len() > 0 {
        let p = s.drop_last();
        let l = s.last();
        let r = retained(p);
        lemma_retained_shape(p);
        assert forall|h: ChainHash| first_tx_index(p, h) >= 0 implies first_tx_index(s, h)
            == first_tx_index(p, h) && first_tx_index(p, h) < p.len() by {
            lemma_first_tx_index_bound(p, h);
        }
        if l.transaction_hash.is_some() && !tx_hashes(r).contains(tx_of(l)) {
            assert(tx_hashes(r.push(l)) =~= tx_hashes(r).push(tx_of(l)));
            assert(retained(s) == r.push(l));
            assert forall|i: int, j: int|
                0 <= i < j < retained(s).len() implies tx_of(#[trigger] retained(s)[i]) != tx_of(
                #[trigger] retained(s)[j],
            ) by {
                if j == r.len() {
                    assert(tx_hashes(r)[i] == tx_of(r[i]));
                }
            }
            assert forall|h: ChainHash| tx_hashes(retained(s)).contains(h) <==> first_tx_index(
                s,
                h,
            ) >= 0 by {
                let rs = tx_hashes(retained(s));
                assert(rs == tx_hashes(r).push(tx_of(l)));
                if rs.contains(h) {
                    let k = choose|k: int| 0 <= k < rs.len() && rs[k] == h;
                    if k < r.len() {
                        assert(tx_hashes(r)[k] == h);
                        assert(tx_hashes(r).contains(h));
                        assert(first_tx_index(p, h) >= 0);
                    } else {
                        assert(tx_of(l) == h);
                    }
                }
                if first_tx_index(s, h) >= 0 {
                    if first_tx_index(p, h) >= 0 {
                        assert(tx_hashes(r).contains(h));
                        let k = choose|k: int| 0 <= k < tx_hashes(r).len() && tx_hashes(r)[k] == h;
                        assert(rs[k] == h);
                    } else {
                        assert(rs[r.len() as int] == h);
                    }
                }
            }
        } else {
            assert(retained(s) == r);
            assert forall|h: ChainHash| tx_hashes(retained(s)).contains(h) <==> first_tx_index(
                s,
                h,
            ) >= 0 by {
                if l.transaction_hash == Some(h) {
                    assert(tx_hashes(r).contains(h));
                }
            }
        }
    }
}

proof fn lemma_wanted_logs_from(s: Seq<ChainLog>, wanted: Seq<ChainHash>)
    ensures
        forall|i: int|
            0 <= i < wanted_logs(s, wanted).len() ==> s.contains(
                #[trigger] wanted_logs(s, wanted)[i],
            ) && wanted.contains(wanted_logs(s, wanted)[i].topics@[0]),
    decreases s.len(),
{
    if s.len() > 0 {
        let p = s.drop_last();
        lemma_wanted_logs_from(p, wanted);
        let r = wanted_logs(p, wanted);
        assert forall|i: int| 0 <= i < wanted_logs(s, wanted).len() implies s.contains(
            #[trigger] wanted_logs(s, wanted)[i],
        ) && wanted.contains(wanted_logs(s, wanted)[i].topics@[0]) by {
            if i < r.len() {
                assert(wanted_logs(s, wanted)[i] == r[i]);
                assert(p.contains(r[i]));
                let k = choose|k: int| 0 <= k < p.len() && p[k] == r[i];
                assert(s[k] == p[k]);
            } else {
                assert(wanted_logs(s, wanted)[i] == s[s.len() - 1]);
            }
        }
    }
}

proof fn lemma_wanted_logs_distinct(s: Seq<ChainLog>, wanted: Seq<ChainHash>)
    requires
        forall|a: int, b: int| 0 <= a < b < s.len() ==> tx_of(#[trigger] s[a]) != tx_of(#[trigger] s[b]),
    ensures
        forall|i: int, j: int|
            0 <= i < j < wanted_logs(s, wanted).len() ==> tx_of(
                #[trigger] wanted_logs(s, wanted)[i],
            ) != tx_of(#[trigger] wanted_logs(s, wanted)[j]),
    decreases s.len(),
{
    if s.len() > 0 {
        let p = s.drop_last();
        assert forall|a: int, b: int| 0 <= a < b < p.len() implies tx_of(#[trigger] p[a]) != tx_of(
            #[trigger] p[b],
        ) by {
            assert(p[a] == s[a] && p[b] == s[b]);
        }
        lemma_wanted_logs_distinct(p, wanted);
        lemma_wanted_logs_from(p, wanted);
        let r = wanted_logs(p, wanted);
        assert forall|i: int, j: int| 0 <= i < j < wanted_logs(s, wanted).len() implies tx_of(
            #[trigger] wanted_logs(s, wanted)[i],
        ) != tx_of(#[trigger] wanted_logs(s, wanted)[j]) by {
            assert(wanted_logs(s, wanted)[i] == r[i]);
            if j >= r.len() {
                assert(p.contains(r[i]));
                let k = choose|k: int| 0 <= k < p.len() && p[k] == r[i];
                assert(s[k] == p[k]);
                assert(wanted_logs(s, wanted)[j] == s[s.len() - 1]);
            } else {
                assert(wanted_logs(s, wanted)[j] == r[j]);
            }
        }
    }
}

proof fn lemma_first_tx_index_append(p: Seq<ChainLog>, q: Seq<ChainLog>, h: ChainHash)
    requires
        first_tx_index(p, h) >= 0,
    ensures
        first_tx_index(p + q, h) == first_tx_index(p, h),
    decreases q.len(),
{
    if q.len() == 0 {
        assert(p + q =~= p);
    } else {
        assert((p + q).drop_last() =~= p + q.drop_last());
        lemma_first_tx_index_append(p, q.drop_last(), h);
    }
}

/// Discovery yields at most one event per transaction hash, however many of
/// the merged logs share it.
pub proof fn lemma_one_event_per_transaction(
    primary_logs: Seq<ChainLog>,
    secondary_logs: Seq<ChainLog>,
    wanted: Seq<ChainHash>,
    evs: Seq<DiscoveredEvent>,
)
    requires
        discovered_from(primary_logs + secondary_logs, wanted, evs),
    ensures
        forall|i: int, j: int|
            0 <= i < j < evs.len() ==> #[trigger] evs[i].event.event_id.transaction_hash
                != #[trigger] evs[j].event.event_id.transaction_hash,
{
    let s = primary_logs + secondary_logs;
    lemma_retained_shape(s);
    lemma_wanted_logs_distinct(retained(s), wanted);
    let sel = wanted_logs(retained(s), wanted);
    assert forall|i: int, j: int| 0 <= i < j < evs.len() implies #[trigger] evs[i].event.event_id.transaction_hash
        != #[trigger] evs[j].event.event_id.transaction_hash by {
        assert(log_yields(sel[i], evs[i]));
        assert(log_yields(sel[j], evs[j]));
        assert(tx_of(sel[i]) != tx_of(sel[j]));
    }
}

/// Every discovered event's signature is one of the signatures asked for,
/// even where other events were found and decoded.
pub proof fn lemma_only_requested_signatures(
    primary_logs: Seq<ChainLog>,
    secondary_logs: Seq<ChainLog>,
    wanted: Seq<ChainHash>,
    evs: Seq<DiscoveredEvent>,
)
    requires
        discovered_from(primary_logs + secondary_logs, wanted, evs),
    ensures
        forall|i: int| 0 <= i < evs.len() ==> wanted.contains(#[trigger] evs[i].event.event_id.signature),
{
    let s = primary_logs + secondary_logs;
    lemma_wanted_logs_from(retained(s), wanted);
    let sel = wanted_logs(retained(s), wanted);
    assert forall|i: int| 0 <= i < evs.len() implies wanted.contains(#[trigger] evs[i].event.event_id.signature) by {
        assert(log_yields(sel[i], evs[i]));
    }
}

/// When a primary log and a secondary log carry the same transaction hash,
/// the event discovered for that transaction is the one decoded from the
/// first primary log that carries it.
pub proof fn lemma_primary_takes_precedence(
    primary_logs: Seq<ChainLog>,
    secondary_logs: Seq<ChainLog>,
    wanted: Seq<ChainHash>,
    evs: Seq<DiscoveredEvent>,
    h: ChainHash,
)
    requires
        discovered_from(primary_logs + secondary_logs, wanted, evs),
        first_tx_index(primary_logs, h) >= 0,
    ensures
        forall|i: int|
            0 <= i < evs.len() && #[trigger] evs[i].event.event_id.transaction_hash == h
                ==> log_yields(primary_logs[first_tx_index(primary_logs, h)], evs[i]),
{
    let s = primary_logs + secondary_logs;
    lemma_retained_shape(s);
    lemma_wanted_logs_from(retained(s), wanted);
    lemma_first_tx_index_append(primary_logs, secondary_logs, h);
    lemma_first_tx_index_bound(primary_logs, h);
    let sel = wanted_logs(retained(s), wanted);
    assert forall|i: int|
        0 <= i < evs.len() && #[trigger] evs[i].event.event_id.transaction_hash == h implies log_yields(
        primary_logs[first_tx_index(primary_logs, h)],
        evs[i],
    ) by {
        assert(log_yields(sel[i], evs[i]));
        assert(retained(s).contains(sel[i]));
        let k = choose|k: int| 0 <= k < retained(s).len() && retained(s)[k] == sel[i];
        assert(tx_of(retained(s)[k]) == h);
    }
}

proof fn lemma_first_tx_index_bound(s: Seq<ChainLog>, h: ChainHash)
    ensures
        first_tx_index(s, h) < s.len(),
        first_tx_index(s, h) >= 0 ==> s[first_tx_index(s, h)].transaction_hash == Some(h),
    decreases s.len(),
{
    if s.len() > 0 {
        lemma_first_tx_index_bound(s.drop_last(), h);
    }
}

/// The signatures of the events in `ks` that are primary (`primary`) or
/// secondary (`!primary`), in order.
pub open spec fn signatures_of(ks: Seq<ValidEvents>, primary: bool) -> Seq<ChainHash>
    decreases ks.len(),
{
    if ks.len() == 0 {
        Seq::empty()
    } else {
        let r = signatures_of(ks.drop_last(), primary);
        if ks.last().spec_is_primary() == primary {
            r.push(ks.last().spec_signature())
        } else {
            r
        }
    }
}

/// The signatures of every primary (or every secondary) event.
pub fn event_signatures(primary: bool) -> (r: Vec<ChainHash>)
    ensures
        r@ == signatures_of(all_valid_events(), primary),
{
    let kinds = ValidEvents::values();
    let mut r: Vec<ChainHash> = Vec::new();
    let mut i: usize = 0;
    while i < kinds.len()
        invariant
            kinds@ == all_valid_events(),
            0 <= i <= kinds.len(),
            r@ == signatures_of(kinds@.subrange(0, i as int), primary),
        decreases kinds.len() - i,
    {
        assert(kinds@.subrange(0, i + 1).drop_last() =~= kinds@.subrange(0, i as int));
        if kinds[i].is_primary() == primary {
            r.push(kinds[i].signature());
        }
        i = i + 1;
    }
    assert(kinds@.subrange(0, kinds@.len() as int) =~= kinds@);
    r
}

fn copy_addresses(addresses: &Vec<ChainAddress>) -> (r: Vec<ChainAddress>)
    ensures
        r@ == addresses@,
{
    let mut r: Vec<ChainAddress> = Vec::new();
    let mut i: usize = 0;
    while i < addresses.len()
        invariant
            0 <= i <= addresses.len(),
            r@ == addresses@.subrange(0, i as int),
        decreases addresses.len() - i,
    {
        r.push(addresses[i]);
        assert(r@ =~= addresses@.subrange(0, i + 1));
        i = i + 1;
    }
    assert(r@ =~= addresses@);
    r
}

/// The query for primary events: every primary signature, emitted by one of
/// the bridge contracts, in blocks `start_block..=end_block`.
pub fn primary_events_filter(
    start_block: u64,
    end_block: u64,
    bridge_contract_addresses: &Vec<ChainAddress>,
) -> (f: LogFilter)
    ensures
        f.from_block == start_block,
        f.to_block == end_block,
        f.addresses@ == bridge_contract_addresses@,
        f.topics[0] matches Some(t) && t@ == signatures_of(all_valid_events(), true),
        f.topics[1].is_none(),
        f.topics[2].is_none(),
        f.topics[3].is_none(),
{
    let topic0 = event_signatures(true);
    LogFilter {
        from_block: start_block,
        to_block: end_block,
        addresses: copy_addresses(bridge_contract_addresses),
        topics: [Some(topic0), None, None, None],
    }
}

/// The query for secondary events: every secondary signature, emitted by any
/// contract, whose third topic names one of the bridge contracts.
pub fn secondary_events_filter(
    start_block: u64,
    end_block: u64,
    bridge_contract_addresses: &Vec<ChainAddress>,
) -> (f: LogFilter)
    ensures
        f.from_block == start_block,
        f.to_block == end_block,
        f.addresses@.len() == 0,
        f.topics[0] matches Some(t) && t@ == signatures_of(all_valid_events(), false),
        f.topics[1].is_none(),
        f.topics[2] matches Some(t) && t@.len() == bridge_contract_addresses@.len() && forall|i: int|
            0 <= i < t@.len() ==> (#[trigger] t@[i])@ == padded_address(
                bridge_contract_addresses@[i]@,
            ),
        f.topics[3].is_none(),
{
    let topic0 = event_signatures(false);
    let mut topic2: Vec<ChainHash> = Vec::new();
    let mut i: usize = 0;
    while i < bridge_contract_addresses.len()
        invariant
            0 <= i <= bridge_contract_addresses.len(),
            topic2@.len() == i,
            forall|j: int|
                0 <= j < i ==> (#[trigger] topic2@[j])@ == padded_address(
                    bridge_contract_addresses@[j]@,
                ),
        decreases bridge_contract_addresses.len() - i,
    {
        topic2.push(address_to_topic(&bridge_contract_addresses[i]));
        i = i + 1;
    }
    LogFilter {
        from_block: start_block,
        to_block: end_block,
        addresses: Vec::new(),
        topics: [Some(topic0), None, Some(topic2), None],
    }
}

/// Some signature in `wanted` is that of a secondary event.
pub open spec fn wants_secondary(wanted: Seq<ChainHash>) -> bool {
    exists|i: int|
        0 <= i < wanted.len() && (#[trigger] kind_of_signature(wanted[i]) matches Some(k)
            && !k.spec_is_primary())
}

/// Whether discovery must also query secondary events: only when one of the
/// signatures asked for is a secondary event's.
pub fn needs_secondary_discovery(event_signatures_to_find: &Vec<ChainHash>) -> (r: bool)
    ensures
        r == wants_secondary(event_signatures_to_find@),
{
    let mut i: usize = 0;
    while i < event_signatures_to_find.len()
        invariant
            0 <= i <= event_signatures_to_find.len(),
            forall|j: int|
                0 <= j < i ==> !(#[trigger] kind_of_signature(event_signatures_to_find@[j]) matches Some(
                    k,
                ) && !k.spec_is_primary()),
        decreases event_signatures_to_find.len() - i,
    {
        match ValidEvents::from_signature(&event_signatures_to_find[i]) {
            Some(k) => {
                if !k.is_primary() {
                    assert(kind_of_signature(event_signatures_to_find@[i as int]) matches Some(k)
                        && !k.spec_is_primary());
                    return true;
                }
            },
            None => {},
        }
        i = i + 1;
    }
    false
}

/// The block numbers of the receipts that were found and carry one, in order.
pub open spec fn receipt_blocks(receipts: Seq<Option<ChainReceipt>>) -> Seq<u64>
    decreases receipts.len(),
{
    if receipts.len() == 0 {
        Seq::empty()
    } else {
        let r = receipt_blocks(receipts.drop_last());
        match receipts.last() {
            Some(receipt) => match receipt.block_number {
                Some(b) => r.push(b),
                None => r,
            },
            None => r,
        }
    }
}

/// The blocks to search again for the additional transactions whose receipts
/// were fetched: each receipt found that names its block.
pub fn receipt_block_numbers(receipts: &Vec<Option<ChainReceipt>>) -> (r: Vec<u64>)
    ensures
        r@ == receipt_blocks(receipts@),
{
    let mut r: Vec<u64> = Vec::new();
    let mut i: usize = 0;
    while i < receipts.len()
        invariant
            0 <= i <= receipts.len(),
            r@ == receipt_blocks(receipts@.subrange(0, i as int)),
        decreases receipts.len() - i,
    {
        assert(receipts@.subrange(0, i + 1).drop_last() =~= receipts@.subrange(0, i as int));
        match &receipts[i] {
            Some(receipt) => match receipt.block_number {
                Some(b) => r.push(b),
                None => {},
            },
            None => {},
        }
        i = i + 1;
    }
    assert(receipts@.subrange(0, receipts@.len() as int) =~= receipts@);
    r
}

/// A direct transfer takes the address of the contract that emitted it as
/// its token contract, since its data does not name the token.
pub proof fn lemma_direct_transfer_names_emitter(log: ChainLog, ev: DiscoveredEvent)
    requires
        log_yields(log, ev),
        kind_of_signature(log.topics@[0]) == Some(ValidEvents::Erc20DirectTransfer),
    ensures
        ev.event.event_data matches EventData::LogErc20Transfer(d) && d.token_contract
            == log.address,
{
    let raw = choose|raw: EventData|
        #[trigger] decodes_to(kind_of_signature(log.topics@[0]).unwrap(), log.data@, log.topics@, raw)
            && repaired(raw, log.address, ev.event.event_data);
    assert(raw matches EventData::LogErc20Transfer(d) && d.token_contract@ == zero_address());
}

} // verus!
