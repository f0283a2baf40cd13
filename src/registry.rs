//! The registry of known events, keyed by signature, built once and never
//! changed afterwards.

use vstd::prelude::*;

use crate::bytes::{hash_eq, ChainHash};
use crate::event_data::{decodable, decode_event_data, decodes_to, EventData};
use crate::events::{
    all_valid_events, kind_of_signature, lemma_signature_names_event, AppError, ValidEvents,
};

verus! {

/// The decoder registered for one signature.
#[derive(Clone, Copy, Debug, PartialEq, Eq)]
pub struct EventInfo {
    pub signature: ChainHash,
    pub kind: ValidEvents,
}

/// The entry that the registry holds for event `k`.
pub open spec fn info_of(k: ValidEvents) -> EventInfo {
    EventInfo { signature: k.spec_signature(), kind: k }
}

/// The registry's table: one entry per known event.
pub open spec fn registry_table() -> Seq<EventInfo> {
    all_valid_events().map_values(|k: ValidEvents| info_of(k))
}

impl EventInfo {
    /// Decodes a log's data and topics as this entry's event.
    pub fn parse(&self, data: &Vec<u8>, topics: &Vec<ChainHash>) -> (r: Result<EventData, AppError>)
        ensures
            r.is_ok() == decodable(self.kind, data@, topics@),
            r matches Ok(ev) ==> decodes_to(self.kind, data@, topics@, ev),
            r matches Err(e) ==> e == AppError::ErrorParsingEventLogs,
    {
        decode_event_data(self.kind, data, topics)
    }
}

/// Maps each known event signature to its decoder.
pub struct EventRegistry {
    registry: Vec<EventInfo>,
}

impl View for EventRegistry {
    type V = Seq<EventInfo>;

    closed spec fn view(&self) -> Seq<EventInfo> {
        self.registry@
    }
}

impl EventRegistry {
    /// The registry holds exactly the table of known events.
    pub open spec fn wf(&self) -> bool {
        self@ == registry_table()
    }

    pub fn new() -> (r: Self)
        ensures
            r.wf(),
    {
        let kinds = ValidEvents::values();
        let mut registry: Vec<EventInfo> = Vec::new();
        let mut i: usize = 0;
        while i < kinds.len()
            invariant
                kinds@ == all_valid_events(),
                0 <= i <= kinds.len(),
                registry@ == kinds@.subrange(0, i as int).map_values(|k: ValidEvents| info_of(k)),
            decreases kinds.len() - i,
        {
            let k = kinds[i];
            registry.push(EventInfo { signature: k.signature(), kind: k });
            assert(kinds@.subrange(0, i + 1).map_values(|k: ValidEvents| info_of(k))
                =~= kinds@.subrange(0, i as int).map_values(|k: ValidEvents| info_of(k)).push(
                info_of(k),
            ));
            i = i + 1;
        }
        assert(kinds@.subrange(0, kinds@.len() as int) =~= kinds@);
        EventRegistry { registry }
    }

    /// The decoder registered for `signature`, if it is a known event's.
    pub fn get_event_info(&self, signature: &ChainHash) -> (r: Option<&EventInfo>)
        requires
            self.wf(),
        ensures
            match r {
                Some(info) => kind_of_signature(*signature) == Some(info.kind) && info.signature
                    == *signature,
                None => kind_of_signature(*signature).is_none(),
            },
    {
        let mut i: usize = 0;
        while i < self.registry.len()
            invariant
                self.wf(),
                0 <= i <= self.registry.len(),
                forall|j: int| 0 <= j < i ==> self@[j].signature != *signature,
            decreases self.registry.len() - i,
        {
            if hash_eq(&self.registry[i].signature, signature) {
                proof {
                    lemma_signature_names_event(self@[i as int].kind);
                }
                return Some(&self.registry[i]);
            }
            i = i + 1;
        }
        proof {
            assert forall|k: ValidEvents| k.spec_signature() != *signature by {
                let j: int = match k {
                    ValidEvents::AddedValidator => 0,
                    ValidEvents::Lifted => 1,
                    ValidEvents::NftMint => 2,
                    ValidEvents::NftTransferTo => 3,
                    ValidEvents::NftCancelListing => 4,
                    ValidEvents::NftEndBatchListing => 5,
                    ValidEvents::AvtGrowthLifted => 6,
                    ValidEvents::AvtLowerClaimed => 7,
                    ValidEvents::LiftedToPredictionMarket => 8,
                    ValidEvents::Erc20DirectTransfer => 9,
                    ValidEvents::LowerReverted => 10,
                };
                assert(self@[j] == info_of(k));
            }
            if let Some(k) = kind_of_signature(*signature) {
                lemma_signature_names_event(k);
            }
        }
        None
    }
}

} // verus!
