//! The durable map from request identifier to request entry.  The only
//! mutation path for an existing entry is the atomic
//! [`RequestStore::transition`], which re-checks the entry's state itself:
//! the store offers reads, but no write that skips that check.

use std::collections::HashMap;

use vstd::prelude::*;

use crate::pallet::Error;
use crate::types::AccountId;
use crate::types::Balance;
use crate::types::RequestId;
use crate::types::Timestamp;

verus! {

/// One request, in one of its two states.  Once fulfilled, the query and the
/// requester identity are discarded; the entry itself is retained forever as
/// a historical record.
pub enum RequestEntry {
    /// Posted and awaiting a result.
    Open {
        /// The query payload.
        bytes: Vec<u8>,
        /// The reward held in escrow for whoever reports the result.
        reward: Balance,
        /// The account that posted the request and funded the escrow.
        requester: AccountId,
    },
    /// Resolved; no operation ever reopens it.
    Fulfilled {
        /// The moment the reporter attached to the result.
        timestamp: Timestamp,
        /// An opaque 32-byte correlation hash supplied by the reporter.
        dr_tx_hash: [u8; 32],
        /// The reported payload.
        result_bytes: Vec<u8>,
    },
}

/// The mathematical value of a [`RequestEntry`].
pub enum EntryModel {
    /// Posted and awaiting a result.
    Open {
        /// The query payload.
        bytes: Seq<u8>,
        /// The escrowed reward.
        reward: Balance,
        /// The posting account.
        requester: AccountId,
    },
    /// Resolved.
    Fulfilled {
        /// The reported moment.
        timestamp: Timestamp,
        /// The correlation hash.
        dr_tx_hash: Seq<u8>,
        /// The reported payload.
        result_bytes: Seq<u8>,
    },
}

impl View for RequestEntry {
    type V = EntryModel;

    open spec fn view(&self) -> EntryModel {
        match self {
            RequestEntry::Open { bytes, reward, requester } => EntryModel::Open {
                bytes: bytes@,
                reward: *reward,
                requester: *requester,
            },
            RequestEntry::Fulfilled { timestamp, dr_tx_hash, result_bytes } => {
                EntryModel::Fulfilled {
                    timestamp: *timestamp,
                    dr_tx_hash: dr_tx_hash@,
                    result_bytes: result_bytes@,
                }
            },
        }
    }
}

/// The request ledger: a request id maps to at most one entry, and an entry,
/// once created, is never removed.
pub struct RequestStore {
    map: HashMap<RequestId, RequestEntry>,
}

impl View for RequestStore {
    type V = Map<RequestId, EntryModel>;

    closed spec fn view(&self) -> Map<RequestId, EntryModel> {
        Map::new(|id: RequestId| self.map@.contains_key(id), |id: RequestId| self.map@[id]@)
    }
}

impl RequestStore {
    /// An empty store.
    pub fn new() -> (r: RequestStore)
        ensures
            r@ == Map::<RequestId, EntryModel>::empty(),
    {
        let r = RequestStore { map: HashMap::new() };
        proof {
            assert(r@ =~= Map::<RequestId, EntryModel>::empty());
        }
        r
    }

    /// Reads the entry filed under `id`, if any.
    pub fn get(&self, id: RequestId) -> (r: Option<&RequestEntry>)
        ensures
            match r {
                Some(entry) => self@.dom().contains(id) && entry@ == self@[id],
                None => !self@.dom().contains(id),
            },
    {
        self.map.get(&id)
    }

    /// Files `entry` under `id`.  The allocator guarantees freshness until it
    /// wraps; after a wraparound an existing entry would be overwritten, the
    /// documented consequence of id exhaustion.
    pub fn insert(&mut self, id: RequestId, entry: RequestEntry)
        ensures
            final(self)@ == old(self)@.insert(id, entry@),
    {
        let ghost entry_model = entry@;
        self.map.insert(id, entry);
        proof {
            assert(self@ =~= old(self)@.insert(id, entry_model));
        }
    }

    /// The atomic read-modify-write used by `report_result`, with its
    /// three-way outcome: `UnknownRequest` if `id` was never posted,
    /// `AlreadyReported` if the entry is already fulfilled, and otherwise a
    /// committed `Open -> Fulfilled` transition yielding the escrowed reward
    /// and the requester who funded it.  A refused call leaves the store
    /// unmodified.
    pub fn transition(
        &mut self,
        id: RequestId,
        timestamp: Timestamp,
        dr_tx_hash: [u8; 32],
        result_bytes: Vec<u8>,
    ) -> (r: Result<(Balance, AccountId), Error>)
        ensures
            match r {
                Ok((reward, requester)) => {
                    &&& old(self)@.dom().contains(id)
                    &&& old(self)@[id] is Open
                    &&& reward == old(self)@[id]->reward
                    &&& requester == old(self)@[id]->requester
                    &&& final(self)@ == old(self)@.insert(
                        id,
                        EntryModel::Fulfilled {
                            timestamp,
                            dr_tx_hash: dr_tx_hash@,
                            result_bytes: result_bytes@,
                        },
                    )
                },
                Err(e) => {
                    &&& final(self)@ == old(self)@
                    &&& match e {
                        Error::UnknownRequest => !old(self)@.dom().contains(id),
                        Error::AlreadyReported => old(self)@.dom().contains(id) && old(
                            self,
                        )@[id] is Fulfilled,
                        _ => false,
                    }
                },
            },
    {
        let (reward, requester) = match self.map.get(&id) {
            None => {
                return Err(Error::UnknownRequest);
            },
            Some(RequestEntry::Fulfilled { .. }) => {
                return Err(Error::AlreadyReported);
            },
            Some(RequestEntry::Open { reward, requester, .. }) => (*reward, *requester),
        };
        let ghost fulfilled = EntryModel::Fulfilled {
            timestamp,
            dr_tx_hash: dr_tx_hash@,
            result_bytes: result_bytes@,
        };
        self.map.insert(id, RequestEntry::Fulfilled { timestamp, dr_tx_hash, result_bytes });
        proof {
            assert(self@ =~= old(self)@.insert(id, fulfilled));
        }
        Ok((reward, requester))
    }
}

} // verus!
