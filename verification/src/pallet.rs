//! The oracle service: the four public operations over the allocator, the
//! operator registry, the request store and the escrow ledger.

use vstd::prelude::*;

use crate::allocator::wrapping_inc;
use crate::allocator::RequestIdAllocator;
use crate::clock::Clock;
use crate::ledger::EscrowLedger;
use crate::ledger::LedgerError;
use crate::registry::OperatorRegistry;
use crate::store::EntryModel;
use crate::store::RequestEntry;
use crate::store::RequestStore;
use crate::types::AccountId;
use crate::types::Balance;
use crate::types::RequestId;
use crate::types::Timestamp;

verus! {

/// Why an operation was refused.  Every kind is returned to the caller and
/// causes no mutation: a refused call is all-or-nothing.
#[derive(Clone, Copy, Debug, PartialEq, Eq, Structural)]
pub enum Error {
    /// A request is too big or overly complex.
    OversizedRequest,
    /// A request is not paying enough.
    UnderpayingRequest,
    /// Tried to follow up on a request id that was never posted.
    UnknownRequest,
    /// The caller is not an operator.
    UnauthorizedOperator,
    /// Reported an empty byte array as the result to a request.
    EmptyResult,
    /// A result is too big or overly complex.
    OversizedResult,
    /// The reported timestamp comes from the future.
    ResultFromFuture,
    /// The result of this request had already been reported.
    AlreadyReported,
    /// An operator is trying to add themself as operator.
    OperatorSelfAddition,
    /// An operator is trying to remove themself as operator.
    OperatorSelfRemoval,
    /// The specific operator account id is unknown.
    UnknownOperator,
    /// The escrow ledger refused a movement; its error is passed on
    /// unchanged.
    Ledger(LedgerError),
}

/// What the oracle signals to external observers.  Delivery is the host's
/// concern; the service records each emitted event in order.
#[derive(Clone, Copy, Debug, PartialEq, Eq, Structural)]
pub enum Event {
    /// A request has been posted.
    PostedRequest {
        /// The id the new request was filed under.
        request_id: RequestId,
        /// The account that posted it.
        requester: AccountId,
    },
    /// A request has been resolved.
    PostedResult {
        /// The id of the resolved request.
        request_id: RequestId,
        /// The operator that reported the result.
        reporter: AccountId,
    },
    /// A new operator has been added.
    AddedOperator {
        /// The account that gained operator rights.
        added_operator: AccountId,
        /// The operator that granted them.
        added_by: AccountId,
    },
    /// A former operator has been removed.
    RemovedOperator {
        /// The account that lost operator rights.
        removed_operator: AccountId,
        /// The operator that revoked them.
        removed_by: AccountId,
    },
}

/// Fixed parameters of one oracle instance.
#[derive(Clone, Copy, Debug, PartialEq, Eq, Structural)]
pub struct Config {
    /// The maximum number of bytes a request payload or a reported result
    /// can take.
    pub max_byte_size: u32,
}

/// The bootstrap list: the accounts seeded as operators before any
/// operation is accepted.
pub struct GenesisConfig {
    /// The initial operator accounts.  Duplicates are harmless: the registry
    /// keeps set semantics.
    pub operators: Vec<AccountId>,
}

impl GenesisConfig {
    /// Wraps a list of initial operators.
    pub fn from_operators(operators: Vec<AccountId>) -> (r: GenesisConfig)
        ensures
            r.operators@ == operators@,
    {
        GenesisConfig { operators }
    }

    /// Builds the operator registry seeded with the bootstrap list.
    pub fn build(&self) -> (r: OperatorRegistry)
        ensures
            r.wf(),
            forall|a: AccountId| #[trigger] r@.contains(a) <==> self.operators@.contains(a),
    {
        let mut registry = OperatorRegistry::new();
        let n = self.operators.len();
        let mut i: usize = 0;
        while i < n
            invariant
                registry.wf(),
                i <= n,
                n == self.operators@.len(),
                forall|a: AccountId| #[trigger]
                    registry@.contains(a) <==> exists|k: int|
                        0 <= k < i && self.operators@[k] == a,
            decreases n - i,
        {
            registry.seed_member(self.operators[i]);
            proof {
                assert forall|a: AccountId| #[trigger]
                    registry@.contains(a) implies exists|k: int|
                    0 <= k < i + 1 && self.operators@[k] == a by {
                    if a == self.operators@[i as int] {
                        assert(self.operators@[i as int] == a);
                    } else {
                        let k = choose|k: int| 0 <= k < i && self.operators@[k] == a;
                        assert(self.operators@[k] == a);
                    }
                };
            }
            i += 1;
        }
        proof {
            assert forall|a: AccountId| #[trigger]
                registry@.contains(a) <==> self.operators@.contains(a) by {
                if registry@.contains(a) {
                    let k = choose|k: int| 0 <= k < n && self.operators@[k] == a;
                    assert(self.operators@[k] == a);
                }
                if self.operators@.contains(a) {
                    let k = choose|k: int|
                        0 <= k < self.operators@.len() && self.operators@[k] == a;
                    assert(0 <= k < n && self.operators@[k] == a);
                }
            };
        }
        registry
    }
}

impl Default for GenesisConfig {
    /// An empty bootstrap list.
    fn default() -> (r: GenesisConfig)
        ensures
            r.operators@.len() == 0,
    {
        GenesisConfig { operators: Vec::new() }
    }
}

/// The reward a request of `bytes_len` payload bytes must offer to
/// foreseeably cover the cost of reporting.  The baseline cost model accepts
/// any reward; a future fee-estimation policy would replace it.
pub open spec fn spec_estimate_report_reward(bytes_len: nat) -> Balance {
    0
}

/// Computes the required reward for a request of `bytes_len` payload bytes.
pub fn estimate_report_reward(bytes_len: usize) -> (r: Balance)
    ensures
        r == spec_estimate_report_reward(bytes_len as nat),
{
    0
}

/// Every account's balances agree between the two ledger states: the
/// operation moved no funds.
pub open spec fn ledger_unchanged<L: EscrowLedger>(l0: L, l1: L) -> bool {
    forall|a: AccountId|
        #![auto]
        l1.free(a) == l0.free(a) && l1.held(a) == l0.held(a)
}

/// Between the two ledger states, exactly `amount` of `account`'s free
/// balance moved into escrow and nothing else changed.
pub open spec fn funds_held<L: EscrowLedger>(
    l0: L,
    l1: L,
    account: AccountId,
    amount: Balance,
) -> bool {
    l0.free(account) >= amount && l1.free(account) == l0.free(account) - amount && l1.held(
        account,
    ) == l0.held(account) + amount && forall|a: AccountId|
        #![auto]
        a != account ==> l1.free(a) == l0.free(a) && l1.held(a) == l0.held(a)
}

/// Between the two ledger states, exactly `reward` moved out of
/// `requester`'s escrow into `reporter`'s free balance and nothing else
/// changed.
pub open spec fn reward_paid<L: EscrowLedger>(
    l0: L,
    l1: L,
    requester: AccountId,
    reporter: AccountId,
    reward: Balance,
) -> bool {
    l0.held(requester) >= reward && l1.held(requester) == l0.held(requester) - reward && (requester
        != reporter ==> l1.free(requester) == l0.free(requester) && l1.free(reporter) == l0.free(
        reporter,
    ) + reward && l1.held(reporter) == l0.held(reporter)) && (requester == reporter ==> l1.free(
        reporter,
    ) == l0.free(reporter) + reward) && forall|a: AccountId|
        #![auto]
        a != requester && a != reporter ==> l1.free(a) == l0.free(a) && l1.held(a) == l0.held(a)
}

/// While the allocator has not wrapped, the id a successful post is about
/// to issue is never already on file: request ids are never reused.
pub proof fn lemma_fresh_id_not_on_file(p: Pallet)
    requires
        p.ids_bounded(),
    ensures
        !p.requests().dom().contains(p.next_request_id()),
{
    if p.requests().dom().contains(p.next_request_id()) {
        assert(p.next_request_id() < p.next_request_id());
    }
}

/// Fulfilment is terminal: the state a successful report commits holds a
/// fulfilled entry under the reported id, and on a fulfilled entry every
/// later report fails `AlreadyReported` by the contract of `report_result`.
/// A request is therefore reported at most once.
pub proof fn lemma_fulfilled_is_terminal(
    requests: Map<RequestId, EntryModel>,
    request_id: RequestId,
    entry: EntryModel,
)
    requires
        entry is Fulfilled,
    ensures
        requests.insert(request_id, entry).dom().contains(request_id),
        requests.insert(request_id, entry)[request_id] is Fulfilled,
{
}

/// A newly added operator immediately gains reporting and administration
/// rights: the operator set a successful addition commits contains the new
/// account, and membership in that set is the whole authorization test of
/// `report_result`, `add_operator` and `remove_operator`.
pub proof fn lemma_added_operator_gains_rights(p0: Pallet, p1: Pallet, target: AccountId)
    requires
        p1.operators() == p0.operators().insert(target),
    ensures
        p1.is_operator(target),
{
}

/// The oracle service: the operator registry, the request store, the id
/// allocator and the log of emitted events, orchestrated by the four public
/// operations.  The escrow ledger and the clock stay with the host and are
/// passed in at each call.
pub struct Pallet {
    config: Config,
    allocator: RequestIdAllocator,
    registry: OperatorRegistry,
    store: RequestStore,
    events: Vec<Event>,
}

impl Pallet {
    /// The maximum accepted payload or result size, in bytes.
    pub closed spec fn max_byte_size(&self) -> u32 {
        self.config.max_byte_size
    }

    /// The id the next successful `post_request` will return.
    pub closed spec fn next_request_id(&self) -> RequestId {
        self.allocator.next_id()
    }

    /// The current operator set.
    pub closed spec fn operators(&self) -> Set<AccountId> {
        self.registry@
    }

    /// Whether `account` is currently an operator.
    pub open spec fn is_operator(&self, account: AccountId) -> bool {
        self.operators().contains(account)
    }

    /// The request ledger: every posted request, open or fulfilled.
    pub closed spec fn requests(&self) -> Map<RequestId, EntryModel> {
        self.store@
    }

    /// The events emitted so far, oldest first.
    pub closed spec fn emitted_events(&self) -> Seq<Event> {
        self.events@
    }

    /// The representation invariant: the registry holds a set.
    pub closed spec fn wf(&self) -> bool {
        self.registry.wf()
    }

    /// Every filed request id lies below the allocator's counter.  This
    /// holds from initialization until the counter wraps, and it is what
    /// makes every freshly allocated id new: ids are never reused barring
    /// wraparound.
    pub open spec fn ids_bounded(&self) -> bool {
        forall|id: RequestId| #[trigger]
            self.requests().dom().contains(id) ==> id < self.next_request_id()
    }

    /// The three validation outcomes of `post_request`, in order: the
    /// payload must fit and the reward must cover the estimated cost of
    /// reporting.
    pub open spec fn post_checks_pass(&self, reward: Balance, len: nat) -> bool {
        len <= self.max_byte_size() && reward >= spec_estimate_report_reward(len)
    }

    /// The four validation outcomes of `report_result` that precede the
    /// store transition, in order: the caller must be an operator, the
    /// timestamp must lie strictly in the past, and the result must be
    /// non-empty and fit.
    pub open spec fn report_checks_pass(
        &self,
        caller: AccountId,
        timestamp: Timestamp,
        now: Timestamp,
        len: nat,
    ) -> bool {
        self.is_operator(caller) && timestamp < now && 0 < len && len <= self.max_byte_size()
    }

    /// Neither the requests, nor the allocator, nor the operators, nor the
    /// event log differ between the two states: the operation mutated
    /// nothing.
    pub open spec fn same_state(p0: Pallet, p1: Pallet) -> bool {
        p1.requests() == p0.requests() && p1.next_request_id() == p0.next_request_id()
            && p1.operators() == p0.operators() && p1.emitted_events() == p0.emitted_events()
            && p1.max_byte_size() == p0.max_byte_size()
    }

    /// A service with the given parameters, no requests, no events, and the
    /// bootstrap list as its operator set.
    pub fn new(config: Config, genesis: &GenesisConfig) -> (r: Pallet)
        ensures
            r.wf(),
            r.max_byte_size() == config.max_byte_size,
            r.next_request_id() == 0,
            r.requests() == Map::<RequestId, EntryModel>::empty(),
            r.emitted_events() == Seq::<Event>::empty(),
            forall|a: AccountId| #[trigger] r.is_operator(a) <==> genesis.operators@.contains(a),
            r.ids_bounded(),
    {
        Pallet {
            config,
            allocator: RequestIdAllocator::new(),
            registry: genesis.build(),
            store: RequestStore::new(),
            events: Vec::new(),
        }
    }

    /// The most recently emitted event, if any event was emitted at all.
    pub fn last_event(&self) -> (r: Option<Event>)
        ensures
            match r {
                Some(e) => self.emitted_events().len() > 0 && e == self.emitted_events().last(),
                None => self.emitted_events().len() == 0,
            },
    {
        if self.events.len() == 0 {
            None
        } else {
            Some(self.events[self.events.len() - 1])
        }
    }

    /// Files a new request: validates the payload size and the offered
    /// reward, escrows the reward with the ledger, and only then allocates a
    /// fresh id, stores the open entry and emits `PostedRequest`.  A
    /// rejected call mutates neither the service nor the ledger, and in
    /// particular consumes no id.  Ids grow by one per successful post and,
    /// until the counter wraps, a fresh id never collides with a filed
    /// request: ids are never reused.
    pub fn post_request<L: EscrowLedger>(
        &mut self,
        ledger: &mut L,
        caller: AccountId,
        reward: Balance,
        bytes: Vec<u8>,
    ) -> (r: Result<RequestId, Error>)
        requires
            old(self).wf(),
        ensures
            final(self).wf(),
            final(self).operators() == old(self).operators(),
            final(self).max_byte_size() == old(self).max_byte_size(),
            match r {
                Ok(id) => {
                    &&& old(self).post_checks_pass(reward, bytes@.len())
                    &&& id == old(self).next_request_id()
                    &&& final(self).next_request_id() == wrapping_inc(id)
                    &&& final(self).requests() == old(self).requests().insert(
                        id,
                        EntryModel::Open { bytes: bytes@, reward, requester: caller },
                    )
                    &&& final(self).emitted_events() == old(self).emitted_events().push(
                        Event::PostedRequest { request_id: id, requester: caller },
                    )
                    &&& funds_held(*old(ledger), *final(ledger), caller, reward)
                },
                Err(e) => {
                    &&& Self::same_state(*old(self), *final(self))
                    &&& ledger_unchanged(*old(ledger), *final(ledger))
                    &&& match e {
                        Error::OversizedRequest => bytes@.len() > old(self).max_byte_size(),
                        Error::UnderpayingRequest => bytes@.len() <= old(self).max_byte_size()
                            && reward < spec_estimate_report_reward(bytes@.len()),
                        Error::Ledger(_) => old(self).post_checks_pass(reward, bytes@.len()),
                        _ => false,
                    }
                },
            },
            old(self).ids_bounded() && r is Ok ==> !old(self).requests().dom().contains(r->Ok_0),
            old(self).ids_bounded() && old(self).next_request_id() < RequestId::MAX
                ==> final(self).ids_bounded(),
    {
        if bytes.len() > self.config.max_byte_size as usize {
            return Err(Error::OversizedRequest);
        }
        let required_reward = estimate_report_reward(bytes.len());
        if reward < required_reward {
            return Err(Error::UnderpayingRequest);
        }
        match ledger.hold(caller, reward) {
            Err(e) => {
                return Err(Error::Ledger(e));
            },
            Ok(()) => {},
        }
        let request_id = self.allocator.allocate();
        self.store.insert(request_id, RequestEntry::Open { bytes, reward, requester: caller });
        self.events.push(Event::PostedRequest { request_id, requester: caller });
        Ok(request_id)
    }

    /// Reports the result of an open request: validates the caller's
    /// authority, the timestamp against the clock and the result size, pays
    /// the escrowed reward (if any) to the reporter, commits the
    /// `Open -> Fulfilled` transition, and emits `PostedResult`.  The reward
    /// is settled before the transition commits, so every rejected call —
    /// including a ledger refusal of the settlement — mutates nothing at
    /// all: the request stays open, its reward stays held, and the call can
    /// be retried.  A result stamped at or after the clock's moment is
    /// rejected as not yet past, and a request can be reported at most once:
    /// every report after the first finds the entry fulfilled, fails
    /// `AlreadyReported` and emits nothing.
    pub fn report_result<L: EscrowLedger, C: Clock>(
        &mut self,
        ledger: &mut L,
        clock: &C,
        caller: AccountId,
        request_id: RequestId,
        timestamp: Timestamp,
        dr_tx_hash: [u8; 32],
        result_bytes: Vec<u8>,
    ) -> (r: Result<(), Error>)
        requires
            old(self).wf(),
        ensures
            final(self).wf(),
            final(self).operators() == old(self).operators(),
            final(self).next_request_id() == old(self).next_request_id(),
            final(self).max_byte_size() == old(self).max_byte_size(),
            final(self).requests().dom() =~= old(self).requests().dom(),
            match r {
                Ok(()) => {
                    &&& old(self).report_checks_pass(
                        caller,
                        timestamp,
                        clock.time(),
                        result_bytes@.len(),
                    )
                    &&& old(self).requests().dom().contains(request_id)
                    &&& old(self).requests()[request_id] is Open
                    &&& final(self).requests() == old(self).requests().insert(
                        request_id,
                        EntryModel::Fulfilled {
                            timestamp,
                            dr_tx_hash: dr_tx_hash@,
                            result_bytes: result_bytes@,
                        },
                    )
                    &&& final(self).emitted_events() == old(self).emitted_events().push(
                        Event::PostedResult { request_id, reporter: caller },
                    )
                    &&& ({
                        let reward = old(self).requests()[request_id]->reward;
                        let requester = old(self).requests()[request_id]->requester;
                        if reward == 0 {
                            ledger_unchanged(*old(ledger), *final(ledger))
                        } else {
                            reward_paid(*old(ledger), *final(ledger), requester, caller, reward)
                        }
                    })
                },
                Err(e) => match e {
                    Error::UnauthorizedOperator => {
                        &&& !old(self).is_operator(caller)
                        &&& Self::same_state(*old(self), *final(self))
                        &&& ledger_unchanged(*old(ledger), *final(ledger))
                    },
                    Error::ResultFromFuture => {
                        &&& old(self).is_operator(caller)
                        &&& timestamp >= clock.time()
                        &&& Self::same_state(*old(self), *final(self))
                        &&& ledger_unchanged(*old(ledger), *final(ledger))
                    },
                    Error::EmptyResult => {
                        &&& old(self).is_operator(caller)
                        &&& timestamp < clock.time()
                        &&& result_bytes@.len() == 0
                        &&& Self::same_state(*old(self), *final(self))
                        &&& ledger_unchanged(*old(ledger), *final(ledger))
                    },
                    Error::OversizedResult => {
                        &&& old(self).is_operator(caller)
                        &&& timestamp < clock.time()
                        &&& result_bytes@.len() > old(self).max_byte_size()
                        &&& Self::same_state(*old(self), *final(self))
                        &&& ledger_unchanged(*old(ledger), *final(ledger))
                    },
                    Error::UnknownRequest => {
                        &&& old(self).report_checks_pass(
                            caller,
                            timestamp,
                            clock.time(),
                            result_bytes@.len(),
                        )
                        &&& !old(self).requests().dom().contains(request_id)
                        &&& Self::same_state(*old(self), *final(self))
                        &&& ledger_unchanged(*old(ledger), *final(ledger))
                    },
                    Error::AlreadyReported => {
                        &&& old(self).report_checks_pass(
                            caller,
                            timestamp,
                            clock.time(),
                            result_bytes@.len(),
                        )
                        &&& old(self).requests().dom().contains(request_id)
                        &&& old(self).requests()[request_id] is Fulfilled
                        &&& Self::same_state(*old(self), *final(self))
                        &&& ledger_unchanged(*old(ledger), *final(ledger))
                    },
                    Error::Ledger(_) => {
                        &&& old(self).report_checks_pass(
                            caller,
                            timestamp,
                            clock.time(),
                            result_bytes@.len(),
                        )
                        &&& old(self).requests().dom().contains(request_id)
                        &&& old(self).requests()[request_id] is Open
                        &&& old(self).requests()[request_id]->reward > 0
                        &&& Self::same_state(*old(self), *final(self))
                        &&& ledger_unchanged(*old(ledger), *final(ledger))
                    },
                    _ => false,
                },
            },
    {
        if !self.registry.is_member(caller) {
            return Err(Error::UnauthorizedOperator);
        }
        let now = clock.now();
        if timestamp >= now {
            return Err(Error::ResultFromFuture);
        }
        if result_bytes.len() == 0 {
            return Err(Error::EmptyResult);
        }
        if result_bytes.len() > self.config.max_byte_size as usize {
            return Err(Error::OversizedResult);
        }
        let (reward, requester) = match self.store.get(request_id) {
            None => {
                return Err(Error::UnknownRequest);
            },
            Some(RequestEntry::Fulfilled { .. }) => {
                return Err(Error::AlreadyReported);
            },
            Some(RequestEntry::Open { reward, requester, .. }) => (*reward, *requester),
        };
        if reward > 0 {
            match ledger.transfer_held(requester, caller, reward) {
                Err(e) => {
                    return Err(Error::Ledger(e));
                },
                Ok(()) => {},
            }
        }
        let _committed = self.store.transition(request_id, timestamp, dr_tx_hash, result_bytes);
        proof {
            // The entry was just seen open and nothing between the read and
            // the transition touches the store, so the commit is owed.
            assert(_committed is Ok);
        }
        self.events.push(Event::PostedResult { request_id, reporter: caller });
        Ok(())
    }

    /// Grants operator rights to `account_id` on behalf of `caller`: a thin
    /// pass-through to the registry that emits `AddedOperator` on success.
    pub fn add_operator(&mut self, caller: AccountId, account_id: AccountId) -> (r: Result<
        (),
        Error,
    >)
        requires
            old(self).wf(),
        ensures
            final(self).wf(),
            final(self).requests() == old(self).requests(),
            final(self).next_request_id() == old(self).next_request_id(),
            final(self).max_byte_size() == old(self).max_byte_size(),
            match r {
                Ok(()) => {
                    &&& old(self).is_operator(caller)
                    &&& account_id != caller
                    &&& final(self).operators() == old(self).operators().insert(account_id)
                    &&& final(self).emitted_events() == old(self).emitted_events().push(
                        Event::AddedOperator { added_operator: account_id, added_by: caller },
                    )
                },
                Err(e) => {
                    &&& Self::same_state(*old(self), *final(self))
                    &&& match e {
                        Error::UnauthorizedOperator => !old(self).is_operator(caller),
                        Error::OperatorSelfAddition => old(self).is_operator(caller) && account_id
                            == caller,
                        _ => false,
                    }
                },
            },
    {
        match self.registry.add(caller, account_id) {
            Err(e) => {
                return Err(e);
            },
            Ok(()) => {},
        }
        self.events.push(Event::AddedOperator { added_operator: account_id, added_by: caller });
        Ok(())
    }

    /// Revokes operator rights from `account_id` on behalf of `caller`: a
    /// thin pass-through to the registry that emits `RemovedOperator` on
    /// success.
    pub fn remove_operator(&mut self, caller: AccountId, account_id: AccountId) -> (r: Result<
        (),
        Error,
    >)
        requires
            old(self).wf(),
        ensures
            final(self).wf(),
            final(self).requests() == old(self).requests(),
            final(self).next_request_id() == old(self).next_request_id(),
            final(self).max_byte_size() == old(self).max_byte_size(),
            match r {
                Ok(()) => {
                    &&& old(self).is_operator(caller)
                    &&& account_id != caller
                    &&& old(self).is_operator(account_id)
                    &&& final(self).operators() == old(self).operators().remove(account_id)
                    &&& final(self).emitted_events() == old(self).emitted_events().push(
                        Event::RemovedOperator { removed_operator: account_id, removed_by: caller },
                    )
                },
                Err(e) => {
                    &&& Self::same_state(*old(self), *final(self))
                    &&& match e {
                        Error::UnauthorizedOperator => !old(self).is_operator(caller),
                        Error::OperatorSelfRemoval => old(self).is_operator(caller) && account_id
                            == caller,
                        Error::UnknownOperator => old(self).is_operator(caller) && account_id
                            != caller && !old(self).is_operator(account_id),
                        _ => false,
                    }
                },
            },
    {
        match self.registry.remove(caller, account_id) {
            Err(e) => {
                return Err(e);
            },
            Ok(()) => {},
        }
        self.events.push(
            Event::RemovedOperator { removed_operator: account_id, removed_by: caller },
        );
        Ok(())
    }
}

} // verus!
