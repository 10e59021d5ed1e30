//! The extension broker: one request out, one correlated outcome back.
//!
//! The broker itself performs no I/O. Opening a call hands out a fresh
//! correlation identifier and the message to dispatch; closing it with what
//! the transport reported yields the typed outcome for the caller that
//! holds the identifier. Between the two the only state is the table of
//! pending calls.

use vstd::prelude::*;
use std::collections::HashMap;
use crate::contract::RippleContract;
use crate::extn::ExtnPayload;
use crate::extn::ExtnRequest;
use crate::extn::ExtnResponse;
use crate::extn::ResponseKind;

verus! {

/// Identifies one call in flight. Identifiers are handed out in increasing
/// order, so none is ever handed out twice.
#[derive(Clone, Copy, Debug, PartialEq, Eq, Hash, Structural)]
pub struct CorrelationId(pub u64);

/// Why a call through the broker failed.
#[derive(Debug, PartialEq, Eq)]
pub enum BrokerError {
    /// The extension is absent or the transport failed.
    Unreachable,
    /// No response arrived within the interval granted.
    Timeout,
    /// A response arrived, but not of the shape that answers the request.
    PayloadMismatch,
    /// The extension itself reported a failure.
    ExtensionError(String),
}

/// What the transport reports for a call in flight.
#[derive(Debug, PartialEq, Eq)]
pub enum Arrival {
    Response(ExtnResponse),
    Unreachable,
    Timeout,
}

/// What the broker remembers of a call in flight.
#[derive(Clone, Copy, Debug, PartialEq, Eq, Structural)]
pub struct PendingCall {
    pub contract: RippleContract,
    pub expects: ResponseKind,
}

/// A request on its way to the extension that owns `target`.
#[derive(Debug, PartialEq, Eq)]
pub struct ExtnMessage {
    pub id: CorrelationId,
    pub target: RippleContract,
    pub payload: ExtnPayload,
}

/// The outcome of a call that expects a result of shape `expects`, given
/// what arrived for it. A result of another shape is a mismatch; it is
/// never handed on and never replaced by a default.
pub open spec fn outcome(expects: ResponseKind, arrival: Arrival) -> Result<
    ExtnResponse,
    BrokerError,
> {
    match arrival {
        Arrival::Unreachable => Err(BrokerError::Unreachable),
        Arrival::Timeout => Err(BrokerError::Timeout),
        Arrival::Response(ExtnResponse::Error(reason)) => Err(BrokerError::ExtensionError(reason)),
        Arrival::Response(response) => if response.kind() == Some(expects) {
            Ok(response)
        } else {
            Err(BrokerError::PayloadMismatch)
        },
    }
}

/// Computes the outcome of a call from what arrived for it.
pub fn resolve(expects: ResponseKind, arrival: Arrival) -> (r: Result<ExtnResponse, BrokerError>)
    ensures
        r == outcome(expects, arrival),
{
    match arrival {
        Arrival::Unreachable => Err(BrokerError::Unreachable),
        Arrival::Timeout => Err(BrokerError::Timeout),
        Arrival::Response(response) => {
            match response.get_kind() {
                None => match response {
                    ExtnResponse::Error(reason) => Err(BrokerError::ExtensionError(reason)),
                    _ => Err(BrokerError::PayloadMismatch),
                },
                Some(kind) => if kind == expects {
                    Ok(response)
                } else {
                    Err(BrokerError::PayloadMismatch)
                },
            }
        },
    }
}

/// The broker as a mathematical value: how many identifiers it has handed
/// out, and the calls in flight by identifier.
pub struct BrokerState {
    pub issued: nat,
    pub pending: Map<u64, PendingCall>,
}

impl BrokerState {
    /// Every identifier in flight was handed out earlier.
    pub open spec fn wf(self) -> bool {
        forall|id: u64| self.pending.contains_key(id) ==> (id as nat) < self.issued
    }

    /// The state after opening a call: the next identifier is taken and
    /// the call is entered under it.
    pub open spec fn opened(self, contract: RippleContract, expects: ResponseKind) -> BrokerState {
        BrokerState {
            issued: self.issued + 1,
            pending: self.pending.insert(self.issued as u64, PendingCall { contract, expects }),
        }
    }

    /// The state after closing the call `id`: its entry is gone, every
    /// other entry is as it was.
    pub open spec fn closed(self, id: u64) -> BrokerState {
        BrokerState { issued: self.issued, pending: self.pending.remove(id) }
    }

    /// What closing the call `id` with `arrival` hands to its caller;
    /// `None` where no such call is in flight.
    pub open spec fn handed(self, id: u64, arrival: Arrival) -> Option<
        Result<ExtnResponse, BrokerError>,
    > {
        if self.pending.contains_key(id) {
            Some(outcome(self.pending[id].expects, arrival))
        } else {
            None
        }
    }
}

/// The table of calls in flight.
pub struct Broker {
    next: u64,
    pending: HashMap<u64, PendingCall>,
}

impl View for Broker {
    type V = BrokerState;

    closed spec fn view(&self) -> BrokerState {
        BrokerState { issued: self.next as nat, pending: self.pending@ }
    }
}

impl Broker {
    /// The state is consistent and the identifiers are not used up.
    pub open spec fn wf(&self) -> bool {
        self@.wf() && self@.issued <= u64::MAX
    }

    /// A broker with no call in flight.
    pub fn new() -> (r: Broker)
        ensures
            r.wf(),
            r@.issued == 0,
            r@.pending == Map::<u64, PendingCall>::empty(),
    {
        Broker { next: 0, pending: HashMap::new() }
    }

    /// Whether another call can be opened: identifiers are never reused,
    /// so the last one ends the broker's service.
    pub fn exhausted(&self) -> (r: bool)
        ensures
            r == (self@.issued >= u64::MAX),
    {
        self.next == u64::MAX
    }

    /// Whether the call `id` is in flight.
    pub fn is_pending(&self, id: CorrelationId) -> (r: bool)
        ensures
            r == self@.pending.contains_key(id.0),
    {
        self.pending.contains_key(&id.0)
    }

    /// The number of calls in flight.
    pub fn pending_count(&self) -> (r: usize)
        ensures
            r == self@.pending.len(),
    {
        self.pending.len()
    }

    /// Opens a call: takes a fresh identifier, enters the call in the table
    /// and returns the message to dispatch to the owner of `contract`.
    pub fn open(&mut self, contract: RippleContract, request: ExtnRequest) -> (message: ExtnMessage)
        requires
            old(self).wf(),
            old(self)@.issued < u64::MAX,
        ensures
            final(self).wf(),
            final(self)@ == old(self)@.opened(contract, request.expected()),
            message.id.0 == old(self)@.issued,
            !old(self)@.pending.contains_key(message.id.0),
            message.target == contract,
            message.payload == ExtnPayload::Request(request),
    {
        let id = self.next;
        let expects = request.expected_kind();
        self.pending.insert(id, PendingCall { contract, expects });
        self.next = id + 1;
        proof {
            assert forall|other: u64| self@.pending.contains_key(other) implies (other as nat)
                < self@.issued by {
                if other != id {
                    assert(old(self)@.pending.contains_key(other));
                }
            }
        }
        ExtnMessage {
            id: CorrelationId(id),
            target: contract,
            payload: ExtnPayload::Request(request),
        }
    }

    /// Closes the call `id` with what arrived for it, and returns the
    /// outcome for its caller. The entry leaves the table whatever arrived,
    /// a timeout included. Where no such call is in flight nothing changes
    /// and nothing is handed out.
    pub fn close(&mut self, id: CorrelationId, arrival: Arrival) -> (r: Option<
        Result<ExtnResponse, BrokerError>,
    >)
        requires
            old(self).wf(),
        ensures
            final(self).wf(),
            final(self)@ == old(self)@.closed(id.0),
            r == old(self)@.handed(id.0, arrival),
    {
        match self.pending.remove(&id.0) {
            Some(call) => Some(resolve(call.expects, arrival)),
            None => {
                None
            },
        }
    }

    /// A whole exchange, for a caller that already holds what the transport
    /// reported: opens the call, closes it with `arrival`, and returns the
    /// outcome. The table of pending calls is left as it was.
    pub fn send(&mut self, contract: RippleContract, request: ExtnRequest, arrival: Arrival) -> (r:
        Result<ExtnResponse, BrokerError>)
        requires
            old(self).wf(),
            old(self)@.issued < u64::MAX,
        ensures
            final(self).wf(),
            final(self)@.issued == old(self)@.issued + 1,
            final(self)@.pending == old(self)@.pending,
            r == outcome(request.expected(), arrival),
    {
        let message = self.open(contract, request);
        let r = self.close(message.id, arrival);
        match r {
            Some(outcome) => outcome,
            None => Err(BrokerError::Unreachable),
        }
    }
}

/// A response of the shape that the request expects comes back from the
/// exchange unchanged.
pub proof fn lemma_matching_response_is_returned(
    state: BrokerState,
    contract: RippleContract,
    request: ExtnRequest,
    response: ExtnResponse,
)
    requires
        state.issued <= u64::MAX,
        response.kind() == Some(request.expected()),
    ensures
        state.opened(contract, request.expected()).handed(
            state.issued as u64,
            Arrival::Response(response),
        ) == Some(Ok::<ExtnResponse, BrokerError>(response)),
{
}

/// A result of any other shape ends the exchange in `PayloadMismatch`.
pub proof fn lemma_mismatched_response_is_refused(
    state: BrokerState,
    contract: RippleContract,
    request: ExtnRequest,
    response: ExtnResponse,
)
    requires
        state.issued <= u64::MAX,
        response.kind() is Some,
        response.kind() != Some(request.expected()),
    ensures
        state.opened(contract, request.expected()).handed(
            state.issued as u64,
            Arrival::Response(response),
        ) == Some(Err::<ExtnResponse, BrokerError>(BrokerError::PayloadMismatch)),
{
}

/// The identifier that a call is opened under is held by no call in flight.
pub proof fn lemma_fresh_identifier(state: BrokerState)
    requires
        state.wf(),
        state.issued <= u64::MAX,
    ensures
        !state.pending.contains_key(state.issued as u64),
{
}

/// A correlation identifier is consumed by the closing of its call: a
/// second arrival under the same identifier finds no caller.
pub proof fn lemma_identifier_is_consumed_once(state: BrokerState, id: u64, late: Arrival)
    ensures
        state.closed(id).handed(id, late) is None,
        state.closed(id).closed(id) == state.closed(id),
{
    assert(state.closed(id).closed(id).pending =~= state.closed(id).pending);
}

/// One thing that happens at the broker between the opening of a call and
/// its closing.
pub enum Step {
    Open(RippleContract, ResponseKind),
    Close(u64, Arrival),
}

/// The state after a run of steps, in order.
pub open spec fn run(state: BrokerState, steps: Seq<Step>) -> BrokerState
    decreases steps.len(),
{
    if steps.len() == 0 {
        state
    } else {
        let before = run(state, steps.drop_last());
        match steps.last() {
            Step::Open(contract, expects) => before.opened(contract, expects),
            Step::Close(id, _) => before.closed(id),
        }
    }
}

/// Whether the run closes the call `id`.
pub open spec fn closes(steps: Seq<Step>, id: u64) -> bool {
    exists|i: int|
        0 <= i < steps.len() && (#[trigger] steps[i] matches Step::Close(other, _) && other == id)
}

/// Whatever other callers do in between, in whatever order, a call in
/// flight stays in the table as it was entered, until it is closed itself:
/// so the outcome handed to its caller is computed from its own request and
/// from what arrived under its own identifier, and from nothing else.
pub proof fn lemma_pending_call_survives(state: BrokerState, steps: Seq<Step>, id: u64)
    requires
        state.wf(),
        state.issued + steps.len() <= u64::MAX,
        state.pending.contains_key(id),
        !closes(steps, id),
    ensures
        run(state, steps).wf(),
        run(state, steps).issued >= state.issued,
        run(state, steps).issued <= state.issued + steps.len(),
        run(state, steps).pending.contains_key(id),
        run(state, steps).pending[id] == state.pending[id],
        forall|arrival: Arrival|
            run(state, steps).handed(id, arrival) == state.handed(id, arrival),
    decreases steps.len(),
{
    if steps.len() > 0 {
        let front = steps.drop_last();
        lemma_pending_call_survives(state, front, id);
    }
}

/// Closing two different calls gives each caller the same outcome in
/// either order, and leaves the same table.
pub proof fn lemma_closings_commute(
    state: BrokerState,
    a: u64,
    arrival_a: Arrival,
    b: u64,
    arrival_b: Arrival,
)
    requires
        a != b,
    ensures
        state.closed(b).handed(a, arrival_a) == state.handed(a, arrival_a),
        state.closed(a).handed(b, arrival_b) == state.handed(b, arrival_b),
        state.closed(a).closed(b) == state.closed(b).closed(a),
{
    assert(state.closed(a).closed(b).pending =~= state.closed(b).closed(a).pending);
}

} // verus!
