//! The backend that serves the bot's requests one at a time: it looks stats
//! up at the statistics service and keeps the binding of chat users to game
//! accounts in a user store.
//!
//! The backend is a state machine. `backend_step` takes its state and what
//! happened (a request arrived, a piece of work finished, the request
//! channel closed) and returns the next state and what to do: perform a
//! piece of work, answer the pending request, or shut down. Whoever runs it
//! performs the work and feeds the outcome back.
use vstd::prelude::*;
use crate::json_format::{PlayerStats, Vehicles, Weapons};

verus! {

/// A request to the backend.
#[derive(Debug)]
pub enum StateRequest {
    GetStats { ea_id: String },
    GetVehicles { ea_id: String },
    GetWeapons { ea_id: String },
    InsertUser { user_id: String, ea_id: String },
    QueryUser { user_id: String },
    DeleteUser { user_id: String },
    Stop,
}

/// The backend's answer to a request. An error carries the message of the
/// failure that the user store or the statistics service reported.
#[derive(Debug)]
pub enum StateResponse {
    /// The request was carried out.
    Success,
    Stats(PlayerStats),
    Vehicles(Vehicles),
    Weapons(Weapons),
    EaUser(String),
    DatabaseError(String),
    NetworkError(String),
}

/// A piece of work at the statistics service or the user store.
pub enum Operation {
    FetchStats { ea_id: String },
    FetchVehicles { ea_id: String },
    FetchWeapons { ea_id: String },
    InsertUser { user_id: String, ea_id: String },
    QueryUser { user_id: String },
    DeleteUser { user_id: String },
}

/// What a piece of work gave: its result, or the message of its failure.
pub enum Outcome {
    Stats(Result<PlayerStats, String>),
    Vehicles(Result<Vehicles, String>),
    Weapons(Result<Weapons, String>),
    Inserted(Result<usize, String>),
    Queried(Result<String, String>),
    Deleted(Result<usize, String>),
}

/// Where the backend stands.
pub enum BackendState {
    /// Waiting for a request.
    Idle,
    /// Waiting for the outcome of this piece of work.
    Busy(Operation),
    /// Done; it takes no more requests.
    Stopped,
}

/// What happened to the backend.
pub enum BackendEvent {
    Received(StateRequest),
    Finished(Outcome),
    /// The request channel was closed.
    Closed,
}

/// What the backend does next.
pub enum BackendAction {
    Perform(Operation),
    Respond(StateResponse),
    Shutdown,
}

/// The work that serves `request`; `None` for `Stop`, which needs none.
pub open spec fn spec_operation_for(request: StateRequest) -> Option<Operation> {
    match request {
        StateRequest::GetStats { ea_id } => Some(Operation::FetchStats { ea_id }),
        StateRequest::GetVehicles { ea_id } => Some(Operation::FetchVehicles { ea_id }),
        StateRequest::GetWeapons { ea_id } => Some(Operation::FetchWeapons { ea_id }),
        StateRequest::InsertUser { user_id, ea_id } => Some(
            Operation::InsertUser { user_id, ea_id },
        ),
        StateRequest::QueryUser { user_id } => Some(Operation::QueryUser { user_id }),
        StateRequest::DeleteUser { user_id } => Some(Operation::DeleteUser { user_id }),
        StateRequest::Stop => None,
    }
}

/// The outcome `outcome` can come from performing `op`.
pub open spec fn outcome_of(op: Operation, outcome: Outcome) -> bool {
    match op {
        Operation::FetchStats { .. } => outcome is Stats,
        Operation::FetchVehicles { .. } => outcome is Vehicles,
        Operation::FetchWeapons { .. } => outcome is Weapons,
        Operation::InsertUser { .. } => outcome is Inserted,
        Operation::QueryUser { .. } => outcome is Queried,
        Operation::DeleteUser { .. } => outcome is Deleted,
    }
}

/// The answer that the outcome of a piece of work gives: its value, or the
/// failure of the statistics service or of the user store with its message.
pub open spec fn spec_response_for(outcome: Outcome) -> StateResponse {
    match outcome {
        Outcome::Stats(Ok(s)) => StateResponse::Stats(s),
        Outcome::Vehicles(Ok(v)) => StateResponse::Vehicles(v),
        Outcome::Weapons(Ok(w)) => StateResponse::Weapons(w),
        Outcome::Stats(Err(e)) => StateResponse::NetworkError(e),
        Outcome::Vehicles(Err(e)) => StateResponse::NetworkError(e),
        Outcome::Weapons(Err(e)) => StateResponse::NetworkError(e),
        Outcome::Inserted(Ok(_)) => StateResponse::Success,
        Outcome::Deleted(Ok(_)) => StateResponse::Success,
        Outcome::Queried(Ok(u)) => StateResponse::EaUser(u),
        Outcome::Inserted(Err(e)) => StateResponse::DatabaseError(e),
        Outcome::Queried(Err(e)) => StateResponse::DatabaseError(e),
        Outcome::Deleted(Err(e)) => StateResponse::DatabaseError(e),
    }
}

/// `event` can happen in `state`: a request or the closing of the channel
/// while idle, the outcome of the pending work while busy, nothing once
/// stopped.
pub open spec fn event_fits(state: BackendState, event: BackendEvent) -> bool {
    match state {
        BackendState::Idle => event is Received || event is Closed,
        BackendState::Busy(op) => match event {
            BackendEvent::Finished(outcome) => outcome_of(op, outcome),
            _ => false,
        },
        BackendState::Stopped => false,
    }
}

/// The next state and action of the backend.
pub open spec fn spec_backend_step(state: BackendState, event: BackendEvent) -> (
    BackendState,
    BackendAction,
) {
    match event {
        BackendEvent::Received(request) => match spec_operation_for(request) {
            Some(op) => (BackendState::Busy(op), BackendAction::Perform(op)),
            None => (BackendState::Stopped, BackendAction::Respond(StateResponse::Success)),
        },
        BackendEvent::Finished(outcome) => (
            BackendState::Idle,
            BackendAction::Respond(spec_response_for(outcome)),
        ),
        BackendEvent::Closed => (BackendState::Stopped, BackendAction::Shutdown),
    }
}

/// `response` is an answer of the kind that `request` asks for: the stats it
/// asks for or a failure of the statistics service; `Success` or a failure
/// of the user store for a change of a binding; the bound account or a
/// failure of the user store for a lookup; `Success` for `Stop`.
pub open spec fn answers(request: StateRequest, response: StateResponse) -> bool {
    match request {
        StateRequest::GetStats { .. } => response is Stats || response is NetworkError,
        StateRequest::GetVehicles { .. } => response is Vehicles || response is NetworkError,
        StateRequest::GetWeapons { .. } => response is Weapons || response is NetworkError,
        StateRequest::InsertUser { .. } => response is Success || response is DatabaseError,
        StateRequest::QueryUser { .. } => response is EaUser || response is DatabaseError,
        StateRequest::DeleteUser { .. } => response is Success || response is DatabaseError,
        StateRequest::Stop => response is Success,
    }
}

/// Every request that an idle backend receives is answered once, with an
/// answer of the kind it asks for: `Stop` at once, which stops the backend;
/// any other after one piece of work, whatever its outcome, after which the
/// backend is idle again.
pub proof fn lemma_every_request_answered(request: StateRequest, outcome: Outcome)
    requires
        spec_operation_for(request) matches Some(op) ==> outcome_of(op, outcome),
    ensures
        event_fits(BackendState::Idle, BackendEvent::Received(request)),
        ({
            let (busy, first) = spec_backend_step(
                BackendState::Idle,
                BackendEvent::Received(request),
            );
            match first {
                BackendAction::Perform(op) => {
                    let (after, second) = spec_backend_step(busy, BackendEvent::Finished(outcome));
                    &&& !(request is Stop)
                    &&& event_fits(busy, BackendEvent::Finished(outcome))
                    &&& after is Idle
                    &&& second matches BackendAction::Respond(response) && answers(
                        request,
                        response,
                    )
                },
                BackendAction::Respond(response) => {
                    &&& request is Stop
                    &&& busy is Stopped
                    &&& answers(request, response)
                },
                BackendAction::Shutdown => false,
            }
        }),
{
}

/// Runs the backend from `state` over `events`; `None` where an event does
/// not fit the state it arrives in. Gives the final state and the actions
/// taken, in order.
pub open spec fn run_backend(state: BackendState, events: Seq<BackendEvent>) -> Option<
    (BackendState, Seq<BackendAction>),
>
    decreases events.len(),
{
    if events.len() == 0 {
        Some((state, Seq::<BackendAction>::empty()))
    } else if !event_fits(state, events[0]) {
        None
    } else {
        let (next, action) = spec_backend_step(state, events[0]);
        match run_backend(next, events.drop_first()) {
            Some((last, actions)) => Some((last, seq![action] + actions)),
            None => None,
        }
    }
}

/// The events of serving `requests` one after the other: each request
/// arrives, and then the outcome of its work, before the next arrives.
pub open spec fn serve_events(requests: Seq<StateRequest>, outcomes: Seq<Outcome>) -> Seq<
    BackendEvent,
>
    decreases requests.len(),
{
    if requests.len() == 0 || outcomes.len() == 0 {
        Seq::<BackendEvent>::empty()
    } else {
        seq![BackendEvent::Received(requests[0]), BackendEvent::Finished(outcomes[0])]
            + serve_events(requests.drop_first(), outcomes.drop_first())
    }
}

/// The actions of serving `requests` one after the other: the work of each,
/// then its answer, before the work of the next.
pub open spec fn serve_actions(requests: Seq<StateRequest>, outcomes: Seq<Outcome>) -> Seq<
    BackendAction,
>
    decreases requests.len(),
{
    if requests.len() == 0 || outcomes.len() == 0 {
        Seq::<BackendAction>::empty()
    } else {
        seq![
            BackendAction::Perform(spec_operation_for(requests[0])->0),
            BackendAction::Respond(spec_response_for(outcomes[0])),
        ] + serve_actions(requests.drop_first(), outcomes.drop_first())
    }
}

/// `requests` are no `Stop`, and each outcome comes from the work of the
/// request in its place.
pub open spec fn served_in_turn(requests: Seq<StateRequest>, outcomes: Seq<Outcome>) -> bool {
    &&& requests.len() == outcomes.len()
    &&& forall|k: int| 0 <= k < requests.len() ==> !(#[trigger] requests[k] is Stop)
    &&& forall|k: int|
        0 <= k < requests.len() ==> outcome_of(
            spec_operation_for(#[trigger] requests[k])->0,
            outcomes[k],
        )
}

proof fn lemma_run_serve(
    requests: Seq<StateRequest>,
    outcomes: Seq<Outcome>,
    tail: Seq<BackendEvent>,
)
    requires
        served_in_turn(requests, outcomes),
    ensures
        run_backend(BackendState::Idle, serve_events(requests, outcomes) + tail) == match run_backend(
            BackendState::Idle,
            tail,
        ) {
            Some((last, actions)) => Some((last, serve_actions(requests, outcomes) + actions)),
            None => None,
        },
    decreases requests.len(),
{
    if requests.len() == 0 {
        assert(serve_events(requests, outcomes) + tail =~= tail);
        assert(run_backend(BackendState::Idle, tail) matches Some((last, actions)) ==> serve_actions(
            requests,
            outcomes,
        ) + actions =~= actions);
    } else {
        let r = requests[0];
        let o = outcomes[0];
        let rest_r = requests.drop_first();
        let rest_o = outcomes.drop_first();
        assert(!(r is Stop));
        assert(outcome_of(spec_operation_for(r)->0, o));
        assert forall|k: int| 0 <= k < rest_r.len() implies !(#[trigger] rest_r[k] is Stop) by {
            assert(rest_r[k] == requests[k + 1]);
        }
        assert forall|k: int| 0 <= k < rest_r.len() implies outcome_of(
            spec_operation_for(#[trigger] rest_r[k])->0,
            rest_o[k],
        ) by {
            assert(rest_r[k] == requests[k + 1] && rest_o[k] == outcomes[k + 1]);
        }
        lemma_run_serve(rest_r, rest_o, tail);
        let events = serve_events(requests, outcomes) + tail;
        let inner = serve_events(rest_r, rest_o) + tail;
        assert(events =~= seq![BackendEvent::Received(r), BackendEvent::Finished(o)] + inner);
        assert(events[0] == BackendEvent::Received(r));
        assert(events.drop_first() =~= seq![BackendEvent::Finished(o)] + inner);
        let op = spec_operation_for(r)->0;
        let busy = BackendState::Busy(op);
        let after = events.drop_first();
        assert(after[0] == BackendEvent::Finished(o));
        assert(after.drop_first() =~= inner);
        assert(run_backend(busy, after) == match run_backend(BackendState::Idle, inner) {
            Some((last, actions)) => Some(
                (last, seq![BackendAction::Respond(spec_response_for(o))] + actions),
            ),
            None => None,
        });
        match run_backend(BackendState::Idle, tail) {
            Some((last, actions)) => {
                assert(seq![BackendAction::Perform(op)] + (seq![
                    BackendAction::Respond(spec_response_for(o)),
                ] + (serve_actions(rest_r, rest_o) + actions)) =~= serve_actions(
                    requests,
                    outcomes,
                ) + actions);
            },
            None => {},
        }
    }
}

proof fn lemma_serve_actions_index(requests: Seq<StateRequest>, outcomes: Seq<Outcome>, k: int)
    requires
        requests.len() == outcomes.len(),
        0 <= k < requests.len(),
    ensures
        serve_actions(requests, outcomes).len() == 2 * requests.len(),
        serve_actions(requests, outcomes)[2 * k] == BackendAction::Perform(
            spec_operation_for(requests[k])->0,
        ),
        serve_actions(requests, outcomes)[2 * k + 1] == BackendAction::Respond(
            spec_response_for(outcomes[k]),
        ),
    decreases requests.len(),
{
    lemma_serve_actions_len(requests, outcomes);
    if k > 0 {
        lemma_serve_actions_index(requests.drop_first(), outcomes.drop_first(), k - 1);
        assert(requests.drop_first()[k - 1] == requests[k]);
        assert(outcomes.drop_first()[k - 1] == outcomes[k]);
    }
}

proof fn lemma_serve_actions_len(requests: Seq<StateRequest>, outcomes: Seq<Outcome>)
    requires
        requests.len() == outcomes.len(),
    ensures
        serve_actions(requests, outcomes).len() == 2 * requests.len(),
    decreases requests.len(),
{
    if requests.len() > 0 {
        lemma_serve_actions_len(requests.drop_first(), outcomes.drop_first());
    }
}

/// Requests that arrive one after the other are answered in the order they
/// arrive: the backend takes each one only after it has done the work of
/// the one before and sent its answer, answers each exactly once with the
/// answer its outcome gives (of the kind the request asks for), and is idle
/// after the last; a `Stop` after them is answered `Success` and stops it.
pub proof fn lemma_requests_answered_in_order(requests: Seq<StateRequest>, outcomes: Seq<Outcome>)
    requires
        served_in_turn(requests, outcomes),
    ensures
        run_backend(BackendState::Idle, serve_events(requests, outcomes)) == Some(
            (BackendState::Idle, serve_actions(requests, outcomes)),
        ),
        serve_actions(requests, outcomes).len() == 2 * requests.len(),
        forall|k: int|
            0 <= k < requests.len() ==> {
                &&& serve_actions(requests, outcomes)[2 * k] == BackendAction::Perform(
                    spec_operation_for(#[trigger] requests[k])->0,
                )
                &&& serve_actions(requests, outcomes)[2 * k + 1] == BackendAction::Respond(
                    spec_response_for(outcomes[k]),
                )
                &&& answers(requests[k], spec_response_for(outcomes[k]))
            },
        run_backend(
            BackendState::Idle,
            serve_events(requests, outcomes) + seq![BackendEvent::Received(StateRequest::Stop)],
        ) == Some(
            (
                BackendState::Stopped,
                serve_actions(requests, outcomes) + seq![
                    BackendAction::Respond(StateResponse::Success),
                ],
            ),
        ),
{
    let empty = Seq::<BackendEvent>::empty();
    lemma_run_serve(requests, outcomes, empty);
    assert(serve_events(requests, outcomes) + empty =~= serve_events(requests, outcomes));
    assert(serve_actions(requests, outcomes) + Seq::<BackendAction>::empty() =~= serve_actions(
        requests,
        outcomes,
    ));
    let stop = seq![BackendEvent::Received(StateRequest::Stop)];
    lemma_run_serve(requests, outcomes, stop);
    assert(stop.drop_first() =~= empty);
    assert(run_backend(BackendState::Idle, stop) == Some(
        (BackendState::Stopped, seq![BackendAction::Respond(StateResponse::Success)]),
    )) by {
        assert(stop[0] == BackendEvent::Received(StateRequest::Stop));
        assert(run_backend(BackendState::Stopped, stop.drop_first()) == Some(
            (BackendState::Stopped, Seq::<BackendAction>::empty()),
        ));
        assert(seq![BackendAction::Respond(StateResponse::Success)] + Seq::<BackendAction>::empty()
            =~= seq![BackendAction::Respond(StateResponse::Success)]);
    }
    lemma_serve_actions_len(requests, outcomes);
    assert forall|k: int| 0 <= k < requests.len() implies {
        &&& serve_actions(requests, outcomes)[2 * k] == BackendAction::Perform(
            spec_operation_for(#[trigger] requests[k])->0,
        )
        &&& serve_actions(requests, outcomes)[2 * k + 1] == BackendAction::Respond(
            spec_response_for(outcomes[k]),
        )
        &&& answers(requests[k], spec_response_for(outcomes[k]))
    } by {
        lemma_serve_actions_index(requests, outcomes, k);
        lemma_every_request_answered(requests[k], outcomes[k]);
    }
}

/// What a piece of work gave is what its answer carries: fetched stats,
/// vehicles or weapons are handed on as they are, the bound account is
/// handed on, and a stored or removed binding is answered `Success`; the
/// backend is idle again after the answer.
pub proof fn lemma_results_handed_on(
    stats: PlayerStats,
    vehicles: Vehicles,
    weapons: Weapons,
    ea_id: String,
    changed: usize,
    op: Operation,
)
    ensures
        spec_response_for(Outcome::Stats(Ok(stats))) == StateResponse::Stats(stats),
        spec_response_for(Outcome::Vehicles(Ok(vehicles))) == StateResponse::Vehicles(vehicles),
        spec_response_for(Outcome::Weapons(Ok(weapons))) == StateResponse::Weapons(weapons),
        spec_response_for(Outcome::Queried(Ok(ea_id))) == StateResponse::EaUser(ea_id),
        spec_response_for(Outcome::Inserted(Ok(changed))) == StateResponse::Success,
        spec_response_for(Outcome::Deleted(Ok(changed))) == StateResponse::Success,
        op is FetchStats ==> spec_backend_step(
            BackendState::Busy(op),
            BackendEvent::Finished(Outcome::Stats(Ok(stats))),
        ) == (BackendState::Idle, BackendAction::Respond(StateResponse::Stats(stats))),
        op is FetchVehicles ==> spec_backend_step(
            BackendState::Busy(op),
            BackendEvent::Finished(Outcome::Vehicles(Ok(vehicles))),
        ) == (BackendState::Idle, BackendAction::Respond(StateResponse::Vehicles(vehicles))),
        op is FetchWeapons ==> spec_backend_step(
            BackendState::Busy(op),
            BackendEvent::Finished(Outcome::Weapons(Ok(weapons))),
        ) == (BackendState::Idle, BackendAction::Respond(StateResponse::Weapons(weapons))),
        op is QueryUser ==> spec_backend_step(
            BackendState::Busy(op),
            BackendEvent::Finished(Outcome::Queried(Ok(ea_id))),
        ) == (BackendState::Idle, BackendAction::Respond(StateResponse::EaUser(ea_id))),
{
}

/// A busy backend takes nothing but the outcome of the work it is doing:
/// no request, and no outcome of another kind of work; an idle backend
/// takes a request or the closing of the channel, and no outcome.
pub proof fn lemma_busy_takes_only_its_outcome(op: Operation, event: BackendEvent)
    ensures
        event_fits(BackendState::Busy(op), event) ==> (event is Finished),
        event_fits(BackendState::Idle, event) ==> !(event is Finished),
        (op is FetchStats && event_fits(BackendState::Busy(op), event)) ==> (
        event matches BackendEvent::Finished(o) && o is Stats),
        (op is FetchVehicles && event_fits(BackendState::Busy(op), event)) ==> (
        event matches BackendEvent::Finished(o) && o is Vehicles),
        (op is FetchWeapons && event_fits(BackendState::Busy(op), event)) ==> (
        event matches BackendEvent::Finished(o) && o is Weapons),
        (op is InsertUser && event_fits(BackendState::Busy(op), event)) ==> (
        event matches BackendEvent::Finished(o) && o is Inserted),
        (op is QueryUser && event_fits(BackendState::Busy(op), event)) ==> (
        event matches BackendEvent::Finished(o) && o is Queried),
        (op is DeleteUser && event_fits(BackendState::Busy(op), event)) ==> (
        event matches BackendEvent::Finished(o) && o is Deleted),
{
}

/// A stopped backend takes nothing more: no request, no outcome.
pub proof fn lemma_stopped_is_final(event: BackendEvent)
    ensures
        !event_fits(BackendState::Stopped, event),
{
}

/// The work that serves a request carries the request's account and user
/// ids unchanged, and a failure carries its message unchanged into the
/// answer.
pub proof fn lemma_values_pass_through(request: StateRequest, outcome: Outcome)
    ensures
        spec_operation_for(request) matches Some(op) ==> match (request, op) {
            (StateRequest::GetStats { ea_id: a }, Operation::FetchStats { ea_id: b }) => a == b,
            (StateRequest::GetVehicles { ea_id: a }, Operation::FetchVehicles { ea_id: b }) => a
                == b,
            (StateRequest::GetWeapons { ea_id: a }, Operation::FetchWeapons { ea_id: b }) => a
                == b,
            (
                StateRequest::InsertUser { user_id: u, ea_id: a },
                Operation::InsertUser { user_id: v, ea_id: b },
            ) => u == v && a == b,
            (StateRequest::QueryUser { user_id: u }, Operation::QueryUser { user_id: v }) => u
                == v,
            (StateRequest::DeleteUser { user_id: u }, Operation::DeleteUser { user_id: v }) => u
                == v,
            _ => false,
        },
        match outcome {
            Outcome::Stats(Err(e)) => spec_response_for(outcome) == StateResponse::NetworkError(e),
            Outcome::Vehicles(Err(e)) => spec_response_for(outcome) == StateResponse::NetworkError(
                e,
            ),
            Outcome::Weapons(Err(e)) => spec_response_for(outcome) == StateResponse::NetworkError(
                e,
            ),
            Outcome::Inserted(Err(e)) => spec_response_for(outcome)
                == StateResponse::DatabaseError(e),
            Outcome::Queried(Err(e)) => spec_response_for(outcome) == StateResponse::DatabaseError(
                e,
            ),
            Outcome::Deleted(Err(e)) => spec_response_for(outcome) == StateResponse::DatabaseError(
                e,
            ),
            _ => true,
        },
{
}

/// The work that serves `request`; `None` for `Stop`.
pub fn operation_for(request: StateRequest) -> (r: Option<Operation>)
    ensures
        r == spec_operation_for(request),
{
    match request {
        StateRequest::GetStats { ea_id } => Some(Operation::FetchStats { ea_id }),
        StateRequest::GetVehicles { ea_id } => Some(Operation::FetchVehicles { ea_id }),
        StateRequest::GetWeapons { ea_id } => Some(Operation::FetchWeapons { ea_id }),
        StateRequest::InsertUser { user_id, ea_id } => Some(
            Operation::InsertUser { user_id, ea_id },
        ),
        StateRequest::QueryUser { user_id } => Some(Operation::QueryUser { user_id }),
        StateRequest::DeleteUser { user_id } => Some(Operation::DeleteUser { user_id }),
        StateRequest::Stop => None,
    }
}

/// The answer that the outcome of a piece of work gives.
pub fn response_for(outcome: Outcome) -> (r: StateResponse)
    ensures
        r == spec_response_for(outcome),
{
    match outcome {
        Outcome::Stats(Ok(s)) => StateResponse::Stats(s),
        Outcome::Vehicles(Ok(v)) => StateResponse::Vehicles(v),
        Outcome::Weapons(Ok(w)) => StateResponse::Weapons(w),
        Outcome::Stats(Err(e)) => StateResponse::NetworkError(e),
        Outcome::Vehicles(Err(e)) => StateResponse::NetworkError(e),
        Outcome::Weapons(Err(e)) => StateResponse::NetworkError(e),
        Outcome::Inserted(Ok(_)) => StateResponse::Success,
        Outcome::Deleted(Ok(_)) => StateResponse::Success,
        Outcome::Queried(Ok(u)) => StateResponse::EaUser(u),
        Outcome::Inserted(Err(e)) => StateResponse::DatabaseError(e),
        Outcome::Queried(Err(e)) => StateResponse::DatabaseError(e),
        Outcome::Deleted(Err(e)) => StateResponse::DatabaseError(e),
    }
}

/// Whether `event` can happen in `state` (see `event_fits`).
pub fn accepts(state: &BackendState, event: &BackendEvent) -> (r: bool)
    ensures
        r == event_fits(*state, *event),
{
    match state {
        BackendState::Idle => match event {
            BackendEvent::Finished(_) => false,
            _ => true,
        },
        BackendState::Busy(op) => match event {
            BackendEvent::Finished(outcome) => match (op, outcome) {
                (Operation::FetchStats { .. }, Outcome::Stats(_)) => true,
                (Operation::FetchVehicles { .. }, Outcome::Vehicles(_)) => true,
                (Operation::FetchWeapons { .. }, Outcome::Weapons(_)) => true,
                (Operation::InsertUser { .. }, Outcome::Inserted(_)) => true,
                (Operation::QueryUser { .. }, Outcome::Queried(_)) => true,
                (Operation::DeleteUser { .. }, Outcome::Deleted(_)) => true,
                _ => false,
            },
            _ => false,
        },
        BackendState::Stopped => false,
    }
}

/// One step of the backend: a request starts the work that serves it, or
/// stops the backend with a `Success` answer if it is `Stop`; the outcome of the
/// work answers the pending request; the closing of the channel shuts the
/// backend down.
pub fn backend_step(state: BackendState, event: BackendEvent) -> (r: (BackendState, BackendAction))
    requires
        event_fits(state, event),
    ensures
        r == spec_backend_step(state, event),
{
    match event {
        BackendEvent::Received(request) => match operation_for(request) {
            Some(op) => {
                let pending = op.duplicate();
                (BackendState::Busy(pending), BackendAction::Perform(op))
            },
            None => (BackendState::Stopped, BackendAction::Respond(StateResponse::Success)),
        },
        BackendEvent::Finished(outcome) => (
            BackendState::Idle,
            BackendAction::Respond(response_for(outcome)),
        ),
        BackendEvent::Closed => (BackendState::Stopped, BackendAction::Shutdown),
    }
}

impl Operation {
    /// A copy of this piece of work.
    pub fn duplicate(&self) -> (r: Operation)
        ensures
            r == *self,
    {
        match self {
            Operation::FetchStats { ea_id } => Operation::FetchStats { ea_id: ea_id.clone() },
            Operation::FetchVehicles { ea_id } => Operation::FetchVehicles {
                ea_id: ea_id.clone(),
            },
            Operation::FetchWeapons { ea_id } => Operation::FetchWeapons { ea_id: ea_id.clone() },
            Operation::InsertUser { user_id, ea_id } => Operation::InsertUser {
                user_id: user_id.clone(),
                ea_id: ea_id.clone(),
            },
            Operation::QueryUser { user_id } => Operation::QueryUser { user_id: user_id.clone() },
            Operation::DeleteUser { user_id } => Operation::DeleteUser {
                user_id: user_id.clone(),
            },
        }
    }
}

} // verus!
