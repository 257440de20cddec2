//! How the bot answers a command.
//!
//! An answer is a state machine: `start_answer` takes the command and what
//! is known of the message that carried it, `answer_response` takes the
//! backend's response to the last request. Each step returns the next state
//! and an action: a request to the backend, whose response is fed back, or a
//! message to send, which ends the answer. The answer fails only where a
//! reply cannot be sent; a notice that cannot be sent still ends it well.
use vstd::prelude::*;
use vstd::string::StringExecFns;
use crate::backend::StateRequest;
use crate::backend::StateResponse;
use crate::json_format::{PlayerStats, Vehicles, Weapons};
use crate::utilities::{EA_ID_MISSING, bound_ea_id, given_ea_id};

verus! {

/// The commands the bot takes.
pub enum Command {
    /// Show the list of commands.
    Help,
    /// Bind the sender to a game account.
    Bind(String),
    /// Unbind the sender.
    Unbind,
    /// Show weapon stats; an empty name means the sender's bound account.
    Weapons(String),
    /// Show vehicle stats; an empty name means the sender's bound account.
    Vehicles(String),
    /// Show overall stats; an empty name means the sender's bound account.
    Status(String),
}

/// Which stats a command asks for.
#[derive(Clone, Copy)]
pub enum StatsKind {
    Weapons,
    Vehicles,
    Status,
}

/// Where an answer stands.
pub enum AnswerState {
    /// Waiting for the account bound to the sender.
    ResolvingEaId(StatsKind),
    /// Waiting for the stats of `ea_id`.
    Fetching { kind: StatsKind, ea_id: String },
    /// Waiting for the binding of `user_id` to `ea_id` to be stored.
    Binding { user_id: String, ea_id: String },
    /// Waiting for the binding of `user_id` to be removed.
    Unbinding { user_id: String },
    /// The answer was sent.
    Done,
}

/// What the answer does next.
pub enum AnswerAction {
    /// Send this request to the backend and feed its response back.
    Request(StateRequest),
    /// Send this text.
    SendText(String),
    /// Send this notice; the answer ends well whether or not the notice
    /// could be sent.
    SendNotice(String),
    /// Send the list of commands.
    SendHelp,
    /// Send the header followed by the weapon stats.
    SendWeapons { header: String, weapons: Weapons },
    /// Send the header followed by the vehicle stats, with the vehicle-type
    /// keyboard.
    SendVehicles { header: String, vehicles: Vehicles },
    /// Send the header followed by the overall stats.
    SendStatus { header: String, stats: PlayerStats },
}

pub const WEAPONS_FETCH_FAILED: &'static str =
    "Failed to fetch your EA stats, please wait a while and retry or recheck your username.";

pub const FETCH_FAILED: &'static str = "Failed to fetch your EA stats, please wait a while and retry.";

pub const BIND_NEEDS_PRIVATE_CHAT: &'static str = "Please PM to bind user.";

pub const BIND_NEEDS_USERNAME: &'static str = "Please specify a username.";

pub const BIND_FAILED: &'static str = "Failed to bind";

pub const UNBIND_NEEDS_PRIVATE_CHAT: &'static str = "Please PM to unbind user.";

pub const UNBIND_FAILED: &'static str = "Failed to unbind";

/// The request for the stats of `ea_id` of the given kind.
pub open spec fn stats_request(kind: StatsKind, ea_id: String) -> StateRequest {
    match kind {
        StatsKind::Weapons => StateRequest::GetWeapons { ea_id },
        StatsKind::Vehicles => StateRequest::GetVehicles { ea_id },
        StatsKind::Status => StateRequest::GetStats { ea_id },
    }
}

/// `action` sends the text `text`.
pub open spec fn sends_text(action: AnswerAction, text: Seq<char>) -> bool {
    action matches AnswerAction::SendText(t) && t@ == text
}

/// `action` sends the notice `text`.
pub open spec fn sends_notice(action: AnswerAction, text: Seq<char>) -> bool {
    action matches AnswerAction::SendNotice(t) && t@ == text
}

/// The command needs the sender's id: it asks for the stats of the bound
/// account, or it binds or unbinds in a private chat.
pub open spec fn needs_sender(cmd: Command, chat_is_user: bool) -> bool {
    match cmd {
        Command::Help => false,
        Command::Weapons(u) => u@.len() == 0,
        Command::Vehicles(u) => u@.len() == 0,
        Command::Status(u) => u@.len() == 0,
        Command::Bind(u) => chat_is_user && u@.len() != 0,
        Command::Unbind => chat_is_user,
    }
}

/// The first step of a stats command for `username`: ask for the stats of
/// `username`, or, where it is empty, for the account bound to the sender.
pub open spec fn stats_start(
    kind: StatsKind,
    username: String,
    sender: Option<String>,
    next: AnswerState,
    action: AnswerAction,
) -> bool {
    if username@.len() == 0 {
        &&& next == AnswerState::ResolvingEaId(kind)
        &&& action == AnswerAction::Request(StateRequest::QueryUser { user_id: sender->0 })
    } else {
        &&& next == AnswerState::Fetching { kind, ea_id: username }
        &&& action == AnswerAction::Request(stats_request(kind, username))
    }
}

/// The first step of the answer to `cmd`, sent in a chat with a single user
/// where `chat_is_user`, by the user with id `sender` where it is known.
pub open spec fn start_step(
    cmd: Command,
    chat_is_user: bool,
    sender: Option<String>,
    next: AnswerState,
    action: AnswerAction,
) -> bool {
    match cmd {
        Command::Help => next is Done && action is SendHelp,
        Command::Weapons(u) => stats_start(StatsKind::Weapons, u, sender, next, action),
        Command::Vehicles(u) => stats_start(StatsKind::Vehicles, u, sender, next, action),
        Command::Status(u) => stats_start(StatsKind::Status, u, sender, next, action),
        Command::Bind(u) => if !chat_is_user {
            next is Done && sends_text(action, BIND_NEEDS_PRIVATE_CHAT@)
        } else if u@.len() == 0 {
            next is Done && sends_text(action, BIND_NEEDS_USERNAME@)
        } else {
            &&& next == AnswerState::Binding { user_id: sender->0, ea_id: u }
            &&& action == AnswerAction::Request(
                StateRequest::InsertUser { user_id: sender->0, ea_id: u },
            )
        },
        Command::Unbind => if !chat_is_user {
            next is Done && sends_text(action, UNBIND_NEEDS_PRIVATE_CHAT@)
        } else {
            &&& next == AnswerState::Unbinding { user_id: sender->0 }
            &&& action == AnswerAction::Request(StateRequest::DeleteUser { user_id: sender->0 })
        },
    }
}

/// The step of a stats answer of the given kind for `ea_id` once the
/// backend answered `response`: the stats with a header naming the account,
/// or the failure text of that kind.
pub open spec fn stats_reply(
    kind: StatsKind,
    ea_id: String,
    response: StateResponse,
    action: AnswerAction,
) -> bool {
    match kind {
        StatsKind::Weapons => match response {
            StateResponse::Weapons(w) => action matches AnswerAction::SendWeapons {
                header,
                weapons,
            } && header@ == "Weapons of "@ + ea_id@ + ":\n"@ && weapons == w,
            _ => sends_text(action, WEAPONS_FETCH_FAILED@),
        },
        StatsKind::Vehicles => match response {
            StateResponse::Vehicles(v) => action matches AnswerAction::SendVehicles {
                header,
                vehicles,
            } && header@ == "Vehicles of "@ + ea_id@ + ":\n"@ && vehicles == v,
            _ => sends_text(action, FETCH_FAILED@),
        },
        StatsKind::Status => match response {
            StateResponse::Stats(s) => action matches AnswerAction::SendStatus { header, stats }
                && header@ == "Status of "@ + ea_id@ + ":\n"@ && stats == s,
            _ => sends_text(action, FETCH_FAILED@),
        },
    }
}

/// The step of an answer in `state` once the backend answered `response`.
pub open spec fn response_step(
    state: AnswerState,
    response: StateResponse,
    next: AnswerState,
    action: AnswerAction,
) -> bool {
    match state {
        AnswerState::ResolvingEaId(kind) => match response {
            StateResponse::EaUser(u) => {
                &&& next == AnswerState::Fetching { kind, ea_id: u }
                &&& action == AnswerAction::Request(stats_request(kind, u))
            },
            _ => next is Done && sends_notice(action, EA_ID_MISSING@),
        },
        AnswerState::Fetching { kind, ea_id } => next is Done && stats_reply(
            kind,
            ea_id,
            response,
            action,
        ),
        AnswerState::Binding { user_id, ea_id } => next is Done && if response is Success {
            sends_text(action, "Bind "@ + user_id@ + " with "@ + ea_id@ + "."@)
        } else {
            sends_text(action, BIND_FAILED@)
        },
        AnswerState::Unbinding { user_id } => next is Done && if response is Success {
            sends_text(action, "Unbind "@ + user_id@ + "."@)
        } else {
            sends_text(action, UNBIND_FAILED@)
        },
        AnswerState::Done => false,
    }
}

/// How many more backend requests an answer in `state` may still make.
pub open spec fn requests_left(state: AnswerState) -> nat {
    match state {
        AnswerState::ResolvingEaId(_) => 2,
        AnswerState::Fetching { .. } => 1,
        AnswerState::Binding { .. } => 1,
        AnswerState::Unbinding { .. } => 1,
        AnswerState::Done => 0,
    }
}

/// The request for a kind of stats asks for that kind, for the account
/// given.
pub proof fn lemma_stats_request_asks_for_its_kind(ea_id: String)
    ensures
        stats_request(StatsKind::Weapons, ea_id) == (StateRequest::GetWeapons { ea_id }),
        stats_request(StatsKind::Vehicles, ea_id) == (StateRequest::GetVehicles { ea_id }),
        stats_request(StatsKind::Status, ea_id) == (StateRequest::GetStats { ea_id }),
{
}

/// A stats command that names an account asks the backend for its own kind
/// of stats of exactly that account; one that names none asks for the
/// sender's bound account first, and then for its own kind of stats of the
/// account bound.
pub proof fn lemma_stats_commands_request_their_kind(
    name: String,
    chat_is_user: bool,
    sender: Option<String>,
    bound: String,
    next: AnswerState,
    action: AnswerAction,
    after: AnswerState,
    follow: AnswerAction,
)
    ensures
        name@.len() != 0 && start_step(Command::Weapons(name), chat_is_user, sender, next, action)
            ==> action == AnswerAction::Request(StateRequest::GetWeapons { ea_id: name }),
        name@.len() != 0 && start_step(Command::Vehicles(name), chat_is_user, sender, next, action)
            ==> action == AnswerAction::Request(StateRequest::GetVehicles { ea_id: name }),
        name@.len() != 0 && start_step(Command::Status(name), chat_is_user, sender, next, action)
            ==> action == AnswerAction::Request(StateRequest::GetStats { ea_id: name }),
        name@.len() == 0 && start_step(Command::Vehicles(name), chat_is_user, sender, next, action)
            ==> action == AnswerAction::Request(StateRequest::QueryUser { user_id: sender->0 }),
        response_step(
            AnswerState::ResolvingEaId(StatsKind::Weapons),
            StateResponse::EaUser(bound),
            after,
            follow,
        ) ==> follow == AnswerAction::Request(StateRequest::GetWeapons { ea_id: bound }),
        response_step(
            AnswerState::ResolvingEaId(StatsKind::Vehicles),
            StateResponse::EaUser(bound),
            after,
            follow,
        ) ==> follow == AnswerAction::Request(StateRequest::GetVehicles { ea_id: bound }),
        response_step(
            AnswerState::ResolvingEaId(StatsKind::Status),
            StateResponse::EaUser(bound),
            after,
            follow,
        ) ==> follow == AnswerAction::Request(StateRequest::GetStats { ea_id: bound }),
{
}

/// Whatever the backend answers a stats request with, short of a failure of
/// the statistics service, is shown as stats of the kind asked for.
pub proof fn lemma_fetched_stats_are_shown(
    kind: StatsKind,
    ea_id: String,
    response: StateResponse,
    action: AnswerAction,
)
    requires
        crate::backend::answers(stats_request(kind, ea_id), response),
        !(response is NetworkError),
        stats_reply(kind, ea_id, response, action),
    ensures
        (kind is Weapons) ==> (action is SendWeapons),
        (kind is Vehicles) ==> (action is SendVehicles),
        (kind is Status) ==> (action is SendStatus),
{
}

/// The replies name the account the stats belong to and carry the stats as
/// the backend gave them; a bind or unbind reply names the user and the
/// account.
pub proof fn lemma_replies(
    ea_id: String,
    user_id: String,
    weapons: Weapons,
    vehicles: Vehicles,
    stats: PlayerStats,
    next: AnswerState,
    action: AnswerAction,
)
    ensures
        response_step(
            AnswerState::Fetching { kind: StatsKind::Weapons, ea_id },
            StateResponse::Weapons(weapons),
            next,
            action,
        ) ==> (next is Done) && (action matches AnswerAction::SendWeapons { header, weapons: w }
            && w == weapons && header@ == "Weapons of "@ + ea_id@ + ":\n"@),
        response_step(
            AnswerState::Fetching { kind: StatsKind::Vehicles, ea_id },
            StateResponse::Vehicles(vehicles),
            next,
            action,
        ) ==> (next is Done) && (action matches AnswerAction::SendVehicles { header, vehicles: v }
            && v == vehicles && header@ == "Vehicles of "@ + ea_id@ + ":\n"@),
        response_step(
            AnswerState::Fetching { kind: StatsKind::Status, ea_id },
            StateResponse::Stats(stats),
            next,
            action,
        ) ==> (next is Done) && (action matches AnswerAction::SendStatus { header, stats: s }
            && s == stats && header@ == "Status of "@ + ea_id@ + ":\n"@),
        response_step(
            AnswerState::Binding { user_id, ea_id },
            StateResponse::Success,
            next,
            action,
        ) ==> (next is Done) && (action matches AnswerAction::SendText(t) && t@ == "Bind "@
            + user_id@ + " with "@ + ea_id@ + "."@),
        response_step(AnswerState::Unbinding { user_id }, StateResponse::Success, next, action)
            ==> (next is Done) && (action matches AnswerAction::SendText(t) && t@ == "Unbind "@
            + user_id@ + "."@),
{
}

/// `/help` sends the command list; `/bind` in a private chat with a name
/// stores the binding of the sender to that name, and elsewhere or without
/// a name only tells why it does not; `/unbind` in a private chat removes
/// the sender's binding, and elsewhere only tells why it does not.
pub proof fn lemma_other_commands(
    name: String,
    chat_is_user: bool,
    sender: Option<String>,
    next: AnswerState,
    action: AnswerAction,
)
    ensures
        start_step(Command::Help, chat_is_user, sender, next, action) ==> (next is Done) && (
        action is SendHelp),
        start_step(Command::Bind(name), chat_is_user, sender, next, action) ==> if !chat_is_user {
            (next is Done) && (action matches AnswerAction::SendText(t) && t@
                == "Please PM to bind user."@)
        } else if name@.len() == 0 {
            (next is Done) && (action matches AnswerAction::SendText(t) && t@
                == "Please specify a username."@)
        } else {
            action == AnswerAction::Request(
                StateRequest::InsertUser { user_id: sender->0, ea_id: name },
            )
        },
        start_step(Command::Unbind, chat_is_user, sender, next, action) ==> if !chat_is_user {
            (next is Done) && (action matches AnswerAction::SendText(t) && t@
                == "Please PM to unbind user."@)
        } else {
            action == AnswerAction::Request(StateRequest::DeleteUser { user_id: sender->0 })
        },
{
}

/// Where the backend does not answer with what was asked for, the answer
/// ends with the text for that failure: the missing binding as a notice, a
/// failed fetch of weapons, of vehicles or of overall stats, a failed bind or
/// unbind.
pub proof fn lemma_failure_texts(
    ea_id: String,
    user_id: String,
    kind: StatsKind,
    response: StateResponse,
    next: AnswerState,
    action: AnswerAction,
)
    ensures
        !(response is EaUser) && response_step(
            AnswerState::ResolvingEaId(kind),
            response,
            next,
            action,
        ) ==> (next is Done) && (action matches AnswerAction::SendNotice(t) && t@
            == "Failed to get your EA username, please set it with /bind"@),
        !(response is Weapons) && response_step(
            AnswerState::Fetching { kind: StatsKind::Weapons, ea_id },
            response,
            next,
            action,
        ) ==> (action matches AnswerAction::SendText(t) && t@
            == "Failed to fetch your EA stats, please wait a while and retry or recheck your username."@),
        !(response is Vehicles) && response_step(
            AnswerState::Fetching { kind: StatsKind::Vehicles, ea_id },
            response,
            next,
            action,
        ) ==> (action matches AnswerAction::SendText(t) && t@
            == "Failed to fetch your EA stats, please wait a while and retry."@),
        !(response is Stats) && response_step(
            AnswerState::Fetching { kind: StatsKind::Status, ea_id },
            response,
            next,
            action,
        ) ==> (action matches AnswerAction::SendText(t) && t@
            == "Failed to fetch your EA stats, please wait a while and retry."@),
        !(response is Success) && response_step(
            AnswerState::Binding { user_id, ea_id },
            response,
            next,
            action,
        ) ==> (action matches AnswerAction::SendText(t) && t@ == "Failed to bind"@),
        !(response is Success) && response_step(
            AnswerState::Unbinding { user_id },
            response,
            next,
            action,
        ) ==> (action matches AnswerAction::SendText(t) && t@ == "Failed to unbind"@),
{
}

/// Whether the answer to `cmd` needs the sender's id (see `needs_sender`).
pub fn needs_sender_id(cmd: &Command, chat_is_user: bool) -> (r: bool)
    ensures
        r == needs_sender(*cmd, chat_is_user),
{
    match cmd {
        Command::Help => false,
        Command::Weapons(u) => u.as_str().is_empty(),
        Command::Vehicles(u) => u.as_str().is_empty(),
        Command::Status(u) => u.as_str().is_empty(),
        Command::Bind(u) => chat_is_user && !u.as_str().is_empty(),
        Command::Unbind => chat_is_user,
    }
}

fn stats_request_for(kind: StatsKind, ea_id: String) -> (r: StateRequest)
    ensures
        r == stats_request(kind, ea_id),
{
    match kind {
        StatsKind::Weapons => StateRequest::GetWeapons { ea_id },
        StatsKind::Vehicles => StateRequest::GetVehicles { ea_id },
        StatsKind::Status => StateRequest::GetStats { ea_id },
    }
}

fn start_stats(kind: StatsKind, username: String, sender: Option<String>) -> (r: (
    AnswerState,
    AnswerAction,
))
    requires
        username@.len() == 0 ==> sender is Some,
    ensures
        stats_start(kind, username, sender, r.0, r.1),
{
    match given_ea_id(username) {
        None => {
            let user_id = sender.unwrap();
            (
                AnswerState::ResolvingEaId(kind),
                AnswerAction::Request(StateRequest::QueryUser { user_id }),
            )
        },
        Some(ea_id) => {
            let request = stats_request_for(kind, ea_id.clone());
            (AnswerState::Fetching { kind, ea_id }, AnswerAction::Request(request))
        },
    }
}

fn text(t: &str) -> (a: AnswerAction)
    ensures
        sends_text(a, t@),
{
    AnswerAction::SendText(t.to_owned())
}

/// The first step of the answer to `cmd`.
pub fn start_answer(cmd: Command, chat_is_user: bool, sender: Option<String>) -> (r: (
    AnswerState,
    AnswerAction,
))
    requires
        needs_sender(cmd, chat_is_user) ==> sender is Some,
    ensures
        start_step(cmd, chat_is_user, sender, r.0, r.1),
        r.0 is Done <==> !(r.1 is Request),
        requests_left(r.0) <= 2,
{
    match cmd {
        Command::Help => (AnswerState::Done, AnswerAction::SendHelp),
        Command::Weapons(u) => start_stats(StatsKind::Weapons, u, sender),
        Command::Vehicles(u) => start_stats(StatsKind::Vehicles, u, sender),
        Command::Status(u) => start_stats(StatsKind::Status, u, sender),
        Command::Bind(u) => {
            if !chat_is_user {
                (AnswerState::Done, text(BIND_NEEDS_PRIVATE_CHAT))
            } else if u.as_str().is_empty() {
                (AnswerState::Done, text(BIND_NEEDS_USERNAME))
            } else {
                let user_id = sender.unwrap();
                let request = StateRequest::InsertUser { user_id: user_id.clone(), ea_id: u.clone() };
                (AnswerState::Binding { user_id, ea_id: u }, AnswerAction::Request(request))
            }
        },
        Command::Unbind => {
            if !chat_is_user {
                (AnswerState::Done, text(UNBIND_NEEDS_PRIVATE_CHAT))
            } else {
                let user_id = sender.unwrap();
                let request = StateRequest::DeleteUser { user_id: user_id.clone() };
                (AnswerState::Unbinding { user_id }, AnswerAction::Request(request))
            }
        },
    }
}

/// `prefix`, then `name`, then `suffix`.
fn framed(prefix: &str, name: &String, suffix: &str) -> (s: String)
    ensures
        s@ == prefix@ + name@ + suffix@,
{
    let mut s: String = prefix.to_owned();
    s.append(name.as_str());
    s.append(suffix);
    s
}

fn stats_answer(kind: StatsKind, ea_id: String, response: StateResponse) -> (a: AnswerAction)
    ensures
        stats_reply(kind, ea_id, response, a),
{
    match kind {
        StatsKind::Weapons => match response {
            StateResponse::Weapons(weapons) => AnswerAction::SendWeapons {
                header: framed("Weapons of ", &ea_id, ":\n"),
                weapons,
            },
            _ => text(WEAPONS_FETCH_FAILED),
        },
        StatsKind::Vehicles => match response {
            StateResponse::Vehicles(vehicles) => AnswerAction::SendVehicles {
                header: framed("Vehicles of ", &ea_id, ":\n"),
                vehicles,
            },
            _ => text(FETCH_FAILED),
        },
        StatsKind::Status => match response {
            StateResponse::Stats(stats) => AnswerAction::SendStatus {
                header: framed("Status of ", &ea_id, ":\n"),
                stats,
            },
            _ => text(FETCH_FAILED),
        },
    }
}

/// The step of an answer in `state` once the backend answered `response`.
pub fn answer_response(state: AnswerState, response: StateResponse) -> (r: (
    AnswerState,
    AnswerAction,
))
    requires
        !(state is Done),
    ensures
        response_step(state, response, r.0, r.1),
        r.0 is Done <==> !(r.1 is Request),
        requests_left(r.0) < requests_left(state),
{
    match state {
        AnswerState::ResolvingEaId(kind) => match bound_ea_id(response) {
            Ok(ea_id) => {
                let request = stats_request_for(kind, ea_id.clone());
                (AnswerState::Fetching { kind, ea_id }, AnswerAction::Request(request))
            },
            Err(missing) => (AnswerState::Done, AnswerAction::SendNotice(missing)),
        },
        AnswerState::Fetching { kind, ea_id } => (
            AnswerState::Done,
            stats_answer(kind, ea_id, response),
        ),
        AnswerState::Binding { user_id, ea_id } => {
            let action = match response {
                StateResponse::Success => {
                    let mut t = framed("Bind ", &user_id, " with ");
                    t.append(ea_id.as_str());
                    t.append(".");
                    AnswerAction::SendText(t)
                },
                _ => text(BIND_FAILED),
            };
            (AnswerState::Done, action)
        },
        AnswerState::Unbinding { user_id } => {
            let action = match response {
                StateResponse::Success => AnswerAction::SendText(framed("Unbind ", &user_id, ".")),
                _ => text(UNBIND_FAILED),
            };
            (AnswerState::Done, action)
        },
        AnswerState::Done => (AnswerState::Done, AnswerAction::SendHelp),
    }
}

/// A message sent at `sent` (seconds and nanoseconds since the epoch) is
/// older than the bot, started at `started`, and is not answered.
pub fn message_is_outdated(sent: (i64, u32), started: (i64, u32)) -> (r: bool)
    ensures
        r == (sent.0 < started.0 || (sent.0 == started.0 && sent.1 < started.1)),
{
    sent.0 < started.0 || (sent.0 == started.0 && sent.1 < started.1)
}

} // verus!
