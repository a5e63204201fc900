//! The whole server as one state machine: the transport loop and the dispatch
//! engine put together. The caller does what each turn asks for, hands back
//! what came of it, and writes what the turn gives out; every decision is
//! taken here.

use vstd::prelude::*;
use crate::api_client::optional_string;
use crate::api_client::AnswerValue;
use crate::api_client::HttpOutcome;
use crate::api_client::HttpRequest;
use crate::api_client::RequestValue;
use crate::handler::dispatch;
use crate::handler::fetch_reply;
use crate::handler::lookup_step;
use crate::handler::run_reply;
use crate::handler::AfterFetch;
use crate::handler::AfterFetchValue;
use crate::handler::AfterRun;
use crate::handler::Handler;
use crate::handler::Step;
use crate::handler::StepValue;
use crate::json::entries_view;
use crate::json::Json;
use crate::json::JsonValue;
use crate::protocol::ErrorValue;
use crate::protocol::IdValue;
use crate::protocol::JsonRpcMessage;
use crate::protocol::MessageValue;
use crate::protocol::RequestId;
use crate::semgrep_wrapper::Invocation;
use crate::semgrep_wrapper::InvocationValue;
use crate::semgrep_wrapper::RunOutcome;
use crate::semgrep_wrapper::RunValue;
use crate::transport::answer;
use crate::transport::one_line;
use crate::transport::parse_error;
use crate::transport::reaction;
use crate::transport::Reaction;
use crate::transport::ReactionValue;
use crate::transport::Transport;

verus! {

/// Where the server stands.
#[allow(inconsistent_fields)]
#[derive(Debug, PartialEq)]
pub enum Session {
    /// Between two requests: the next line is read.
    Reading,
    /// The request `id` waits for the engine to run.
    Running { id: RequestId, then: AfterRun },
    /// The request `id` waits for the answer of the findings service.
    Fetching { id: RequestId, then: AfterFetch },
    /// The request `id` waits for the access token.
    LookingUp { id: RequestId, query: Vec<(String, Json)> },
    /// The server has stopped.
    Terminated,
}

/// What a `Session` stands for.
#[allow(inconsistent_fields)]
pub enum SessionValue {
    Reading,
    Running { id: IdValue, then: AfterRun },
    Fetching { id: IdValue, then: AfterFetchValue },
    LookingUp { id: IdValue, query: Seq<(Seq<char>, JsonValue)> },
    Terminated,
}

impl View for Session {
    type V = SessionValue;

    open spec fn view(&self) -> SessionValue {
        match self {
            Session::Reading => SessionValue::Reading,
            Session::Running { id, then } => SessionValue::Running { id: id@, then: *then },
            Session::Fetching { id, then } => SessionValue::Fetching { id: id@, then: then@ },
            Session::LookingUp { id, query } => SessionValue::LookingUp {
                id: id@,
                query: entries_view(query@),
            },
            Session::Terminated => SessionValue::Terminated,
        }
    }
}

/// What the caller hands to the server.
#[derive(Debug, PartialEq)]
pub enum Event {
    /// One line of input.
    Line(String),
    /// The input has ended.
    EndOfStream,
    /// The engine was run, with this outcome.
    Ran(RunOutcome),
    /// The request was sent, with this outcome.
    Fetched(HttpOutcome),
    /// The variable was looked up: its value, where it has one.
    Found(Option<String>),
}

/// What an `Event` stands for.
pub enum EventValue {
    Line(Seq<char>),
    EndOfStream,
    Ran(RunValue),
    Fetched(AnswerValue),
    Found(Option<Seq<char>>),
}

impl View for Event {
    type V = EventValue;

    open spec fn view(&self) -> EventValue {
        match self {
            Event::Line(line) => EventValue::Line(line@),
            Event::EndOfStream => EventValue::EndOfStream,
            Event::Ran(outcome) => EventValue::Ran(outcome@),
            Event::Fetched(outcome) => EventValue::Fetched(outcome@),
            Event::Found(value) => EventValue::Found(optional_string(*value)),
        }
    }
}

/// What the server asks the caller to do next.
#[derive(Debug, PartialEq)]
pub enum Action {
    /// Read the next line of input.
    Read,
    /// Run this invocation.
    Run(Invocation),
    /// Send this request.
    Fetch(HttpRequest),
    /// Look this variable up in the environment.
    Lookup(String),
    /// Stop: the input has ended.
    Stop,
    /// Stop with a failure: an answer could not be written as text.
    Abort,
}

/// What an `Action` stands for.
pub enum ActionValue {
    Read,
    Run(InvocationValue),
    Fetch(RequestValue),
    Lookup(Seq<char>),
    Stop,
    Abort,
}

impl View for Action {
    type V = ActionValue;

    open spec fn view(&self) -> ActionValue {
        match self {
            Action::Read => ActionValue::Read,
            Action::Run(invocation) => ActionValue::Run(invocation@),
            Action::Fetch(request) => ActionValue::Fetch(request@),
            Action::Lookup(variable) => ActionValue::Lookup(variable@),
            Action::Stop => ActionValue::Stop,
            Action::Abort => ActionValue::Abort,
        }
    }
}

/// What a line of input was, for the caller's log.
#[derive(Debug, PartialEq, Eq, Clone, Copy)]
pub enum Notice {
    /// Nothing worth a note.
    Nothing,
    /// The client told that it is initialized.
    ClientInitialized,
    /// The line held no message.
    Malformed,
}

/// One turn of the server: where it stands now, the line to write out
/// before anything else is done, what to do next, and a note for the log.
#[derive(Debug, PartialEq)]
pub struct Turn {
    pub session: Session,
    pub output: Option<String>,
    pub action: Action,
    pub notice: Notice,
}

/// What a `Turn` stands for.
pub struct TurnValue {
    pub session: SessionValue,
    pub output: Option<Seq<char>>,
    pub action: ActionValue,
    pub notice: Notice,
}

impl View for Turn {
    type V = TurnValue;

    open spec fn view(&self) -> TurnValue {
        TurnValue {
            session: self.session@,
            output: optional_string(self.output),
            action: self.action@,
            notice: self.notice,
        }
    }
}

/// The line that is written for a message: its text and the line's end.
pub open spec fn line_of(m: MessageValue) -> Option<Seq<char>> {
    match m.text() {
        Some(text) => Some(text + "\n"@),
        None => None,
    }
}

/// The turn that writes the message `m` and goes back to reading. A message
/// that cannot be written ends the server.
pub open spec fn written_turn(m: MessageValue, notice: Notice) -> TurnValue {
    match line_of(m) {
        Some(line) => TurnValue {
            session: SessionValue::Reading,
            output: Some(line),
            action: ActionValue::Read,
            notice,
        },
        None => TurnValue {
            session: SessionValue::Terminated,
            output: None,
            action: ActionValue::Abort,
            notice,
        },
    }
}

/// The turn that writes nothing and goes on reading.
pub open spec fn silent_turn(notice: Notice) -> TurnValue {
    TurnValue { session: SessionValue::Reading, output: None, action: ActionValue::Read, notice }
}

/// The turn that follows a step of the handling of the request `id`: the
/// answer is written where the step is the last one, else the work that the
/// step names is asked for and nothing is written.
pub open spec fn follow(id: IdValue, step: StepValue) -> TurnValue {
    match step {
        StepValue::Done(outcome) => written_turn(answer(id, outcome), Notice::Nothing),
        StepValue::Run(invocation, then) => TurnValue {
            session: SessionValue::Running { id, then },
            output: None,
            action: ActionValue::Run(invocation),
            notice: Notice::Nothing,
        },
        StepValue::Fetch(request, then) => TurnValue {
            session: SessionValue::Fetching { id, then },
            output: None,
            action: ActionValue::Fetch(request),
            notice: Notice::Nothing,
        },
        StepValue::Lookup { variable, query } => TurnValue {
            session: SessionValue::LookingUp { id, query },
            output: None,
            action: ActionValue::Lookup(variable),
            notice: Notice::Nothing,
        },
    }
}

/// The turn that a line of input gives.
pub open spec fn line_turn(line: Seq<char>) -> TurnValue {
    match reaction(line) {
        ReactionValue::Nothing => silent_turn(Notice::Nothing),
        ReactionValue::Notified(m) => silent_turn(
            if m matches MessageValue::Notification { method, .. } && method
                == "notifications/initialized"@ {
                Notice::ClientInitialized
            } else {
                Notice::Nothing
            },
        ),
        ReactionValue::Send(m) => written_turn(m, Notice::Malformed),
        ReactionValue::Dispatch(m) => match m {
            MessageValue::Request { id, method, params, .. } => follow(id, dispatch(method, params)),
            _ => silent_turn(Notice::Nothing),
        },
    }
}

/// The outcome of a run that an event tells; an event of another kind
/// counts as a run that did not start.
pub open spec fn ran(event: EventValue) -> RunValue {
    match event {
        EventValue::Ran(outcome) => outcome,
        _ => RunValue::NotRun,
    }
}

/// The outcome of a request that an event tells; an event of another kind
/// counts as a request that got no answer.
pub open spec fn fetched(event: EventValue) -> AnswerValue {
    match event {
        EventValue::Fetched(outcome) => outcome,
        _ => AnswerValue::NotSent,
    }
}

/// The value of a variable that an event tells; an event of another kind
/// counts as a variable without value.
pub open spec fn found(event: EventValue) -> Option<Seq<char>> {
    match event {
        EventValue::Found(value) => value,
        _ => None,
    }
}

/// One turn of the server.
///
/// While it reads, a line is answered or begins the handling of a request,
/// the end of the input stops the server, and anything else is passed over.
/// While a request waits for outside work, the event is taken as the
/// outcome of that work. Once stopped, the server stays stopped.
pub open spec fn turn(session: SessionValue, event: EventValue) -> TurnValue {
    match session {
        SessionValue::Reading => match event {
            EventValue::Line(line) => line_turn(line),
            EventValue::EndOfStream => TurnValue {
                session: SessionValue::Terminated,
                output: None,
                action: ActionValue::Stop,
                notice: Notice::Nothing,
            },
            _ => silent_turn(Notice::Nothing),
        },
        SessionValue::Running { id, then } => written_turn(
            answer(id, run_reply(then, ran(event))),
            Notice::Nothing,
        ),
        SessionValue::Fetching { id, then } => follow(id, fetch_reply(then, fetched(event))),
        SessionValue::LookingUp { id, query } => follow(id, lookup_step(query, found(event))),
        SessionValue::Terminated => TurnValue {
            session: SessionValue::Terminated,
            output: None,
            action: ActionValue::Stop,
            notice: Notice::Nothing,
        },
    }
}

/// The request that a session is handling, where it handles one.
pub open spec fn pending(session: SessionValue) -> Option<IdValue> {
    match session {
        SessionValue::Running { id, .. } => Some(id),
        SessionValue::Fetching { id, .. } => Some(id),
        SessionValue::LookingUp { id, .. } => Some(id),
        _ => None,
    }
}

/// How many turns the request that a session is handling can still take
/// before it is answered.
pub open spec fn turns_left(session: SessionValue) -> nat {
    match session {
        SessionValue::LookingUp { .. } => 3,
        SessionValue::Fetching { then: AfterFetchValue::Slug { .. }, .. } => 2,
        SessionValue::Fetching { .. } => 1,
        SessionValue::Running { .. } => 1,
        _ => 0,
    }
}

/// The server.
pub struct Server;

impl Server {
    /// The session in which the server begins, and the first thing to do.
    pub fn start() -> (r: (Session, Action))
        ensures
            r.0@ == SessionValue::Reading,
            r.1@ == ActionValue::Read,
    {
        (Session::Reading, Action::Read)
    }

    /// One turn of the server. What it gives out to be written is one line.
    pub fn step(session: Session, event: Event) -> (r: Turn)
        ensures
            r@ == turn(session@, event@),
            r.output matches Some(line) ==> one_line(line@),
    {
        match session {
            Session::Reading => match event {
                Event::Line(line) => Self::read(line.as_str()),
                Event::EndOfStream => Turn {
                    session: Session::Terminated,
                    output: None,
                    action: Action::Stop,
                    notice: Notice::Nothing,
                },
                _ => Self::silent(Notice::Nothing),
            },
            Session::Running { id, then } => {
                let outcome = match event {
                    Event::Ran(outcome) => outcome,
                    _ => RunOutcome::NotRun,
                };
                let reply = Handler::after_run(then, &outcome);
                Self::write(Transport::answer(id, reply), Notice::Nothing)
            },
            Session::Fetching { id, then } => {
                let outcome = match event {
                    Event::Fetched(outcome) => outcome,
                    _ => HttpOutcome::NotSent,
                };
                Self::follow(id, Handler::after_fetch(then, &outcome))
            },
            Session::LookingUp { id, query } => {
                let value = match event {
                    Event::Found(value) => value,
                    _ => None,
                };
                Self::follow(id, Handler::after_lookup(query, value))
            },
            Session::Terminated => Turn {
                session: Session::Terminated,
                output: None,
                action: Action::Stop,
                notice: Notice::Nothing,
            },
        }
    }

    /// The turn that a line of input gives.
    pub fn read(line: &str) -> (r: Turn)
        ensures
            r@ == line_turn(line@),
            r.output matches Some(line) ==> one_line(line@),
    {
        match Transport::react(line) {
            Reaction::Nothing => Self::silent(Notice::Nothing),
            Reaction::Notified(m) => {
                if crate::text::same(m.method.as_str(), "notifications/initialized") {
                    Self::silent(Notice::ClientInitialized)
                } else {
                    Self::silent(Notice::Nothing)
                }
            },
            Reaction::Send(m) => Self::write(m, Notice::Malformed),
            Reaction::Dispatch(request) => {
                let id = request.id.clone();
                Self::follow(id, Handler::handle_request(request))
            },
        }
    }

    /// The turn that follows a step of the handling of the request `id`.
    pub fn follow(id: RequestId, step: Step) -> (r: Turn)
        ensures
            r@ == follow(id@, step@),
            r.output matches Some(line) ==> one_line(line@),
    {
        match step {
            Step::Done(outcome) => Self::write(Transport::answer(id, outcome), Notice::Nothing),
            Step::Run(invocation, then) => Turn {
                session: Session::Running { id, then },
                output: None,
                action: Action::Run(invocation),
                notice: Notice::Nothing,
            },
            Step::Fetch(request, then) => Turn {
                session: Session::Fetching { id, then },
                output: None,
                action: Action::Fetch(request),
                notice: Notice::Nothing,
            },
            Step::Lookup { variable, query } => Turn {
                session: Session::LookingUp { id, query },
                output: None,
                action: Action::Lookup(variable),
                notice: Notice::Nothing,
            },
        }
    }

    /// The turn that writes a message and goes back to reading.
    fn write(message: JsonRpcMessage, notice: Notice) -> (r: Turn)
        ensures
            r@ == written_turn(message@, notice),
            r.output matches Some(line) ==> one_line(line@),
    {
        match Transport::frame(&message) {
            Some(line) => Turn {
                session: Session::Reading,
                output: Some(line),
                action: Action::Read,
                notice,
            },
            None => Turn { session: Session::Terminated, output: None, action: Action::Abort, notice },
        }
    }

    /// The turn that writes nothing and goes on reading.
    fn silent(notice: Notice) -> (r: Turn)
        ensures
            r@ == silent_turn(notice),
    {
        Turn { session: Session::Reading, output: None, action: Action::Read, notice }
    }
}

/// A line that holds a request begins its handling: either the request is
/// answered at once, by the one line that is written, or the server waits
/// for outside work under the request's identifier and writes nothing yet.
/// The server stops only where the answer cannot be written.
pub proof fn lemma_request_begins(line: Seq<char>)
    requires
        reaction(line) matches ReactionValue::Dispatch(m) && m is Request,
    ensures
        ({
            let id = reaction(line)->Dispatch_0->Request_id;
            let next = turn(SessionValue::Reading, EventValue::Line(line));
            match next.session {
                SessionValue::Reading => exists|outcome: Result<JsonValue, ErrorValue>|
                    next.output == line_of(#[trigger] answer(id, outcome)) && next.output is Some,
                SessionValue::Terminated => next.action is Abort && next.output is None,
                _ => pending(next.session) == Some(id) && next.output is None,
            }
        }),
{
    let m = reaction(line)->Dispatch_0;
    let id = m->Request_id;
    let step = dispatch(m->Request_method, m->Request_params);
    lemma_follow(id, step);
}

/// While a request waits for outside work, every turn brings it nearer to
/// its answer, whatever the event: either the one line that answers it is
/// written and the server reads again, or the server waits for more work
/// under the same identifier, with fewer turns left, and writes nothing.
/// The server stops only where the answer cannot be written.
pub proof fn lemma_request_ends(session: SessionValue, event: EventValue)
    requires
        pending(session) is Some,
    ensures
        ({
            let id = pending(session)->0;
            let next = turn(session, event);
            match next.session {
                SessionValue::Reading => exists|outcome: Result<JsonValue, ErrorValue>|
                    next.output == line_of(#[trigger] answer(id, outcome)) && next.output is Some,
                SessionValue::Terminated => next.action is Abort && next.output is None,
                _ => pending(next.session) == Some(id) && next.output is None && turns_left(
                    next.session,
                ) < turns_left(session),
            }
        }),
{
    let id = pending(session)->0;
    match session {
        SessionValue::Running { id, then } => {
            let outcome = run_reply(then, ran(event));
            let next = turn(session, event);
            if next.session is Reading {
                assert(next.output == line_of(answer(id, outcome)));
            }
        },
        SessionValue::Fetching { id, then } => {
            lemma_follow(id, fetch_reply(then, fetched(event)));
        },
        SessionValue::LookingUp { id, query } => {
            lemma_follow(id, lookup_step(query, found(event)));
        },
        _ => {},
    }
}

/// What `follow` gives: the answer to the request, written, or a wait under
/// the request's identifier with nothing written.
proof fn lemma_follow(id: IdValue, step: StepValue)
    ensures
        ({
            let next = follow(id, step);
            match next.session {
                SessionValue::Reading => exists|outcome: Result<JsonValue, ErrorValue>|
                    next.output == line_of(#[trigger] answer(id, outcome)) && next.output is Some,
                SessionValue::Terminated => next.action is Abort && next.output is None,
                _ => pending(next.session) == Some(id) && next.output is None,
            }
        }),
{
    match step {
        StepValue::Done(outcome) => {
            let next = follow(id, step);
            if next.session is Reading {
                assert(next.output == line_of(answer(id, outcome)));
            }
        },
        _ => {},
    }
}

/// A line that holds a notification is passed over: nothing is written and
/// the server reads on.
pub proof fn lemma_notification_silent(line: Seq<char>)
    requires
        reaction(line) is Notified,
    ensures
        turn(SessionValue::Reading, EventValue::Line(line)).output is None,
        turn(SessionValue::Reading, EventValue::Line(line)).session == SessionValue::Reading,
        turn(SessionValue::Reading, EventValue::Line(line)).action == ActionValue::Read,
{
}

/// A line that is not blank and holds no message is answered by the parse
/// error, and the server reads on; it stops only where the answer cannot be
/// written.
pub proof fn lemma_malformed_answered(line: Seq<char>)
    requires
        reaction(line) == ReactionValue::Send(parse_error()),
    ensures
        turn(SessionValue::Reading, EventValue::Line(line)) == written_turn(
            parse_error(),
            Notice::Malformed,
        ),
        line_of(parse_error()) is Some ==> turn(SessionValue::Reading, EventValue::Line(line)).session
            == SessionValue::Reading && turn(SessionValue::Reading, EventValue::Line(line)).output
            == line_of(parse_error()),
{
}

/// Nothing is written unless a line was read or a request was waiting, and
/// a server that has stopped stays stopped and writes nothing.
pub proof fn lemma_stopped_stays(event: EventValue)
    ensures
        turn(SessionValue::Terminated, event).session == SessionValue::Terminated,
        turn(SessionValue::Terminated, event).output is None,
        turn(SessionValue::Terminated, event).action == ActionValue::Stop,
{
}

} // verus!
