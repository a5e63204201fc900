use sidero::api_client::HttpOutcome;
use sidero::api_client::HttpRequest;
use sidero::handler::AfterFetch;
use sidero::handler::AfterRun;
use sidero::handler::Step;
use sidero::json::Json;
use sidero::protocol::JsonRpcError;
use sidero::protocol::RequestId;
use sidero::semgrep_wrapper::Argument;
use sidero::semgrep_wrapper::Invocation;
use sidero::semgrep_wrapper::RunOutcome;
use sidero::server::Action;
use sidero::server::Event;
use sidero::server::Notice;
use sidero::server::Server;
use sidero::server::Session;
use sidero::server::Turn;

fn silent(notice: Notice) -> Turn {
    Turn { session: Session::Reading, output: None, action: Action::Read, notice }
}

fn written(line: &str, notice: Notice) -> Turn {
    Turn { session: Session::Reading, output: Some(line.to_string()), action: Action::Read, notice }
}

fn stopped() -> Turn {
    Turn { session: Session::Terminated, output: None, action: Action::Stop, notice: Notice::Nothing }
}

fn line(text: &str) -> Event {
    Event::Line(format!("{}\n", text))
}

fn exited(stdout: &str) -> Event {
    Event::Ran(RunOutcome::Exited { success: true, stdout: stdout.to_string(), stderr: String::new() })
}

fn answered(body: &str) -> Event {
    Event::Fetched(HttpOutcome::Answered {
        success: true,
        status: "200 OK".to_string(),
        body: Some(body.to_string()),
    })
}

/// Feeds the events to a server that begins reading and gathers what it writes.
fn run(events: Vec<Event>) -> (Session, Vec<String>, Action) {
    let (mut session, mut action) = Server::start();
    let mut lines = Vec::new();
    for event in events {
        let turn = Server::step(session, event);
        lines.extend(turn.output);
        session = turn.session;
        action = turn.action;
    }
    (session, lines, action)
}

#[test]
fn the_server_begins_by_reading() {
    assert_eq!(Server::start(), (Session::Reading, Action::Read));
}

#[test]
fn a_request_that_needs_no_outside_work_is_answered_at_once() {
    assert_eq!(
        Server::step(Session::Reading, line(r#"{"jsonrpc":"2.0","id":5,"method":"no/such"}"#)),
        written(
            "{\"error\":{\"code\":-32601,\"message\":\"Method not found: no/such\"},\"id\":5,\"jsonrpc\":\"2.0\"}\n",
            Notice::Nothing
        )
    );
    assert_eq!(
        Server::step(Session::Reading, line(r#"{"jsonrpc":"2.0","id":"n","method":"notifications/initialized"}"#)),
        written("{\"id\":\"n\",\"jsonrpc\":\"2.0\",\"result\":null}\n", Notice::Nothing)
    );
    assert_eq!(
        Server::read(r#"{"jsonrpc":"2.0","id":1,"method":"resources/read","params":{"uri":"semgrep://unknown"}}"#),
        written(
            "{\"error\":{\"code\":-32601,\"message\":\"Resource not found\"},\"id\":1,\"jsonrpc\":\"2.0\"}\n",
            Notice::Nothing
        )
    );
}

#[test]
fn a_request_for_a_tool_waits_for_the_engine_and_is_answered_once() {
    let turn = Server::step(
        Session::Reading,
        line(r#"{"jsonrpc":"2.0","id":"a1","method":"tools/call","params":{"name":"get_version"}}"#),
    );
    assert_eq!(
        turn,
        Turn {
            session: Session::Running { id: RequestId::String("a1".to_string()), then: AfterRun::Version },
            output: None,
            action: Action::Run(Invocation {
                program: "semgrep".to_string(),
                arguments: vec![Argument::Text("--version".to_string())],
            }),
            notice: Notice::Nothing,
        }
    );
    assert_eq!(
        Server::step(turn.session, exited("1.45.0\n")),
        written(
            "{\"id\":\"a1\",\"jsonrpc\":\"2.0\",\"result\":{\"content\":[{\"text\":\"1.45.0\",\"type\":\"text\"}]}}\n",
            Notice::Nothing
        )
    );
}

#[test]
fn initialize_is_answered_after_the_version_probe() {
    let (session, lines, action) = run(vec![
        line(r#"{"jsonrpc":"2.0","id":0,"method":"initialize","params":{}}"#),
        Event::Ran(RunOutcome::NotRun),
    ]);
    assert_eq!(session, Session::Reading);
    assert_eq!(action, Action::Read);
    assert_eq!(
        lines,
        vec![
            "{\"id\":0,\"jsonrpc\":\"2.0\",\"result\":{\"capabilities\":{\"logging\":{},\"tools\":{\"listChanged\":false}},\"protocolVersion\":\"2024-11-05\",\"serverInfo\":{\"name\":\"sidero\",\"version\":\"unknown\"}}}\n"
        ]
    );
}

#[test]
fn findings_take_three_turns_of_outside_work() {
    let request = line(
        r#"{"jsonrpc":"2.0","id":9,"method":"tools/call","params":{"name":"semgrep_findings","arguments":{"repos":["a","b"]}}}"#,
    );
    let query = vec![("repos".to_string(), Json::String("a,b".to_string()))];
    let first = Server::step(Session::Reading, request);
    assert_eq!(
        first,
        Turn {
            session: Session::LookingUp { id: RequestId::Number(9), query: query.clone() },
            output: None,
            action: Action::Lookup("SEMGREP_APP_TOKEN".to_string()),
            notice: Notice::Nothing,
        }
    );
    let second = Server::step(first.session, Event::Found(Some("tok".to_string())));
    assert_eq!(
        second,
        Turn {
            session: Session::Fetching {
                id: RequestId::Number(9),
                then: AfterFetch::Slug { token: "tok".to_string(), query: query.clone() },
            },
            output: None,
            action: Action::Fetch(HttpRequest {
                url: "https://semgrep.dev/api/v1/deployments".to_string(),
                bearer: Some("tok".to_string()),
                accept: Some("application/json".to_string()),
                query: vec![],
            }),
            notice: Notice::Nothing,
        }
    );
    let third = Server::step(second.session, answered(r#"{"deployments":[{"slug":"acme"}]}"#));
    assert_eq!(
        third,
        Turn {
            session: Session::Fetching { id: RequestId::Number(9), then: AfterFetch::Findings },
            output: None,
            action: Action::Fetch(HttpRequest {
                url: "https://semgrep.dev/api/v1/deployments/acme/findings".to_string(),
                bearer: Some("tok".to_string()),
                accept: Some("application/json".to_string()),
                query,
            }),
            notice: Notice::Nothing,
        }
    );
    assert_eq!(
        Server::step(third.session, answered("[]")),
        written(
            "{\"id\":9,\"jsonrpc\":\"2.0\",\"result\":{\"content\":[{\"text\":\"[]\",\"type\":\"text\"}]}}\n",
            Notice::Nothing
        )
    );
}

#[test]
fn findings_without_a_token_are_answered_with_an_internal_error() {
    let (session, lines, action) = run(vec![
        line(r#"{"jsonrpc":"2.0","id":9,"method":"tools/call","params":{"name":"semgrep_findings"}}"#),
        Event::Found(None),
    ]);
    assert_eq!(session, Session::Reading);
    assert_eq!(action, Action::Read);
    assert_eq!(
        lines,
        vec!["{\"error\":{\"code\":-32603,\"message\":\"SEMGREP_APP_TOKEN not set\"},\"id\":9,\"jsonrpc\":\"2.0\"}\n"]
    );
}

#[test]
fn a_resource_is_read_in_one_turn_of_outside_work() {
    let (session, lines, _) = run(vec![
        line(r#"{"jsonrpc":"2.0","id":2,"method":"resources/read","params":{"uri":"semgrep://rule/x.y/yaml"}}"#),
        answered("rules: []"),
    ]);
    assert_eq!(session, Session::Reading);
    assert_eq!(
        lines,
        vec![
            "{\"id\":2,\"jsonrpc\":\"2.0\",\"result\":{\"contents\":[{\"mimeType\":\"text/plain\",\"text\":\"rules: []\",\"uri\":\"semgrep://rule/x.y/yaml\"}]}}\n"
        ]
    );
}

#[test]
fn notifications_and_blank_lines_write_nothing() {
    assert_eq!(
        Server::step(Session::Reading, line(r#"{"jsonrpc":"2.0","method":"notifications/initialized"}"#)),
        silent(Notice::ClientInitialized)
    );
    assert_eq!(
        Server::step(Session::Reading, line(r#"{"jsonrpc":"2.0","method":"tools/call","params":{"name":"get_version"}}"#)),
        silent(Notice::Nothing)
    );
    assert_eq!(Server::step(Session::Reading, line("")), silent(Notice::Nothing));
    assert_eq!(Server::step(Session::Reading, line("   ")), silent(Notice::Nothing));
    assert_eq!(
        Server::step(Session::Reading, line(r#"{"jsonrpc":"2.0","id":1,"result":5}"#)),
        silent(Notice::Nothing)
    );
}

#[test]
fn a_malformed_line_is_answered_and_the_server_reads_on() {
    assert_eq!(
        Server::step(Session::Reading, line("{oops")),
        written(
            "{\"error\":{\"code\":-32700,\"message\":\"Parse error\"},\"jsonrpc\":\"2.0\"}\n",
            Notice::Malformed
        )
    );
}

#[test]
fn the_end_of_the_input_stops_the_server() {
    assert_eq!(Server::step(Session::Reading, Event::EndOfStream), stopped());
    assert_eq!(Server::step(Session::Terminated, line("{}")), stopped());
    assert_eq!(Server::step(Session::Terminated, Event::EndOfStream), stopped());
    assert_eq!(Server::step(Session::Terminated, exited("x")), stopped());
}

#[test]
fn an_event_that_was_not_asked_for_is_passed_over_or_counts_as_failure() {
    assert_eq!(Server::step(Session::Reading, exited("x")), silent(Notice::Nothing));
    assert_eq!(Server::step(Session::Reading, Event::Found(None)), silent(Notice::Nothing));
    assert_eq!(
        Server::step(
            Session::Running { id: RequestId::Number(1), then: AfterRun::Version },
            Event::Found(Some("x".to_string()))
        ),
        written(
            "{\"error\":{\"code\":-32603,\"message\":\"Failed to execute semgrep --version\"},\"id\":1,\"jsonrpc\":\"2.0\"}\n",
            Notice::Nothing
        )
    );
    assert_eq!(
        Server::step(
            Session::Fetching { id: RequestId::Number(1), then: AfterFetch::Findings },
            Event::EndOfStream
        ),
        written(
            "{\"error\":{\"code\":-32603,\"message\":\"Failed to send request to Semgrep Findings API\"},\"id\":1,\"jsonrpc\":\"2.0\"}\n",
            Notice::Nothing
        )
    );
    assert_eq!(
        Server::step(Session::LookingUp { id: RequestId::Number(1), query: vec![] }, exited("x")),
        written(
            "{\"error\":{\"code\":-32603,\"message\":\"SEMGREP_APP_TOKEN not set\"},\"id\":1,\"jsonrpc\":\"2.0\"}\n",
            Notice::Nothing
        )
    );
}

#[test]
fn a_session_of_several_lines_answers_each_request_once_and_in_order() {
    let (session, lines, action) = run(vec![
        line(r#"{"jsonrpc":"2.0","id":1,"method":"prompts/get","params":{"name":"nope"}}"#),
        line(r#"{"jsonrpc":"2.0","method":"notifications/initialized"}"#),
        line(""),
        line("garbage"),
        line(r#"{"jsonrpc":"2.0","id":"2","method":"tools/call","params":{"name":"supported_languages"}}"#),
        exited("python\ngo\n"),
        line(r#"{"jsonrpc":"2.0","id":3,"method":"tools/call","params":{"name":"semgrep_scan","arguments":{}}}"#),
        Event::EndOfStream,
    ]);
    assert_eq!(session, Session::Terminated);
    assert_eq!(action, Action::Stop);
    assert_eq!(
        lines,
        vec![
            "{\"error\":{\"code\":-32601,\"message\":\"Prompt not found\"},\"id\":1,\"jsonrpc\":\"2.0\"}\n",
            "{\"error\":{\"code\":-32700,\"message\":\"Parse error\"},\"jsonrpc\":\"2.0\"}\n",
            "{\"id\":\"2\",\"jsonrpc\":\"2.0\",\"result\":{\"content\":[{\"text\":\"python, go\",\"type\":\"text\"}]}}\n",
            "{\"error\":{\"code\":-32602,\"message\":\"Missing paths\"},\"id\":3,\"jsonrpc\":\"2.0\"}\n",
        ]
    );
}

#[test]
fn following_a_step_writes_the_answer_or_asks_for_work() {
    assert_eq!(
        Server::follow(RequestId::Number(4), Step::Done(Ok(Json::Bool(true)))),
        written("{\"id\":4,\"jsonrpc\":\"2.0\",\"result\":true}\n", Notice::Nothing)
    );
    assert_eq!(
        Server::follow(
            RequestId::Number(4),
            Step::Done(Err(JsonRpcError { code: 7, message: "m".to_string(), data: Some(Json::Null) }))
        ),
        written(
            "{\"error\":{\"code\":7,\"data\":null,\"message\":\"m\"},\"id\":4,\"jsonrpc\":\"2.0\"}\n",
            Notice::Nothing
        )
    );
    assert_eq!(
        Server::follow(
            RequestId::Number(4),
            Step::Lookup { variable: "V".to_string(), query: vec![] }
        ),
        Turn {
            session: Session::LookingUp { id: RequestId::Number(4), query: vec![] },
            output: None,
            action: Action::Lookup("V".to_string()),
            notice: Notice::Nothing,
        }
    );
}
