use std::sync::Mutex;

use stratumv1_proxy_rs::forward::{write_command, ForwardAction, ForwardError, ForwardEvent, Forwarder};
use stratumv1_proxy_rs::hook::{HookError, HookOutcome};
use stratumv1_proxy_rs::json::Json;
use stratumv1_proxy_rs::line::{read_line, Line};
use stratumv1_proxy_rs::message::{Command, Response};
use stratumv1_proxy_rs::server::ServerStub;
use stratumv1_proxy_rs::text::to_line;
use stratumv1_proxy_rs::{ClientStub, Direction, Hook, Message};

fn line(text: &str) -> ForwardEvent {
    ForwardEvent::Line(text.to_string())
}

fn forwarder(hooks: usize) -> Forwarder {
    Forwarder::new(Direction::ClientToUpstream, "addr", hooks)
}

fn written(action: Option<ForwardAction>) -> (String, Option<String>) {
    match action {
        Some(ForwardAction::Write { data, complaint }) => (data, complaint),
        _ => panic!("nothing to write"),
    }
}

fn asked(action: Option<ForwardAction>) -> (usize, String, String) {
    match action {
        Some(ForwardAction::ProcessCommand { hook, direction, client_addr, command }) => {
            assert_eq!(direction.label(), "Client->Upstream");
            (hook, client_addr, command.params.to_text())
        }
        _ => panic!("no hook to call"),
    }
}

const COMMAND: &str = "{ \"method\": \"m\", \"id\": 1, \"params\": [1], \"x\": 0 }\r\n";

#[test]
fn a_command_meets_the_hooks_in_order() {
    let mut forwarder = forwarder(3);
    let addr = "addr".to_string();
    assert_eq!(asked(forwarder.step(line(COMMAND))), (0, addr.clone(), "[1]".to_string()));
    let action = forwarder.step(ForwardEvent::Processed(Ok(Some(Json::from_u64(5)))));
    assert_eq!(asked(action), (1, addr.clone(), "5".to_string()));
    let failure = HookError { reason: "broken".to_string() };
    let action = forwarder.step(ForwardEvent::Processed(Err(failure)));
    assert_eq!(asked(action), (2, addr, "5".to_string()));
    let (data, complaint) = written(forwarder.step(ForwardEvent::Processed(Ok(None))));
    assert_eq!(data, "{\"id\":1,\"method\":\"m\",\"params\":5}\n");
    assert!(complaint.is_none());
}

#[test]
fn a_command_without_hooks_is_written_at_once() {
    let mut forwarder = forwarder(0);
    let (data, complaint) = written(forwarder.step(line(COMMAND)));
    assert_eq!(data, COMMAND);
    assert!(complaint.is_none());
}

#[test]
fn a_command_that_no_hook_changes_passes_unmodified() {
    let mut forwarder = forwarder(2);
    assert_eq!(asked(forwarder.step(line(COMMAND))).0, 0);
    assert_eq!(asked(forwarder.step(ForwardEvent::Processed(Ok(None)))).0, 1);
    let failure = HookError { reason: "broken".to_string() };
    let (data, complaint) = written(forwarder.step(ForwardEvent::Processed(Err(failure))));
    assert_eq!(data, COMMAND);
    assert!(complaint.is_none());
}

#[test]
fn the_same_parameters_given_again_are_given() {
    let mut forwarder = forwarder(1);
    forwarder.step(line(COMMAND));
    let same = Json::parse("[1]").unwrap();
    let (data, _) = written(forwarder.step(ForwardEvent::Processed(Ok(Some(same)))));
    assert_eq!(data, "{\"id\":1,\"method\":\"m\",\"params\":[1]}\n");
}

#[test]
fn a_change_does_not_reach_the_next_line() {
    let mut forwarder = forwarder(1);
    forwarder.step(line(COMMAND));
    forwarder.step(ForwardEvent::Processed(Ok(Some(Json::Null))));
    forwarder.step(ForwardEvent::Written);
    forwarder.step(ForwardEvent::Flushed);
    assert_eq!(asked(forwarder.step(line(COMMAND))).2, "[1]");
    assert_eq!(written(forwarder.step(ForwardEvent::Processed(Ok(None)))).0, COMMAND);
}

#[test]
fn hooks_may_join_between_two_lines() {
    let mut forwarder = forwarder(1);
    assert!(forwarder.set_hook_count(2));
    assert_eq!(asked(forwarder.step(line(COMMAND))).0, 0);
    assert!(!forwarder.set_hook_count(3));
    assert_eq!(asked(forwarder.step(ForwardEvent::Processed(Ok(None)))).0, 1);
    assert_eq!(written(forwarder.step(ForwardEvent::Processed(Ok(None)))).0, COMMAND);
}

#[test]
fn a_response_passes_unmodified() {
    let text = " {\"error\":null, \"id\":1, \"result\":[ true ]}\n";
    let mut forwarder = Forwarder::new(Direction::UpstreamToClient, "addr", 2);
    for expected in 0..2 {
        let event = if expected == 0 { line(text) } else { ForwardEvent::Observed };
        match forwarder.step(event) {
            Some(ForwardAction::ProcessResponse { hook, direction, client_addr, response }) => {
                assert_eq!(hook, expected);
                assert_eq!(direction.label(), "Upstream->Client");
                assert_eq!(client_addr, "addr");
                assert_eq!(response.result.to_text(), "[true]");
            }
            _ => panic!("no hook to call"),
        }
    }
    let (data, complaint) = written(forwarder.step(ForwardEvent::Observed));
    assert_eq!(data, text);
    assert!(complaint.is_none());
}

#[test]
fn other_lines_pass_unmodified() {
    let (data, complaint) = written(forwarder(2).step(line("hello\n")));
    assert_eq!(data, "hello\n");
    assert_eq!(complaint.unwrap(), "ERROR: couldn't parse, hooks not called: hello\n");
    let (data, complaint) = written(forwarder(2).step(line("[1]\n")));
    assert_eq!(data, "[1]\n");
    assert_eq!(
        complaint.unwrap(),
        "ERROR: couldn't parse, hooks not called: Error: message should be a JSON object [1] [1]\n"
    );
}

#[test]
fn what_was_written_is_flushed_before_the_next_line() {
    let mut forwarder = forwarder(0);
    written(forwarder.step(line("hello\n")));
    assert!(matches!(forwarder.step(ForwardEvent::Written), Some(ForwardAction::Flush)));
    assert!(matches!(forwarder.step(ForwardEvent::Flushed), Some(ForwardAction::Read)));
    written(forwarder.step(line("again\n")));
}

#[test]
fn the_end_of_the_stream_ends_the_direction() {
    let mut forwarder = forwarder(1);
    assert!(matches!(forwarder.step(line("")), Some(ForwardAction::Finish(Ok(())))));
    assert!(forwarder.step(line("hello\n")).is_none());
}

#[test]
fn failures_end_the_direction() {
    assert!(matches!(
        forwarder(0).step(ForwardEvent::ReadFailed),
        Some(ForwardAction::Finish(Err(ForwardError::Read)))
    ));
    let mut failing = forwarder(0);
    failing.step(line("hello\n"));
    assert!(matches!(
        failing.step(ForwardEvent::WriteFailed),
        Some(ForwardAction::Finish(Err(ForwardError::Write)))
    ));
    let mut failing = forwarder(0);
    failing.step(line("hello\n"));
    failing.step(ForwardEvent::Written);
    assert!(matches!(
        failing.step(ForwardEvent::FlushFailed),
        Some(ForwardAction::Finish(Err(ForwardError::Flush)))
    ));
    assert_eq!(ForwardError::Read.text(), "Failed to read line");
    assert_eq!(ForwardError::Write.text(), "Failed to write to destination");
    assert_eq!(ForwardError::Flush.text(), "Failed to flush");
}

#[test]
fn an_event_that_does_not_fit_changes_nothing() {
    let mut forwarder = forwarder(1);
    assert!(forwarder.step(ForwardEvent::Written).is_none());
    assert!(forwarder.step(ForwardEvent::Observed).is_none());
    assert_eq!(asked(forwarder.step(line(COMMAND))).0, 0);
    assert!(forwarder.step(ForwardEvent::Observed).is_none());
    assert!(forwarder.take_line("x\n".to_string(), Line::NotJson).is_none());
    let (data, _) = written(forwarder.step(ForwardEvent::Processed(Ok(None))));
    assert_eq!(data, COMMAND);
}

#[test]
fn a_read_line_is_taken() {
    let mut forwarder = forwarder(1);
    assert_eq!(forwarder.direction().label(), "Client->Upstream");
    assert_eq!(forwarder.client_addr(), "addr");
    let command =
        Command { id: Json::string("a"), method: "m".to_string(), params: Json::Bool(false) };
    let action = forwarder.take_line("anything".to_string(), Line::Command(command));
    assert_eq!(asked(action).2, "false");
    let (data, _) = written(forwarder.step(ForwardEvent::Processed(Ok(Some(Json::Null)))));
    assert_eq!(data, "{\"id\":\"a\",\"method\":\"m\",\"params\":null}\n");
}

#[test]
fn a_written_command_is_read_back() {
    let command = Command {
        id: Json::from_u64(1),
        method: "line\nbreak".to_string(),
        params: Json::array(vec![Json::string("\n"), Json::Null]),
    };
    let text = write_command(&command);
    assert_eq!(text.matches('\n').count(), 1);
    match read_line(&text) {
        Line::Command(read) => {
            assert_eq!(read.id.to_text(), "1");
            assert_eq!(read.method, "line\nbreak");
            assert_eq!(read.params.to_text(), "[\"\\n\",null]");
        }
        other => panic!("{:?}", other),
    }
    assert_eq!(to_line("a"), "a\n");
}

#[test]
fn a_client_reaches_the_server_through_the_proxy() {
    let mut client = ClientStub::new("127.0.0.1:3333", "user");
    client.start(true).unwrap();
    let mut server = ServerStub::new("127.0.0.1:3334");
    let mut forwarder = forwarder(1);
    for _ in 0..12 {
        let sent = client.send_mining_subscribe().unwrap();
        assert_eq!(asked(forwarder.step(line(&sent))).0, 0);
        let (data, _) = written(forwarder.step(ForwardEvent::Processed(Ok(None))));
        assert_eq!(data, sent);
        server.receive_line(&data).unwrap();
        forwarder.step(ForwardEvent::Written);
        forwarder.step(ForwardEvent::Flushed);
    }
    assert_eq!(server.get_message_count(), 12);
    assert_eq!(server.get_message("12").unwrap().method, "mining.subscribe");
}

enum Answer {
    Nothing,
    Params(u64),
    Failure,
}

struct Recorder {
    answer: Answer,
    seen: Mutex<Vec<String>>,
}

impl Recorder {
    fn new(answer: Answer) -> Box<dyn Hook> {
        Box::new(Recorder { answer, seen: Mutex::new(Vec::new()) })
    }
}

impl Hook for Recorder {
    fn process(&self, direction: Direction, client_addr: &str, message: &Message) -> HookOutcome {
        let said = format!("{} {} {}", client_addr, direction.label(), message.to_string());
        if self.seen.lock().unwrap().contains(&said) {
            return Ok(Some(Json::string("called twice")));
        }
        self.seen.lock().unwrap().push(said);
        match self.answer {
            Answer::Nothing => Ok(None),
            Answer::Params(n) => Ok(Some(Json::from_u64(n))),
            Answer::Failure => Err(HookError { reason: "broken".to_string() }),
        }
    }

    fn process_response(&self, direction: Direction, client_addr: &str, response: &Response) {
        let said = format!("{} {} {}", client_addr, direction.label(), response.to_text());
        self.seen.lock().unwrap().push(said);
    }
}

/// Forwards a stream through hooks, as a program does.
fn forward(hooks: &[Box<dyn Hook>], stream: &str) -> (String, Vec<String>) {
    let mut forwarder = forwarder(hooks.len());
    let mut out = String::new();
    let mut said = Vec::new();
    let mut lines = stream.split_inclusive('\n');
    let mut action = ForwardAction::Read;
    loop {
        let event = match action {
            ForwardAction::Read => line(lines.next().unwrap_or("")),
            ForwardAction::ProcessCommand { hook, direction, client_addr, command } => {
                said.push(format!("{} {}", hook, command.params.to_text()));
                let outcome = hooks[hook].process(direction, &client_addr, &command.message());
                ForwardEvent::Processed(outcome)
            }
            ForwardAction::ProcessResponse { hook, direction, client_addr, response } => {
                said.push(format!("{} {}", hook, response.to_text()));
                hooks[hook].process_response(direction, &client_addr, &response);
                ForwardEvent::Observed
            }
            ForwardAction::Write { data, complaint } => {
                out.push_str(&data);
                said.extend(complaint);
                ForwardEvent::Written
            }
            ForwardAction::Flush => ForwardEvent::Flushed,
            ForwardAction::Finish(end) => {
                assert_eq!(end, Ok(()));
                return (out, said);
            }
        };
        action = forwarder.step(event).unwrap();
    }
}

const RESPONSE: &str = "{\"id\": 1, \"result\": true}\n";

#[test]
fn silent_hooks_pass_a_stream_unmodified() {
    let hooks = [Recorder::new(Answer::Nothing), Recorder::new(Answer::Failure)];
    let stream = format!("{}{}hello\n{{}}\n{}", COMMAND, RESPONSE, "no newline");
    let (out, said) = forward(&hooks, &stream);
    assert_eq!(out, stream);
    assert_eq!(said[..4], ["0 [1]", "1 [1]", "0 {\"id\":1,\"result\":true}", "1 {\"id\":1,\"result\":true}"]);
    assert_eq!(said.len(), 7);
    assert_eq!(said[4], "ERROR: couldn't parse, hooks not called: hello\n");
}

#[test]
fn hooks_change_what_is_forwarded() {
    let hooks = [
        Recorder::new(Answer::Nothing),
        Recorder::new(Answer::Params(5)),
        Recorder::new(Answer::Failure),
        Recorder::new(Answer::Params(6)),
        Recorder::new(Answer::Nothing),
    ];
    let (out, said) = forward(&hooks, COMMAND);
    assert_eq!(out, "{\"id\":1,\"method\":\"m\",\"params\":6}\n");
    assert_eq!(said, ["0 [1]", "1 [1]", "2 5", "3 5", "4 6"]);
}

#[test]
fn streams_are_forwarded_one_after_the_other() {
    let other = "{\"id\":2,\"method\":\"n\",\"params\":null}";
    let hooks = || [Recorder::new(Answer::Params(7)), Recorder::new(Answer::Nothing)];
    let first = format!("{}{}", COMMAND, RESPONSE);
    let both = forward(&hooks(), &format!("{}{}", first, other)).0;
    assert_eq!(both, forward(&hooks(), &first).0 + &forward(&hooks(), other).0);
    assert_eq!(forward(&hooks(), "").0, "");
}
