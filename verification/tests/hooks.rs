use stratumv1_proxy_rs::hook::{
    apply_outcome, gave_params, report, show_message, show_response, show_text, HookError, HookOutcome, Side,
};
use stratumv1_proxy_rs::json::Json;
use stratumv1_proxy_rs::line::{read_line, Line};
use stratumv1_proxy_rs::message::Response;
use stratumv1_proxy_rs::text::indent;
use stratumv1_proxy_rs::{Direction, Hook, Message};

#[test]
fn directions_have_labels() {
    assert_eq!(Direction::ClientToUpstream.label(), "Client->Upstream");
    assert_eq!(Direction::UpstreamToClient.label(), "Upstream->Client");
    assert_eq!(Direction::ClientToUpstream.way(), "CLIENT -> UPSTREAM");
    assert_eq!(Direction::UpstreamToClient.way(), "UPSTREAM -> CLIENT");
}

#[test]
fn directions_lead_from_one_side_to_the_other() {
    assert_eq!(Direction::ClientToUpstream.source(), Side::Client);
    assert_eq!(Direction::ClientToUpstream.destination(), Side::Upstream);
    assert_eq!(Direction::UpstreamToClient.source(), Side::Upstream);
    assert_eq!(Direction::UpstreamToClient.destination(), Side::Client);
}

struct Echo;

impl Hook for Echo {
    fn process(&self, direction: Direction, client_addr: &str, message: &Message) -> HookOutcome {
        Ok(Some(Json::string(&report(client_addr, direction, &message.to_string()))))
    }
}

fn process<H: Hook>(hook: &H, message: &Message) -> HookOutcome {
    hook.process(Direction::UpstreamToClient, "addr", message)
}

#[test]
fn a_boxed_hook_does_what_the_hook_does() {
    let boxed: Box<dyn Hook> = Box::new(Echo);
    let message = Message { id: "1".to_string(), method: "m".to_string(), params: Json::Null };
    let text = "\"[addr] Upstream->Client: 1 m null\"";
    assert_eq!(process(&Echo, &message).unwrap().unwrap().to_text(), text);
    assert_eq!(process(&boxed, &message).unwrap().unwrap().to_text(), text);
    let response = Response { id: Json::Null, result: Json::Null, error: None };
    Hook::process_response(&boxed, Direction::UpstreamToClient, "addr", &response);
}

#[test]
fn an_outcome_is_taken_over() {
    let mut params = Json::Null;
    apply_outcome(&mut params, Ok(None));
    assert_eq!(params.to_text(), "null");
    apply_outcome(&mut params, Ok(Some(Json::Bool(true))));
    assert_eq!(params.to_text(), "true");
    apply_outcome(&mut params, Err(HookError { reason: String::new() }));
    assert_eq!(params.to_text(), "true");
    assert!(!gave_params(&Ok(None)));
    assert!(gave_params(&Ok(Some(Json::Null))));
    assert!(!gave_params(&Err(HookError { reason: String::new() })));
}

#[test]
fn a_message_is_shown_with_its_way() {
    let message = Message {
        id: "1".to_string(),
        method: "mining.subscribe".to_string(),
        params: Json::array(vec![]),
    };
    assert_eq!(
        show_message("127.0.0.1:54321", Direction::ClientToUpstream, &message),
        r#"[127.0.0.1:54321] CLIENT -> UPSTREAM: {"id":1,"method":"mining.subscribe","params":[]}
  └─ Parsed: {
       "id": 1,
       "method": "mining.subscribe",
       "params": []
     }"#
    );
}

#[test]
fn a_response_is_shown_with_its_way() {
    let text = r#"{"id":1,"result":[[["mining.notify","..."]],"...",4],"error":null}"#;
    let response = Response::from_json(&Json::parse(text).unwrap()).unwrap();
    let shown = show_response("127.0.0.1:54321", Direction::UpstreamToClient, &response);
    let mut lines = shown.lines();
    assert_eq!(
        lines.next(),
        Some(r#"[127.0.0.1:54321] UPSTREAM -> CLIENT: {"id":1,"result":[[["mining.notify","..."]],"...",4],"error":null}"#)
    );
    assert_eq!(lines.next(), Some("  └─ Parsed: {"));
    assert_eq!(lines.next(), Some("       \"error\": null,"));
    assert_eq!(lines.last(), Some("     }"));
}

#[test]
fn texts_are_shown_and_reported() {
    assert_eq!(
        show_text("a", Direction::UpstreamToClient, "b", "c\nd"),
        "[a] UPSTREAM -> CLIENT: b\n  └─ Parsed: c\n     d"
    );
    assert_eq!(report("a", Direction::UpstreamToClient, "b"), "[a] Upstream->Client: b");
    assert_eq!(indent(""), "");
    assert_eq!(indent("\u{e9}\n\nx\n"), "\u{e9}\n     \n     x\n     ");
}

#[test]
fn white_space_around_a_line_does_not_count() {
    let command = r#"{"id":1,"method":"m","params":[]}"#;
    let spaces = [
        '\t', '\n', '\u{b}', '\u{c}', '\r', ' ', '\u{85}', '\u{a0}', '\u{1680}', '\u{2000}',
        '\u{2001}', '\u{2002}', '\u{2003}', '\u{2004}', '\u{2005}', '\u{2006}', '\u{2007}',
        '\u{2008}', '\u{2009}', '\u{200a}', '\u{2028}', '\u{2029}', '\u{202f}', '\u{205f}',
        '\u{3000}',
    ];
    for space in spaces {
        let line = format!("{}{}{}", space, command, space);
        assert!(matches!(read_line(&line), Line::Command(_)), "{:?}", space);
    }
    for other in ['\u{8}', '\u{e}', '\u{180e}', '\u{200b}', '\u{2060}', '\u{feff}', 'x'] {
        let line = format!("{}{}", command, other);
        assert!(matches!(read_line(&line), Line::NotJson), "{:?}", other);
    }
}

#[test]
fn lines_are_told_apart_by_what_they_say() {
    assert!(matches!(read_line("\n"), Line::NotJson));
    assert!(matches!(read_line("[]\n"), Line::NotAMessage(_)));
    assert!(matches!(read_line("{\"id\":1,\"result\":1}\n"), Line::Response(_)));
    assert!(matches!(read_line("{\"id\":1,\"method\":\"m\",\"params\":1}\n"), Line::Command(_)));
}
