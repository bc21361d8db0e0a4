use stratumv1_proxy_rs::json::Json;
use stratumv1_proxy_rs::message::{Command, MessageError, ProxyMessage, Response};
use stratumv1_proxy_rs::Message;

fn json(text: &str) -> Json {
    Json::parse(text).unwrap()
}

#[test]
fn a_message_is_read_from_its_fields() {
    let message = Message::from_json(&json(
        r#"{"id":7,"method":"mining.subscribe","params":["a",{"b":[]}],"more":1}"#,
    ))
    .unwrap();
    assert_eq!(message.id, "7");
    assert_eq!(message.method, "mining.subscribe");
    assert_eq!(message.params.to_text(), r#"["a",{"b":[]}]"#);
}

#[test]
fn an_id_is_held_as_its_text() {
    let id = |text: &str| Message::from_json(&json(text)).unwrap().id;
    assert_eq!(id(r#"{"id":"7","method":"m","params":[]}"#), "\"7\"");
    assert_eq!(id(r#"{"id":null,"method":"m","params":[]}"#), "null");
    assert_eq!(id(r#"{"id":[ 1 ],"method":"m","params":[]}"#), "[1]");
}

#[test]
fn each_missing_field_has_its_error() {
    let error = |text: &str| Message::from_json(&json(text)).unwrap_err();
    let e = error("[1]");
    assert!(matches!(e, MessageError::NotAnObject(_)));
    assert_eq!(e.to_string(), "Error: message should be a JSON object [1]");
    let e = error(r#"{"method":"m","params":[]}"#);
    assert!(matches!(e, MessageError::MissingId(_)));
    assert_eq!(
        e.to_string(),
        "Error: message should have an ID field {\"method\":\"m\",\"params\":[]}"
    );
    let e = error(r#"{"id":1,"params":[]}"#);
    assert!(matches!(e, MessageError::MissingMethod(_)));
    assert_eq!(
        e.to_string(),
        "Error: message should have a METHOD field {\"id\":1,\"params\":[]}"
    );
    let e = error(r#"{"id":1,"method":5,"params":[]}"#);
    assert!(matches!(e, MessageError::MethodNotString(_)));
    assert_eq!(e.to_string(), "Error: message should have a METHOD string field 5");
    let e = error(r#"{"id":1,"method":"m"}"#);
    assert!(matches!(e, MessageError::MissingParams(_)));
    assert_eq!(
        e.to_string(),
        "Error: message should have a PARAMS field {\"id\":1,\"method\":\"m\"}"
    );
}

#[test]
fn the_first_missing_field_is_reported() {
    assert!(matches!(Message::from_json(&json("{}")), Err(MessageError::MissingId(_))));
    assert!(matches!(
        Message::from_json(&json(r#"{"id":1}"#)),
        Err(MessageError::MissingMethod(_))
    ));
    assert!(matches!(
        Message::from_json(&json(r#"{"id":1,"method":null}"#)),
        Err(MessageError::MethodNotString(_))
    ));
}

#[test]
fn a_message_is_shown_on_one_line_or_indented() {
    let message =
        Message::from_json(&json(r#"{"id":1,"method":"mining.submit","params":["w",2]}"#)).unwrap();
    assert_eq!(message.to_string(), "1 mining.submit [\"w\",2]");
    assert_eq!(message.to_prerry_string(), "1 mining.submit [\n  \"w\",\n  2\n]");
    assert_eq!(message.with_params_text("-"), "1 mining.submit -");
    let copy = message.clone();
    assert_eq!(copy.to_string(), message.to_string());
}

#[test]
fn a_command_survives_json() {
    let text = r#"{"id":"x","method":"m","params":{"a":[1.5,null]}}"#;
    let command = Command::from_json(&json(text)).unwrap();
    assert_eq!(command.to_json().to_text(), text);
    let again = Command::from_json(&command.to_json()).unwrap();
    assert_eq!(again.id.to_text(), "\"x\"");
    assert_eq!(again.method, "m");
    assert_eq!(again.params.to_text(), "{\"a\":[1.5,null]}");
}

#[test]
fn a_response_has_an_id_and_a_result_and_no_method() {
    let response = Response::from_json(&json(r#"{"id":1,"result":[[],"00",4],"error":null}"#)).unwrap();
    assert_eq!(response.id.to_text(), "1");
    assert_eq!(response.result.to_text(), "[[],\"00\",4]");
    assert_eq!(response.error.unwrap().to_text(), "null");
    assert!(Response::from_json(&json(r#"{"id":1,"result":true}"#)).unwrap().error.is_none());
    assert!(Response::from_json(&json(r#"{"id":1,"error":null}"#)).is_none());
    assert!(Response::from_json(&json(r#"{"result":true}"#)).is_none());
    assert!(Response::from_json(&json(r#"{"id":1,"result":1,"method":"m","params":[]}"#)).is_none());
    assert!(Response::from_json(&json("true")).is_none());
}

#[test]
fn messages_are_told_apart() {
    assert!(matches!(
        ProxyMessage::from_json(&json(r#"{"id":1,"result":true,"error":null}"#)),
        Ok(ProxyMessage::Response(_))
    ));
    assert!(matches!(
        ProxyMessage::from_json(&json(r#"{"id":null,"method":"mining.notify","params":[]}"#)),
        Ok(ProxyMessage::Command(_))
    ));
    assert!(matches!(
        ProxyMessage::from_json(&json(r#"{"id":1}"#)),
        Err(MessageError::MissingMethod(_))
    ));
}

#[test]
fn a_message_is_written_as_json() {
    let json = Json::parse(r#"{"params":[1],"x":2,"method":"m","id":{"a":"b"}}"#).unwrap();
    let command = Command::from_json(&json).unwrap().clone();
    let message = command.message();
    assert_eq!(message.id, r#"{"a":"b"}"#);
    assert_eq!(message.to_json().to_text(), r#"{"id":{"a":"b"},"method":"m","params":[1]}"#);
    let odd = Message { id: "no json".to_string(), method: "m".to_string(), params: Json::Null };
    assert_eq!(odd.to_json().to_text(), r#"{"id":"no json","method":"m","params":null}"#);
    assert_eq!(
        odd.to_json_with_id(Json::Null).to_text(),
        r#"{"id":null,"method":"m","params":null}"#
    );
}

#[test]
fn a_response_is_written_as_json() {
    let sound = Json::parse(r#"{"result":[true],"id":1,"x":0}"#).unwrap();
    let sound = Response::from_json(&sound).unwrap().clone();
    assert_eq!(sound.to_text(), r#"{"id":1,"result":[true]}"#);
    assert_eq!(sound.to_json().to_text(), r#"{"id":1,"result":[true]}"#);
    let failed = Json::parse(r#"{"error":[21,"stale",null],"result":null,"id":1}"#).unwrap();
    let failed = Response::from_json(&failed).unwrap();
    assert_eq!(failed.to_text(), r#"{"id":1,"result":null,"error":[21,"stale",null]}"#);
    assert_eq!(failed.to_json().to_text(), r#"{"error":[21,"stale",null],"id":1,"result":null}"#);
}
