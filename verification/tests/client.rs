use stratumv1_proxy_rs::client::{ClientError, SendEvent};
use stratumv1_proxy_rs::json::Json;
use stratumv1_proxy_rs::server::ServerStub;
use stratumv1_proxy_rs::ClientStub;

fn connected() -> ClientStub {
    let mut client = ClientStub::new("pool.example.com:3333", "user");
    client.start(true).unwrap();
    client
}

#[test]
fn messages_are_numbered_from_one() {
    let mut client = connected();
    assert_eq!(client.sent(), 0);
    assert_eq!(
        client.send_message("a".to_string(), Json::Null).unwrap(),
        "{\"id\":1,\"method\":\"a\",\"params\":null}\n"
    );
    assert_eq!(
        client.send_message("b".to_string(), Json::Bool(true)).unwrap(),
        "{\"id\":2,\"method\":\"b\",\"params\":true}\n"
    );
    assert_eq!(client.sent(), 2);
}

#[test]
fn numbers_go_on_after_a_reconnect() {
    let mut client = connected();
    client.send_mining_subscribe().unwrap();
    assert!(client.stop());
    assert!(!client.stop());
    client.start(true).unwrap();
    let line = client.send_mining_subscribe().unwrap();
    assert!(line.starts_with("{\"id\":2,"));
}

#[test]
fn a_client_without_connection_sends_nothing() {
    let mut client = ClientStub::new("pool.example.com:3333", "user");
    assert_eq!(client.send_mining_configure(), Err(ClientError::NotConnected));
    assert_eq!(client.start(false), Err(ClientError::ConnectFailed));
    assert_eq!(client.send_mining_authorize(), Err(ClientError::NotConnected));
    assert_eq!(client.sent(), 0);
    client.start(true).unwrap();
    client.stop();
    assert_eq!(client.send_mining_suggest_difficulty(1), Err(ClientError::NotConnected));
    assert_eq!(client.sent(), 0);
}

#[test]
fn client_errors_tell_what_happened() {
    assert_eq!(ClientError::NotConnected.text(), "Not connected");
    assert_eq!(ClientError::ConnectFailed.text(), "Failed to connect to upstream server");
    assert_eq!(ClientError::WriteFailed.text(), "Failed to write message");
    assert_eq!(ClientError::FlushFailed.text(), "Failed to flush");
}

#[test]
fn a_message_that_could_not_be_written_uses_up_its_number() {
    let mut client = connected();
    client.send_mining_subscribe().unwrap();
    assert_eq!(client.finish_sending(SendEvent::WriteFailed), Err(ClientError::WriteFailed));
    client.send_mining_subscribe().unwrap();
    assert_eq!(client.finish_sending(SendEvent::FlushFailed), Err(ClientError::FlushFailed));
    let line = client.send_mining_subscribe().unwrap();
    assert_eq!(client.finish_sending(SendEvent::Sent), Ok(()));
    assert!(line.starts_with("{\"id\":3,"));
}

#[test]
fn a_float_may_be_delivered_as_its_neighbour() {
    let mut client = connected();
    let mut server = ServerStub::new("127.0.0.1:43333");
    let float = serde_json::Number::from_f64(2.3308445025757262e-7).unwrap();
    let params = Json::Number(float);
    assert!(!params.is_free_of_floats());
    let line = client.send_message("m".to_string(), params.clone()).unwrap();
    server.receive_line(&line).unwrap();
    let message = server.get_message("1").unwrap();
    assert_eq!(message.method, "m");
    let neighbour = Json::parse(&params.to_text()).unwrap();
    assert_eq!(message.params.to_text(), neighbour.to_text());
    match Json::parse(&line).unwrap() {
        Json::Object(fields) => {
            let names: Vec<&str> = fields.iter().map(|field| field.0.as_str()).collect();
            assert_eq!(names, ["id", "method", "params"]);
        }
        other => panic!("{:?}", other),
    }
}

#[test]
fn mining_commands_have_their_lines() {
    let mut client = connected();
    assert_eq!(
        client.send_mining_configure().unwrap(),
        "{\"id\":1,\"method\":\"mining.configure\",\"params\":[[\"version-rolling\"],{\"version-rolling.mask\":\"ffffffff\"}]}\n"
    );
    assert_eq!(
        client.send_mining_subscribe().unwrap(),
        "{\"id\":2,\"method\":\"mining.subscribe\",\"params\":[\"bitaxe/BM1368/v2.8.1\"]}\n"
    );
    assert_eq!(
        client.send_mining_authorize().unwrap(),
        "{\"id\":3,\"method\":\"mining.authorize\",\"params\":[\"user\",\"password\"]}\n"
    );
    assert_eq!(
        client.send_mining_suggest_difficulty(u64::MAX).unwrap(),
        "{\"id\":4,\"method\":\"mining.suggest_difficulty\",\"params\":[18446744073709551615]}\n"
    );
}

#[test]
fn a_line_holds_one_newline_at_its_end() {
    let mut client = ClientStub::new("pool.example.com:3333", "line\nbreak");
    client.start(true).unwrap();
    let line = client.send_mining_authorize().unwrap();
    assert_eq!(line.matches('\n').count(), 1);
    assert!(line.ends_with('\n'));
}

fn nested(levels: usize) -> Json {
    let mut json = Json::array(vec![]);
    for _ in 1..levels {
        json = Json::array(vec![json]);
    }
    json
}

#[test]
fn parameters_are_delivered_as_deep_as_the_parser_follows() {
    let mut client = connected();
    let mut server = ServerStub::new("127.0.0.1:43333");
    let line = client.send_message("m".to_string(), nested(126)).unwrap();
    server.receive_line(&line).unwrap();
    assert_eq!(server.get_message("1").unwrap().params.to_text(), nested(126).to_text());
    let line = client.send_message("m".to_string(), nested(127)).unwrap();
    assert!(server.receive_line(&line).is_err());
    assert_eq!(server.get_message_count(), 1);
}
