use stratumv1_proxy_rs::message::MessageError;
use stratumv1_proxy_rs::server::{ReceiveError, ServerStub};
use stratumv1_proxy_rs::ClientStub;

#[test]
fn test_client_stub_connect_only() {
    let server_addr = "127.0.0.1:43333";
    let mut server = ServerStub::new(server_addr);

    let mut client = ClientStub::new(server_addr, "username.device");
    assert_eq!(client.server_addr(), "127.0.0.1:43333");
    client.start(true).unwrap();
    server.accept();
    assert!(client.stop());

    assert_eq!(server.get_connect_count(), 1);
    assert_eq!(server.get_message_count(), 0);
}

#[test]
fn test_client_stub_mining_init() {
    let server_addr = "127.0.0.1:43333";
    let mut server = ServerStub::new(server_addr);

    let mut client = ClientStub::new(server_addr, "username.device");
    client.start(true).unwrap();
    server.accept();
    server.receive_line(&client.send_mining_configure().unwrap()).unwrap();
    server.receive_line(&client.send_mining_subscribe().unwrap()).unwrap();
    server.receive_line(&client.send_mining_authorize().unwrap()).unwrap();
    server.receive_line(&client.send_mining_suggest_difficulty(1000).unwrap()).unwrap();
    assert!(client.stop());

    // Now check what did the stub receive
    assert_eq!(server.get_connect_count(), 1);
    assert_eq!(server.get_message_count(), 4);
    let msg1 = server.get_message("1").unwrap();
    assert_eq!(msg1.method, "mining.configure");
    let msg2 = server.get_message("2").unwrap();
    assert_eq!(msg2.method, "mining.subscribe");
    let msg3 = server.get_message("3").unwrap();
    assert_eq!(msg3.method, "mining.authorize");
    let msg4 = server.get_message("4").unwrap();
    assert_eq!(msg4.method, "mining.suggest_difficulty");
}

#[test]
fn the_server_keeps_the_parameters() {
    let mut server = ServerStub::new("127.0.0.1:43333");
    let mut client = ClientStub::new("127.0.0.1:43333", "username.device");
    client.start(true).unwrap();
    server.receive_line(&client.send_mining_configure().unwrap()).unwrap();
    server.receive_line(&client.send_mining_subscribe().unwrap()).unwrap();
    server.receive_line(&client.send_mining_authorize().unwrap()).unwrap();
    server.receive_line(&client.send_mining_suggest_difficulty(1000).unwrap()).unwrap();
    assert_eq!(
        server.get_message("1").unwrap().params.to_text(),
        r#"[["version-rolling"],{"version-rolling.mask":"ffffffff"}]"#
    );
    assert_eq!(server.get_message("2").unwrap().params.to_text(), r#"["bitaxe/BM1368/v2.8.1"]"#);
    assert_eq!(server.get_message("3").unwrap().params.to_text(), r#"["username.device","password"]"#);
    assert_eq!(server.get_message("4").unwrap().params.to_text(), "[1000]");
    assert!(server.get_message("5").is_none());
    assert!(server.get_message("\"1\"").is_none());
}

#[test]
fn a_server_keeps_only_messages() {
    let mut server = ServerStub::new("127.0.0.1:43333");
    assert!(matches!(server.receive_line("nonsense\n"), Err(ReceiveError::NotJson)));
    assert!(matches!(
        server.receive_line("{\"id\":1,\"result\":true,\"error\":null}\n"),
        Err(ReceiveError::NotAMessage(MessageError::MissingMethod(_)))
    ));
    assert_eq!(server.get_message_count(), 0);
    assert_eq!(server.get_connect_count(), 0);
}

#[test]
fn a_message_replaces_one_of_its_id() {
    let mut server = ServerStub::new("127.0.0.1:43333");
    server.receive_line(r#"{"id":1,"method":"a","params":[]}"#).unwrap();
    server.receive_line(r#"{"id":2,"method":"b","params":[]}"#).unwrap();
    server.receive_line(r#"{"id":1,"method":"c","params":[]}"#).unwrap();
    server.receive_line(r#"{"id":"1","method":"d","params":[]}"#).unwrap();
    assert_eq!(server.get_message_count(), 3);
    assert_eq!(server.get_message("1").unwrap().method, "c");
    assert_eq!(server.get_message("2").unwrap().method, "b");
    assert_eq!(server.get_message("\"1\"").unwrap().method, "d");
}
