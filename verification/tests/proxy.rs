use stratumv1_proxy_rs::forward::{ForwardAction, ForwardEvent};
use stratumv1_proxy_rs::hook::Side;
use stratumv1_proxy_rs::proxy::{
    AcceptAction, AcceptEvent, ProxyError, ServeAction, ServeEvent, StopAction, StopEvent,
};
use stratumv1_proxy_rs::session::{Leg, Session, SessionAction, SessionError, SessionEvent};
use stratumv1_proxy_rs::{run_proxy, Direction, Proxy, ProxyConfig};

fn proxy() -> Proxy {
    Proxy::new(ProxyConfig::new("0.0.0.0:3333".to_string(), "pool.example.com:3333".to_string()), 1)
}

const STOP: StopEvent = StopEvent::Requested { wait_for_first_connection: false };
const STOP_LATER: StopEvent = StopEvent::Requested { wait_for_first_connection: true };

#[test]
fn the_environment_or_the_defaults_configure() {
    let config = ProxyConfig::from_env(None, None);
    assert_eq!(config.listen_addr, "0.0.0.0:3333");
    assert_eq!(config.upstream_addr, "127.0.0.1:3334");
    let config = ProxyConfig::from_env(Some("a:1".to_string()), None);
    assert_eq!(config.listen_addr, "a:1");
    assert_eq!(config.upstream_addr, "127.0.0.1:3334");
    let config = ProxyConfig::from_env(None, Some("b:2".to_string())).clone();
    assert_eq!(config.listen_addr, "0.0.0.0:3333");
    assert_eq!(config.upstream_addr, "b:2");
}

#[test]
fn explicit_values_configure() {
    let config = ProxyConfig::new("a:1".to_string(), "b:2".to_string());
    assert_eq!(config.listen_addr, "a:1");
    assert_eq!(config.upstream_addr, "b:2");
}

#[test]
fn a_proxy_starts_once() {
    let mut proxy = proxy();
    assert_eq!(proxy.listen(), Ok("0.0.0.0:3333".to_string()));
    assert_eq!(proxy.start(false), Err(ProxyError::BindFailed));
    assert_eq!(proxy.start(true), Ok(()));
    assert_eq!(proxy.listen(), Err(ProxyError::AlreadyListening));
    assert_eq!(proxy.start(true), Err(ProxyError::AlreadyListening));
    assert_eq!(proxy.start(false), Err(ProxyError::AlreadyListening));
}

#[test]
fn a_stopped_proxy_can_be_started_again() {
    let mut proxy = proxy();
    proxy.start(true).unwrap();
    assert_eq!(proxy.stop(STOP), StopAction::Notify);
    assert_eq!(proxy.stop(StopEvent::Notified), StopAction::Join);
    assert_eq!(proxy.stop(StopEvent::Joined), StopAction::Finish);
    assert_eq!(proxy.start(true), Ok(()));
}

#[test]
fn a_proxy_that_was_never_started_stops_at_once() {
    let mut proxy = proxy();
    assert_eq!(proxy.stop(STOP), StopAction::Notify);
    assert_eq!(proxy.stop(StopEvent::Notified), StopAction::Finish);
    assert_eq!(proxy.start(true), Ok(()));
}

#[test]
fn a_broken_task_keeps_the_listener() {
    let mut proxy = proxy();
    proxy.start(true).unwrap();
    proxy.stop(STOP);
    assert_eq!(proxy.stop(StopEvent::Notified), StopAction::Join);
    assert_eq!(proxy.stop(StopEvent::JoinFailed), StopAction::Fail(ProxyError::TaskFailed));
    assert_eq!(proxy.start(true), Err(ProxyError::AlreadyListening));
    assert_eq!(proxy.stop(StopEvent::Notified), StopAction::Finish);
}

#[test]
fn stopping_to_listen_twice_is_stopping_once() {
    let mut proxy = proxy();
    assert_eq!(proxy.unlisten(), Ok(()));
    assert_eq!(proxy.listen(), Ok("0.0.0.0:3333".to_string()));
    proxy.start(true).unwrap();
    assert_eq!(proxy.listen(), Err(ProxyError::AlreadyListening));
    assert_eq!(proxy.unlisten(), Ok(()));
    assert_eq!(proxy.unlisten(), Ok(()));
    assert_eq!(proxy.listen(), Ok("0.0.0.0:3333".to_string()));
}

#[test]
fn a_joined_proxy_has_stopped() {
    let mut proxy = proxy();
    proxy.start(true).unwrap();
    assert_eq!(proxy.stop(StopEvent::Joined), StopAction::Finish);
    assert_eq!(proxy.stop(StopEvent::Joined), StopAction::Finish);
    assert_eq!(proxy.stop(StopEvent::Notified), StopAction::Finish);
    assert_eq!(proxy.start(true), Ok(()));
}

#[test]
fn stopping_may_wait_for_the_first_connection() {
    let mut proxy = proxy();
    proxy.start(true).unwrap();
    assert_eq!(proxy.stop(STOP_LATER), StopAction::Wait);
    assert_eq!(proxy.run_background(AcceptEvent::Accepted), AcceptAction::SpawnAndAccept);
    assert_eq!(proxy.stop(STOP_LATER), StopAction::Notify);
}

#[test]
fn the_background_task_accepts_until_it_is_told_to_stop() {
    let mut proxy = proxy();
    assert_eq!(
        proxy.run_background(AcceptEvent::Ready),
        AcceptAction::Finish(Err(ProxyError::NotListening))
    );
    proxy.start(true).unwrap();
    assert_eq!(proxy.run_background(AcceptEvent::Ready), AcceptAction::Accept);
    assert_eq!(proxy.run_background(AcceptEvent::AcceptFailed), AcceptAction::Accept);
    assert_eq!(proxy.get_connect_count(), 0);
    assert_eq!(proxy.run_background(AcceptEvent::Accepted), AcceptAction::SpawnAndAccept);
    assert_eq!(proxy.run_background(AcceptEvent::Ready), AcceptAction::Accept);
    assert_eq!(proxy.run_background(AcceptEvent::Accepted), AcceptAction::SpawnAndAccept);
    assert_eq!(proxy.get_connect_count(), 2);
    assert_eq!(proxy.run_background(AcceptEvent::StopSignal), AcceptAction::Finish(Ok(())));
    assert_eq!(proxy.get_connect_count(), 2);
}

#[test]
fn proxy_errors_tell_what_happened() {
    assert_eq!(ProxyError::AlreadyListening.context(), Some("Already listening!"));
    assert_eq!(ProxyError::BindFailed.context(), Some("Failed to bind to listen address"));
    assert_eq!(ProxyError::NotListening.context(), Some("Not listening!"));
    assert_eq!(ProxyError::TaskFailed.context(), None);
    assert_eq!(SessionError::ConnectFailed.context(), Some("Failed to connect to upstream server"));
    assert_eq!(SessionError::PeerUnknown.context(), None);
}

#[test]
fn the_proxy_serves_clients_side_by_side() {
    assert_eq!(run_proxy(ServeEvent::Bound), ServeAction::Accept);
    assert_eq!(run_proxy(ServeEvent::BindFailed), ServeAction::Fail(ProxyError::BindFailed));
    assert_eq!(run_proxy(ServeEvent::Accepted), ServeAction::SpawnAndAccept);
    assert_eq!(run_proxy(ServeEvent::AcceptFailed), ServeAction::Accept);
}

fn peer() -> SessionEvent {
    SessionEvent::PeerKnown("127.0.0.1:54321".to_string())
}

#[test]
fn a_session_connects_and_relays_until_a_direction_ends() {
    let mut session = proxy().session();
    match session.handle_client(peer()) {
        Some(SessionAction::Connect(addr)) => assert_eq!(addr, "pool.example.com:3333"),
        _ => panic!("no connection"),
    }
    let ended = || SessionEvent::Ended { direction: Direction::UpstreamToClient, broken: false };
    assert!(session.handle_client(ended()).is_none());
    assert!(matches!(
        session.handle_client(SessionEvent::Connected),
        Some(SessionAction::Relay { .. })
    ));
    assert!(matches!(
        session.handle_client(ended()),
        Some(SessionAction::Close { broken: None, result: Ok(()) })
    ));
    assert!(session.handle_client(ended()).is_none());
}

#[test]
fn a_broken_direction_is_reported() {
    let mut session = Session::new("up:1", 2);
    session.handle_client(peer());
    session.handle_client(SessionEvent::Connected);
    let ended = SessionEvent::Ended { direction: Direction::ClientToUpstream, broken: true };
    assert!(matches!(
        session.handle_client(ended),
        Some(SessionAction::Close { broken: Some(Direction::ClientToUpstream), result: Ok(()) })
    ));
}

#[test]
fn a_session_that_cannot_be_served_is_refused() {
    let mut session = Session::new("up:1", 2);
    assert!(matches!(
        session.handle_client(SessionEvent::PeerUnknown),
        Some(SessionAction::Close { broken: None, result: Err(SessionError::PeerUnknown) })
    ));
    let mut session = Session::new("up:1", 2);
    session.handle_client(peer());
    assert!(matches!(
        session.handle_client(SessionEvent::ConnectFailed),
        Some(SessionAction::Close { broken: None, result: Err(SessionError::ConnectFailed) })
    ));
}

/// Lets a leg take a command; tells which hooks it calls, and how.
fn calls(mut leg: Leg) -> Vec<(usize, &'static str, String)> {
    let mut made = Vec::new();
    let mut event =
        ForwardEvent::Line("{\"id\":1,\"method\":\"m\",\"params\":[]}\n".to_string());
    while let Some(ForwardAction::ProcessCommand { hook, direction, client_addr, .. }) =
        leg.forwarder.step(event)
    {
        made.push((hook, direction.label(), client_addr));
        event = ForwardEvent::Processed(Ok(None));
    }
    made
}

#[test]
fn each_side_gets_what_the_other_sends() {
    let mut session = Session::new("up:1", 2);
    session.handle_client(peer());
    match session.handle_client(SessionEvent::Connected) {
        Some(SessionAction::Relay { to_upstream, to_client }) => {
            assert_eq!((to_upstream.source, to_upstream.destination), (Side::Client, Side::Upstream));
            assert_eq!((to_client.source, to_client.destination), (Side::Upstream, Side::Client));
            let addr = "127.0.0.1:54321".to_string();
            assert_eq!(
                calls(to_upstream),
                [(0, "Client->Upstream", addr.clone()), (1, "Client->Upstream", addr.clone())]
            );
            assert_eq!(
                calls(to_client),
                [(0, "Upstream->Client", addr.clone()), (1, "Upstream->Client", addr)]
            );
        }
        _ => panic!("nothing to relay"),
    }
}

#[test]
fn the_sessions_of_a_proxy_have_its_hooks() {
    let mut session = proxy().session();
    session.handle_client(peer());
    match session.handle_client(SessionEvent::Connected) {
        Some(SessionAction::Relay { to_upstream, to_client }) => {
            assert_eq!(calls(to_upstream).len(), 1);
            assert_eq!(calls(to_client).len(), 1);
        }
        _ => panic!("nothing to relay"),
    }
}
