use bore_cli_poc::protocol::{ClientMessage, ServerMessage};
use bore_cli_poc::server::{Server, DEFAULT_MIN_PORT};
use bore_cli_poc::session::{Action, ControlSession, Event, Phase};

fn is_error(a: &Action, text: &str) -> bool {
    matches!(a, Action::Send(ServerMessage::Error(t)) if t == text)
}

#[test]
fn port_zero_gets_os_port() {
    let server = Server::new(1024);
    let mut s = server.session();
    let a = s.step(Event::Received(Some(ClientMessage::Hello(0))));
    assert!(matches!(a, Action::Bind(0)));
    let a = s.step(Event::Bound(49152));
    assert!(matches!(a, Action::Send(ServerMessage::Hello(49152))));
    assert!(s.phase == Phase::Sending { port: 49152, probe: false });
}

#[test]
fn port_too_low_is_refused_without_bind() {
    let mut s = ControlSession::new(1024);
    let a = s.step(Event::Received(Some(ClientMessage::Hello(80))));
    assert!(is_error(&a, "port out of range"));
    assert!(s.phase == Phase::Closing);
    let a = s.step(Event::SendOk);
    assert!(matches!(a, Action::Close));
    assert!(s.is_closed());
    let a = s.step(Event::Bound(80));
    assert!(matches!(a, Action::Close));
}

#[test]
fn requested_port_at_minimum_is_bound() {
    let mut s = ControlSession::new(1024);
    assert!(matches!(s.step(Event::Received(Some(ClientMessage::Hello(1024)))), Action::Bind(1024)));
}

#[test]
fn requested_port_with_zero_minimum() {
    let mut s = ControlSession::new(0);
    assert!(matches!(s.step(Event::Received(Some(ClientMessage::Hello(1)))), Action::Bind(1)));
}

#[test]
fn bind_failure_reports_port_in_use() {
    let mut s = ControlSession::new(1024);
    s.step(Event::Received(Some(ClientMessage::Hello(2000))));
    let a = s.step(Event::BindFailed);
    assert!(is_error(&a, "port already in use"));
    assert!(matches!(s.step(Event::SendFailed), Action::Close));
}

#[test]
fn running_session_alternates_heartbeats_and_offers() {
    let mut s = ControlSession::new(1024);
    s.step(Event::Received(Some(ClientMessage::Hello(3000))));
    assert!(matches!(s.step(Event::Bound(3000)), Action::Send(ServerMessage::Hello(3000))));
    assert!(matches!(s.step(Event::SendOk), Action::Send(ServerMessage::HeartBeat)));
    assert!(matches!(s.step(Event::SendOk), Action::Poll));
    assert!(matches!(s.step(Event::PollTimeout), Action::Send(ServerMessage::HeartBeat)));
    assert!(matches!(s.step(Event::SendOk), Action::Poll));
    assert!(matches!(s.step(Event::Incoming(7)), Action::Send(ServerMessage::Connection(7))));
    assert!(matches!(s.step(Event::SendOk), Action::Send(ServerMessage::HeartBeat)));
    assert!(matches!(s.step(Event::SendFailed), Action::Close));
    assert!(s.is_closed());
}

#[test]
fn accept_forwards_and_ends_session() {
    let mut s = ControlSession::new(1024);
    assert!(matches!(s.step(Event::Received(Some(ClientMessage::Accept(42)))), Action::Forward(42)));
    assert!(s.is_closed());
}

#[test]
fn eof_before_hello_closes() {
    let mut s = ControlSession::new(1024);
    assert!(matches!(s.step(Event::Received(None)), Action::Close));
    assert!(s.is_closed());
}

#[test]
fn unexpected_event_closes() {
    let mut s = ControlSession::new(1024);
    assert!(matches!(s.step(Event::PollTimeout), Action::Close));
}

#[test]
fn default_server_min_port() {
    let server = Server::default();
    assert_eq!(server.min_port, DEFAULT_MIN_PORT);
    assert_eq!(server.min_port, 1024);
    assert!(!server.is_pending(1));
}
