use bore_cli_poc::client::{client_step, ClientAction, ClientPhase};
use bore_cli_poc::protocol::{ClientMessage, ServerMessage};
use bore_cli_poc::registry::Registry;
use bore_cli_poc::server::Server;
use bore_cli_poc::session::{Action, Event};

#[test]
fn unknown_offer_takes_nothing() {
    let mut server = Server::new(1024);
    assert!(!server.is_pending(99));
    assert!(server.take(99).is_none());
    assert!(!server.expire(99));
    assert!(!server.is_pending(99));
}

#[test]
fn double_accept_forwards_same_id() {
    let mut server = Server::new(1024);
    let mut first = server.session();
    let mut second = server.session();
    let a1 = first.step(Event::Received(Some(ClientMessage::Accept(5))));
    let a2 = second.step(Event::Received(Some(ClientMessage::Accept(5))));
    let (Action::Forward(i1), Action::Forward(i2)) = (a1, a2) else { panic!("expected forwards") };
    assert_eq!(i1, 5);
    assert_eq!(i2, 5);
    assert!(first.is_closed() && second.is_closed());
    assert!(server.take(i1).is_none());
    assert!(!server.is_pending(5));
}

#[test]
fn offer_reaches_client_and_back() {
    let server = Server::new(1024);
    let mut control = server.session();
    control.step(Event::Received(Some(ClientMessage::Hello(0))));
    control.step(Event::Bound(50000));
    control.step(Event::SendOk);
    assert!(matches!(control.step(Event::SendOk), Action::Poll));
    let offer = match control.step(Event::Incoming(77)) {
        Action::Send(m @ ServerMessage::Connection(_)) => m,
        _ => panic!("expected an offer"),
    };
    let (_, action) = client_step(ClientPhase::Running, Some(offer));
    let id = match action {
        ClientAction::Spawn(id) => id,
        _ => panic!("expected a data task"),
    };
    assert_eq!(id, 77);
    let mut data = server.session();
    assert!(matches!(data.step(Event::Received(Some(ClientMessage::Accept(id)))), Action::Forward(77)));
}

#[test]
fn ended_control_session_stops_offers() {
    let server = Server::new(1024);
    let mut control = server.session();
    control.step(Event::Received(Some(ClientMessage::Hello(0))));
    control.step(Event::Bound(50001));
    assert!(matches!(control.step(Event::SendFailed), Action::Close));
    assert!(matches!(control.step(Event::Incoming(3)), Action::Close));
    let mut data = server.session();
    assert!(matches!(data.step(Event::Received(Some(ClientMessage::Accept(3)))), Action::Forward(3)));
}

#[test]
fn new_registry_is_empty() {
    let mut r = Registry::new();
    assert!(!r.contains(3));
    assert!(r.take(3).is_none());
    assert!(!r.expire(3));
}
