use bore_cli::server::{BindFailure, ListenAction, ListenEvent, ListenerError, Server, BIND_ATTEMPTS};
use bore_cli::session::{Ending, Session, SessionAction, SessionEvent};
use bore_cli::shared::{ClientMessage, ServerMessage, CONTROL_PORT};

fn hearing(server: &mut Server) -> Session {
    let (session, action) = server.handle_connection();
    match action {
        SessionAction::Receive => session,
        SessionAction::Authenticate(_) => {
            let (session, action) = session.step(server, SessionEvent::Authenticated);
            assert!(matches!(action, SessionAction::Receive));
            session
        }
        _ => panic!("unexpected start"),
    }
}

fn first(server: &mut Server, message: Option<ClientMessage>) -> (Session, SessionAction) {
    hearing(server).step(server, SessionEvent::Received(message))
}

fn hello(server: &mut Server, ip: Option<&str>, port: u16) -> (Session, SessionAction) {
    first(server, Some(ClientMessage::Hello(ip.map(|s| s.to_string()), port)))
}

fn error_text(action: &SessionAction) -> String {
    match action {
        SessionAction::Send(ServerMessage::Error(text)) => text.clone(),
        _ => panic!("no error"),
    }
}

fn accepting(server: &mut Server) -> Session {
    let (session, _) = hello(server, None, 2000);
    let (session, action) = session.step(server, SessionEvent::Bound(2000));
    assert!(matches!(action, SessionAction::Send(ServerMessage::Hello(2000))));
    let (session, action) = session.step(server, SessionEvent::Sent);
    assert!(matches!(action, SessionAction::Send(ServerMessage::Heartbeat)));
    let (session, action) = session.step(server, SessionEvent::Sent);
    assert!(matches!(action, SessionAction::Accept { timeout_ms: 500 }));
    session
}

#[test]
fn the_control_port_is_open_on_every_address() {
    assert_eq!(
        Server::listen(ListenEvent::Start),
        ListenAction::Bind { ip: 0, port: CONTROL_PORT }
    );
    assert_eq!(Server::listen(ListenEvent::Bound), ListenAction::Accept);
    assert_eq!(Server::listen(ListenEvent::Accepted), ListenAction::Serve);
    assert_eq!(Server::listen(ListenEvent::Failed), ListenAction::Abort);
}

#[test]
fn a_named_port_is_bound_at_the_address_of_the_server() {
    let mut server = Server::new(None, 1024..=65535, None);
    let (_, action) = hello(&mut server, None, 8080);
    assert!(matches!(&action, SessionAction::Bind { host, port: 8080 } if host == "127.0.0.1"));
    let mut server = Server::new(Some("10.0.0.1"), 1024..=65535, None);
    let (_, action) = hello(&mut server, None, 65535);
    assert!(matches!(&action, SessionAction::Bind { host, port: 65535 } if host == "10.0.0.1"));
}

#[test]
fn a_named_port_is_bound_at_the_address_of_the_client() {
    let mut server = Server::new(Some("10.0.0.1"), 1024..=65535, None);
    let (_, action) = hello(&mut server, Some("0.0.0.0"), 1024);
    assert!(matches!(&action, SessionAction::Bind { host, port: 1024 } if host == "0.0.0.0"));
}

#[test]
fn a_port_out_of_range_is_refused() {
    let mut server = Server::new(None, 1024..=2000, None);
    for port in [1, 1023, 2001, 65535] {
        let (session, action) = hello(&mut server, None, port);
        assert_eq!(error_text(&action), "client port number not in allowed range");
        let (session, action) = session.step(&mut server, SessionEvent::Sent);
        assert!(matches!(action, SessionAction::Finish(Ending::Refused)));
        assert!(!session.awaits(&SessionEvent::Sent));
    }
}

#[test]
fn a_named_port_is_tried_once() {
    let mut server = Server::new(None, 1024..=65535, None);
    for (failure, text) in [
        (BindFailure::AddrInUse, "port already in use"),
        (BindFailure::PermissionDenied, "permission denied"),
        (BindFailure::Other, "failed to bind to port"),
    ] {
        let (session, _) = hello(&mut server, None, 8080);
        let (_, action) = session.step(&mut server, SessionEvent::BindFailed(failure));
        assert_eq!(error_text(&action), text);
        assert_eq!(ListenerError::Bind(failure).message(), text);
    }
}

#[test]
fn any_port_is_a_random_one_of_the_range() {
    let mut server = Server::new(None, 5000..=5000, None);
    let (_, action) = hello(&mut server, None, 0);
    assert!(matches!(action, SessionAction::Bind { port: 5000, .. }));
    let server = Server::new(None, 2000..=2009, None);
    let mut seen = [false; 10];
    for _ in 0..2000 {
        let port = server.draw_port();
        assert!((2000..=2009).contains(&port));
        seen[port as usize - 2000] = true;
    }
    assert!(seen.iter().all(|s| *s));
    let server = Server::new(None, 0..=65535, None);
    assert!((0..100).any(|_| server.draw_port() > 255));
}

#[test]
fn random_ports_are_tried_to_the_last() {
    let mut server = Server::new(None, 3000..=3009, None);
    let (mut session, mut action) = hello(&mut server, Some("1.1.1.1"), 0);
    let mut binds = 0;
    while let SessionAction::Bind { host, port } = &action {
        assert_eq!(host, "1.1.1.1");
        assert!((3000..=3009).contains(port));
        binds += 1;
        (session, action) =
            session.step(&mut server, SessionEvent::BindFailed(BindFailure::PermissionDenied));
    }
    assert_eq!(binds, 150);
    assert_eq!(binds, BIND_ATTEMPTS as i32);
    assert_eq!(error_text(&action), "failed to find an available port");
    assert!(session.awaits(&SessionEvent::Sent));
}

#[test]
fn a_given_draw_is_bound() {
    let mut server = Server::new(None, 3000..=3009, None);
    let session = hearing(&mut server);
    let message = SessionEvent::Received(Some(ClientMessage::Hello(None, 0)));
    let (session, action) = session.step_with(&mut server, message, 3004, 0);
    assert!(matches!(action, SessionAction::Bind { port: 3004, .. }));
    let (session, action) =
        session.step_with(&mut server, SessionEvent::BindFailed(BindFailure::AddrInUse), 3007, 0);
    assert!(matches!(action, SessionAction::Bind { port: 3007, .. }));
    let (_, action) = session.step_with(&mut server, SessionEvent::Bound(3007), 0, 0);
    assert!(matches!(action, SessionAction::Send(ServerMessage::Hello(3007))));
}

#[test]
fn a_failed_handshake_is_answered_with_its_error() {
    let mut server = Server::new(None, 1..=2, Some("secret"));
    let (session, action) = server.handle_connection();
    assert!(matches!(&action, SessionAction::Authenticate(s) if s == "secret"));
    assert!(!session.awaits(&SessionEvent::Received(None)));
    assert!(!session.awaits(&SessionEvent::Failed));
    let (session, action) =
        session.step(&mut server, SessionEvent::AuthFailed("invalid secret".to_string()));
    assert_eq!(error_text(&action), "invalid secret");
    assert!(!session.awaits(&SessionEvent::Received(None)));
    let (_, action) = session.step(&mut server, SessionEvent::Sent);
    assert!(matches!(action, SessionAction::Finish(Ending::Refused)));
}

#[test]
fn first_messages_that_ask_for_nothing() {
    let mut server = Server::new(None, 1..=2, Some("secret"));
    let (_, action) = first(&mut server, None);
    assert!(matches!(action, SessionAction::Finish(Ending::Silent)));
    let (_, action) = first(&mut server, Some(ClientMessage::Authenticate("t".to_string())));
    assert!(matches!(action, SessionAction::Finish(Ending::UnexpectedAuthenticate)));
    let (_, action) = first(&mut server, Some(ClientMessage::Accept(4)));
    assert!(matches!(action, SessionAction::Finish(Ending::MissingConnection)));
}

#[test]
fn a_heartbeat_precedes_each_wait() {
    let mut server = Server::new(None, 1024..=65535, None);
    let session = accepting(&mut server);
    let (session, action) = session.step(&mut server, SessionEvent::TimedOut);
    assert!(matches!(action, SessionAction::Send(ServerMessage::Heartbeat)));
    let (session, action) = session.step(&mut server, SessionEvent::Sent);
    assert!(matches!(action, SessionAction::Accept { .. }));
    let (session, _) = session.step(&mut server, SessionEvent::TimedOut);
    let (_, action) = session.step(&mut server, SessionEvent::Failed);
    assert!(matches!(action, SessionAction::Finish(Ending::Disconnected)));
}

#[test]
fn failures_end_a_session() {
    let mut server = Server::new(None, 1024..=65535, None);
    let (_, action) = hearing(&mut server).step(&mut server, SessionEvent::Failed);
    assert!(matches!(action, SessionAction::Abort));
    let (session, _) = hello(&mut server, None, 2000);
    let (_, action) = session.step(&mut server, SessionEvent::Failed);
    assert!(matches!(action, SessionAction::Abort));
    let (_, action) = accepting(&mut server).step(&mut server, SessionEvent::Failed);
    assert!(matches!(action, SessionAction::Abort));
    let (session, _) = accepting(&mut server).step(&mut server, SessionEvent::Accepted(1));
    assert!(!session.awaits(&SessionEvent::Failed));
    let (session, _) = session.step(&mut server, SessionEvent::Scheduled);
    let (_, action) = session.step(&mut server, SessionEvent::Failed);
    assert!(matches!(action, SessionAction::Abort));
}

#[test]
fn a_connection_is_parked_announced_and_served_once() {
    let mut server = Server::new(None, 1024..=65535, Some("s"));
    let (session, action) = accepting(&mut server).step(&mut server, SessionEvent::Accepted(42));
    let id = match action {
        SessionAction::Schedule { id, after_secs: 10, displaced: None } => id,
        _ => panic!("not parked"),
    };
    let (session, action) = session.step(&mut server, SessionEvent::Scheduled);
    assert!(matches!(action, SessionAction::Send(ServerMessage::Connection(i)) if i == id));
    let (_, action) = session.step(&mut server, SessionEvent::Sent);
    assert!(matches!(action, SessionAction::Send(ServerMessage::Heartbeat)));

    let (session, action) = first(&mut server, Some(ClientMessage::Accept(id)));
    assert!(matches!(action, SessionAction::Flush(42)));
    let (session, action) = session.step(&mut server, SessionEvent::Flushed);
    assert!(matches!(action, SessionAction::Proxy(42)));
    let (_, action) = session.step(&mut server, SessionEvent::Proxied);
    assert!(matches!(action, SessionAction::Finish(Ending::Forwarded)));

    let (_, action) = first(&mut server, Some(ClientMessage::Accept(id)));
    assert!(matches!(action, SessionAction::Finish(Ending::MissingConnection)));
    assert_eq!(server.claim(id), None);
}

#[test]
fn connections_are_named_by_random_uuids() {
    let mut server = Server::new(None, 1024..=65535, None);
    let mut ids = Vec::new();
    for ticket in 0..20 {
        let (_, action) =
            accepting(&mut server).step(&mut server, SessionEvent::Accepted(ticket));
        match action {
            SessionAction::Schedule { id, displaced: None, .. } => ids.push(id),
            _ => panic!("not parked"),
        }
    }
    for (ticket, id) in ids.iter().enumerate() {
        let uuid = uuid::Uuid::from_u128(*id);
        assert_eq!(uuid.get_version(), Some(uuid::Version::Random));
        assert_eq!(uuid.get_variant(), uuid::Variant::RFC4122);
        assert!(!ids[ticket + 1..].contains(id));
        assert_eq!(server.claim(*id), Some(ticket as u64));
    }
}

#[test]
fn a_stale_connection_is_removed() {
    let mut server = Server::new(None, 1024..=65535, None);
    assert_eq!(server.park(7, 70), None);
    assert_eq!(server.park(8, 80), None);
    assert_eq!(server.claim(7), Some(70));
    assert_eq!(server.claim(7), None);
    let (_, action) = first(&mut server, Some(ClientMessage::Accept(7)));
    assert!(matches!(action, SessionAction::Finish(Ending::MissingConnection)));
    let (_, action) = first(&mut server, Some(ClientMessage::Accept(8)));
    assert!(matches!(action, SessionAction::Flush(80)));
}

#[test]
fn a_name_that_comes_twice_displaces_the_first() {
    let mut server = Server::new(None, 1024..=65535, None);
    assert_eq!(server.park(7, 70), None);
    assert_eq!(server.park(7, 71), Some(70));
    let session = accepting(&mut server);
    let (_, action) = session.step_with(&mut server, SessionEvent::Accepted(72), 0, 7);
    assert!(matches!(action, SessionAction::Schedule { id: 7, displaced: Some(71), .. }));
    assert_eq!(server.claim(7), Some(72));
}
