use bore_cli::client::{
    Client, ControlAction, ControlEvent, RelayAction, RelayEvent, SetupAction, SetupEvent,
};
use bore_cli::server::{BindFailure, Server};
use bore_cli::session::{Ending, Session, SessionAction, SessionEvent};
use bore_cli::shared::ServerMessage;

/// Asks the server for a port and hands back how the client ends, with the session
/// of the server. The server binds what it likes, or fails with `failure`.
fn negotiate(
    server: &mut Server,
    port: u16,
    bind_ip: Option<&str>,
    failure: Option<BindFailure>,
) -> (SetupAction, Session) {
    let secret = server.secret();
    let (mut setup, _) = Client::new("web", 80, "server", port, secret.as_deref(), bind_ip);
    let (mut session, _) = server.handle_connection();
    let mut action = setup.step(SetupEvent::Connected);
    if secret.is_some() {
        action = setup.step(SetupEvent::Authenticated);
        (session, _) = session.step(server, SessionEvent::Authenticated);
    }
    let message = match action {
        SetupAction::Send(message) => message,
        _ => panic!("nothing is asked"),
    };
    setup.step(SetupEvent::Sent);
    let (mut session, mut answer) = session.step(server, SessionEvent::Received(Some(message)));
    loop {
        match answer {
            SessionAction::Bind { port, .. } => {
                let event = match failure {
                    Some(failure) => SessionEvent::BindFailed(failure),
                    None => SessionEvent::Bound(port),
                };
                (session, answer) = session.step(server, event);
            }
            SessionAction::Send(reply) => {
                return (setup.step(SetupEvent::Received(Some(reply))), session);
            }
            _ => panic!("no answer"),
        }
    }
}

fn ready(action: SetupAction) -> Client {
    match action {
        SetupAction::Ready(client) => client,
        _ => panic!("no client"),
    }
}

fn refused(action: SetupAction) -> String {
    match action {
        SetupAction::Refuse(error) => error.message(),
        _ => panic!("not refused"),
    }
}

#[test]
fn a_client_has_the_port_that_the_server_opened() {
    for secret in [None, Some("s")] {
        let mut server = Server::new(None, 4000..=4003, secret);
        assert_eq!(ready(negotiate(&mut server, 4002, None, None).0).remote_port(), 4002);
        let any = ready(negotiate(&mut server, 0, Some("::"), None).0).remote_port();
        assert!((4000..=4003).contains(&any));
    }
}

#[test]
fn a_client_is_told_why_it_has_no_port() {
    let mut server = Server::new(None, 4000..=4003, Some("s"));
    assert_eq!(
        refused(negotiate(&mut server, 4004, None, None).0),
        "server error: client port number not in allowed range"
    );
    assert_eq!(
        refused(negotiate(&mut server, 4000, None, Some(BindFailure::AddrInUse)).0),
        "server error: port already in use"
    );
    assert_eq!(
        refused(negotiate(&mut server, 0, None, Some(BindFailure::AddrInUse)).0),
        "server error: failed to find an available port"
    );
}

#[test]
fn a_connection_reaches_the_client_by_its_name() {
    let mut server = Server::new(None, 4000..=4003, Some("s"));
    server.park(1, 100);
    let (action, session) = negotiate(&mut server, 4001, None, None);
    let client = ready(action);
    let (session, _) = session.step(&mut server, SessionEvent::Sent);
    let (session, _) = session.step(&mut server, SessionEvent::Sent);
    let (session, _) = session.step(&mut server, SessionEvent::Accepted(55));
    let (_, action) = session.step(&mut server, SessionEvent::Scheduled);
    let message = match action {
        SessionAction::Send(message) => message,
        _ => panic!("not announced"),
    };
    let id = match Client::listen(ControlEvent::Received(Some(message))) {
        ControlAction::Forward(id) => id,
        _ => panic!("not taken over"),
    };
    let (mut relay, _) = client.handle_connection(id);
    relay.step(&client, RelayEvent::Connected);
    let message = match relay.step(&client, RelayEvent::Authenticated) {
        RelayAction::Send(message) => message,
        _ => panic!("not asked for"),
    };
    let (session, _) = server.handle_connection();
    let (session, _) = session.step(&mut server, SessionEvent::Authenticated);
    let (session, action) = session.step(&mut server, SessionEvent::Received(Some(message)));
    assert!(matches!(action, SessionAction::Flush(55)));
    assert!(!session.awaits(&SessionEvent::Received(None)));
    assert_eq!(server.claim(id), None);
    assert_eq!(server.claim(1), Some(100));
}

#[test]
fn one_message_is_read_from_a_control_connection() {
    let mut server = Server::new(None, 4000..=4003, None);
    let (_, mut session) = negotiate(&mut server, 4001, None, None);
    let mut action = SessionAction::Send(ServerMessage::Heartbeat);
    for _ in 0..20 {
        assert!(!session.awaits(&SessionEvent::Received(None)));
        let event = match action {
            SessionAction::Send(_) => SessionEvent::Sent,
            SessionAction::Accept { .. } => SessionEvent::Accepted(3),
            SessionAction::Schedule { .. } => SessionEvent::Scheduled,
            _ => panic!("unexpected action"),
        };
        (session, action) = session.step(&mut server, event);
    }
    while !matches!(action, SessionAction::Send(ServerMessage::Heartbeat)) {
        let event = match action {
            SessionAction::Send(_) => SessionEvent::Sent,
            SessionAction::Accept { .. } => SessionEvent::TimedOut,
            _ => SessionEvent::Scheduled,
        };
        (session, action) = session.step(&mut server, event);
    }
    let (session, action) = session.step(&mut server, SessionEvent::Failed);
    assert!(matches!(action, SessionAction::Finish(Ending::Disconnected)));
    assert!(!session.awaits(&SessionEvent::Failed));
}
