use bore_cli::client::{
    connect_error, Client, ControlAction, ControlEvent, RelayAction, RelayEvent, Setup,
    SetupAction, SetupError, SetupEvent,
};
use bore_cli::shared::{ClientMessage, ServerMessage, CONTROL_PORT};

fn waiting(secret: Option<&str>) -> Setup {
    let (mut setup, action) = Client::new("host", 80, "server", 7000, secret, Some("0.0.0.0"));
    assert!(
        matches!(&action, SetupAction::Connect { host, port } if host == "server" && *port == CONTROL_PORT)
    );
    let mut action = setup.step(SetupEvent::Connected);
    if let Some(secret) = secret {
        assert!(matches!(&action, SetupAction::Authenticate(s) if s == secret));
        action = setup.step(SetupEvent::Authenticated);
    }
    assert!(matches!(
        &action,
        SetupAction::Send(ClientMessage::Hello(Some(ip), 7000)) if ip == "0.0.0.0"
    ));
    assert!(matches!(setup.step(SetupEvent::Sent), SetupAction::Receive));
    setup
}

fn client(secret: Option<&str>) -> Client {
    match waiting(secret).step(SetupEvent::Received(Some(ServerMessage::Hello(7001)))) {
        SetupAction::Ready(client) => client,
        _ => panic!("no client"),
    }
}

fn refusal(reply: Option<ServerMessage>) -> SetupError {
    match waiting(None).step(SetupEvent::Received(reply)) {
        SetupAction::Refuse(error) => error,
        _ => panic!("no refusal"),
    }
}

#[test]
fn a_client_has_the_port_of_the_reply() {
    assert_eq!(client(None).remote_port(), 7001);
    assert_eq!(client(Some("s")).remote_port(), 7001);
}

#[test]
fn a_request_without_an_address() {
    let (mut setup, _) = Client::new("host", 80, "server", 0, None, None);
    assert!(matches!(
        setup.step(SetupEvent::Connected),
        SetupAction::Send(ClientMessage::Hello(None, 0))
    ));
}

#[test]
fn an_error_of_the_server_is_told() {
    let e = refusal(Some(ServerMessage::Error("no".to_string())));
    assert!(matches!(&e, SetupError::ServerError(m) if m == "no"));
    assert_eq!(e.message(), "server error: no");
}

#[test]
fn a_challenge_wants_a_secret() {
    let e = refusal(Some(ServerMessage::Challenge(5)));
    assert!(matches!(e, SetupError::SecretRequired));
    assert_eq!(e.message(), "server requires authentication, but no client secret was provided");
}

#[test]
fn other_replies_are_refused() {
    for reply in [ServerMessage::Heartbeat, ServerMessage::Connection(1)] {
        let e = refusal(Some(reply));
        assert!(matches!(e, SetupError::UnexpectedMessage));
        assert_eq!(e.message(), "unexpected initial non-hello message");
    }
    let e = refusal(None);
    assert!(matches!(e, SetupError::UnexpectedEof));
    assert_eq!(e.message(), "unexpected EOF");
}

#[test]
fn a_failure_ends_a_setup() {
    let (mut setup, _) = Client::new("h", 1, "t", 0, Some("s"), None);
    assert!(!setup.awaits(&SetupEvent::Sent));
    assert!(setup.awaits(&SetupEvent::Failed));
    assert!(matches!(setup.step(SetupEvent::Failed), SetupAction::Abort));
    assert!(!setup.awaits(&SetupEvent::Failed));
    assert!(!setup.awaits(&SetupEvent::Connected));
}

#[test]
fn a_secret_is_shown_before_anything_is_asked() {
    let (mut setup, _) = Client::new("h", 1, "t", 0, Some("s"), None);
    assert!(matches!(setup.step(SetupEvent::Connected), SetupAction::Authenticate(_)));
    assert!(!setup.awaits(&SetupEvent::Received(None)));
    assert!(matches!(setup.step(SetupEvent::Failed), SetupAction::Abort));
}

#[test]
fn control_messages() {
    let on = |message| Client::listen(ControlEvent::Received(Some(message)));
    assert!(matches!(on(ServerMessage::Hello(1)), ControlAction::WarnHello));
    assert!(matches!(on(ServerMessage::Challenge(1)), ControlAction::WarnChallenge));
    assert!(matches!(on(ServerMessage::Heartbeat), ControlAction::Ignore));
    assert!(matches!(on(ServerMessage::Connection(9)), ControlAction::Forward(9)));
    assert!(matches!(
        on(ServerMessage::Error("bad".to_string())),
        ControlAction::ReportError(m) if m == "bad"
    ));
    assert!(matches!(Client::listen(ControlEvent::Received(None)), ControlAction::Exit(1)));
    assert!(matches!(Client::listen(ControlEvent::Failed), ControlAction::Abort));
}

#[test]
fn a_relay_goes_from_the_server_to_the_local_host() {
    for secret in [None, Some("s")] {
        let client = client(secret);
        let (mut relay, action) = client.handle_connection(77);
        assert!(
            matches!(&action, RelayAction::ConnectRemote { host, port } if host == "server" && *port == CONTROL_PORT)
        );
        let mut action = relay.step(&client, RelayEvent::Connected);
        if secret.is_some() {
            assert!(matches!(&action, RelayAction::Authenticate(s) if s == "s"));
            action = relay.step(&client, RelayEvent::Authenticated);
        }
        assert!(matches!(action, RelayAction::Send(ClientMessage::Accept(77))));
        let action = relay.step(&client, RelayEvent::Sent);
        assert!(
            matches!(&action, RelayAction::ConnectLocal { host, port } if host == "host" && *port == 80)
        );
        assert!(matches!(relay.step(&client, RelayEvent::Connected), RelayAction::Flush));
        assert!(matches!(relay.step(&client, RelayEvent::Flushed), RelayAction::Proxy));
        assert!(!relay.awaits(RelayEvent::Sent));
        assert!(matches!(relay.step(&client, RelayEvent::Proxied), RelayAction::Finish));
        assert!(!relay.awaits(RelayEvent::Failed));
    }
}

#[test]
fn a_failure_ends_a_relay() {
    let client = client(None);
    let (mut relay, _) = client.handle_connection(1);
    relay.step(&client, RelayEvent::Connected);
    assert!(relay.awaits(RelayEvent::Failed));
    assert!(matches!(relay.step(&client, RelayEvent::Failed), RelayAction::Abort));
}

#[test]
fn the_error_of_a_connection_names_its_end() {
    assert_eq!(connect_error("example.org", 7835), "could not connect to example.org:7835");
}
