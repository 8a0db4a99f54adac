use bore_cli::command::{run, Command, CommandError, Plan, UsageError};
use bore_cli::forward::{Forward, ForwardAction, ForwardEvent, Target};
use bore_cli::session::SessionAction;

fn local(host: &str, local_port: u16, max_port: Option<u16>, port: u16) -> Command {
    Command::Local {
        local_port,
        max_port,
        local_host: host.to_string(),
        to: "server".to_string(),
        port,
        secret: Some("hpc.pub".to_string()),
        bind_ip: None,
    }
}

fn server(min_port: u16, max_port: u16, bind_ip: Option<&str>, secret: Option<&str>) -> Command {
    Command::Server {
        min_port,
        max_port,
        secret: secret.map(|s| s.to_string()),
        bind_ip: bind_ip.map(|s| s.to_string()),
    }
}

fn forward(command: Command) -> (Forward, ForwardAction) {
    assert!(command.countable());
    match run(command) {
        Ok(Plan::Forward(forward, action)) => (forward, action),
        _ => panic!("nothing is forwarded"),
    }
}

fn target(action: ForwardAction) -> Target {
    match action {
        ForwardAction::Connect(target) => target,
        _ => panic!("no client is set up"),
    }
}

fn usage(command: Command) -> UsageError {
    match run(command) {
        Err(CommandError::Usage(error)) => error,
        _ => panic!("no usage error"),
    }
}

#[test]
fn a_single_port() {
    let (mut forward, action) = forward(local("localhost", 3000, None, 65535));
    let t = target(action);
    assert_eq!((t.local_host.as_str(), t.local_port, t.port), ("localhost", 3000, 65535));
    assert_eq!((t.to.as_str(), t.secret.as_deref(), t.bind_ip), ("server", Some("hpc.pub"), None));
    assert!(!forward.overflows(ForwardEvent::Connected));
    assert!(matches!(forward.step(ForwardEvent::Connected), ForwardAction::Listen));
    assert!(matches!(forward.step(ForwardEvent::Ended), ForwardAction::Finish));
    assert!(!forward.awaits(ForwardEvent::Ended));
}

#[test]
fn a_range_of_addresses() {
    let (mut forward, action) = forward(local("10.0.0.9-11", 22, None, 7000));
    let mut action = action;
    for (host, port) in [("10.0.0.9", 7000), ("10.0.0.10", 7001), ("10.0.0.11", 7002)] {
        let t = target(action);
        assert_eq!((t.local_host.as_str(), t.local_port, t.port), (host, 22, port));
        assert!(forward.awaits(ForwardEvent::Connected));
        action = forward.step(ForwardEvent::Connected);
    }
    assert!(matches!(action, ForwardAction::Launch));
    assert!(!forward.awaits(ForwardEvent::Failed));
    assert!(matches!(forward.step(ForwardEvent::Launched), ForwardAction::Join(0)));
    assert!(matches!(forward.step(ForwardEvent::Ended), ForwardAction::Join(1)));
    assert!(matches!(forward.step(ForwardEvent::Ended), ForwardAction::Join(2)));
    assert!(matches!(forward.step(ForwardEvent::Ended), ForwardAction::Finish));
}

#[test]
fn a_range_of_ports() {
    let (mut forward, action) = forward(local("h", 65534, Some(65535), 0));
    let t = target(action);
    assert_eq!((t.local_host.as_str(), t.local_port, t.port), ("h", 65534, 0));
    let t = target(forward.step(ForwardEvent::Connected));
    assert_eq!((t.local_host.as_str(), t.local_port, t.port), ("h", 65535, 0));
    assert!(matches!(forward.step(ForwardEvent::Connected), ForwardAction::Launch));
}

#[test]
fn each_port_of_a_range_is_exposed_once() {
    let (mut forward, mut action) = forward(local("h", 8000, Some(8010), 0));
    let mut ports = Vec::new();
    while let ForwardAction::Connect(target) = action {
        ports.push(target.local_port);
        action = forward.step(ForwardEvent::Connected);
    }
    assert_eq!(ports, (8000..=8010).collect::<Vec<u16>>());
    assert_eq!(forward.target(10).local_port, 8010);
}

#[test]
fn a_range_of_one_port_is_launched() {
    let (mut forward, _) = forward(local("h", 80, Some(80), 90));
    assert!(matches!(forward.step(ForwardEvent::Connected), ForwardAction::Launch));
    assert!(matches!(forward.step(ForwardEvent::Launched), ForwardAction::Join(0)));
    assert!(matches!(forward.step(ForwardEvent::Ended), ForwardAction::Finish));
}

#[test]
fn remote_ports_are_consecutive() {
    let (mut forward, action) = forward(local("h", 100, Some(103), 65532));
    let mut ports = vec![target(action).port];
    for _ in 0..3 {
        assert!(!forward.overflows(ForwardEvent::Connected));
        ports.push(target(forward.step(ForwardEvent::Connected)).port);
    }
    assert_eq!(ports, vec![65532, 65533, 65534, 65535]);
}

#[test]
fn remote_ports_do_not_go_beyond_the_last() {
    let (mut forward, _) = forward(local("h", 100, Some(103), 65534));
    assert!(!forward.overflows(ForwardEvent::Connected));
    forward.step(ForwardEvent::Connected);
    assert!(forward.overflows(ForwardEvent::Connected));
    assert!(!forward.overflows(ForwardEvent::Failed));
}

#[test]
fn a_failure_ends_everything() {
    let (mut forward, _) = forward(local("h", 1, Some(9), 0));
    forward.step(ForwardEvent::Connected);
    assert!(matches!(forward.step(ForwardEvent::Failed), ForwardAction::Abort));
    assert!(!forward.awaits(ForwardEvent::Connected));
}

#[test]
fn ranges_exclude_each_other() {
    let e = usage(local("10.0.0.1-2", 80, Some(90), 0));
    assert_eq!(e, UsageError::BothRanges);
    assert_eq!(
        e.message(),
        "Cannot use both IP range (-l with range) and port range (-m) at the same time"
    );
    assert_eq!(usage(local("not-a-range", 80, Some(1), 0)), UsageError::BothRanges);
}

#[test]
fn a_range_of_ports_does_not_end_below_its_first() {
    let e = usage(local("h", 80, Some(79), 0));
    assert_eq!(e, UsageError::MaxBelowLocal);
    assert_eq!(e.message(), "max port must be greater than or equal to local port");
}

#[test]
fn a_range_of_addresses_has_to_be_readable() {
    match run(local("my-host", 80, None, 0)) {
        Err(CommandError::IpRange(e)) => assert_eq!(e.message(), "Invalid IP format: my"),
        _ => panic!("no error"),
    }
}

#[test]
fn all_ports_at_once_cannot_be_counted() {
    assert!(!local("h", 0, Some(65535), 0).countable());
    assert!(local("h", 1, Some(65535), 0).countable());
    assert!(local("h", 0, Some(65534), 0).countable());
    assert!(local("h-1", 0, Some(65535), 0).countable());
    assert!(local("h", 0, None, 0).countable());
    assert!(server(0, 65535, None, None).countable());
}

#[test]
fn a_server_has_a_port() {
    let e = usage(server(2000, 1999, None, None));
    assert_eq!(e, UsageError::EmptyPortRange);
    assert_eq!(e.message(), "port range is empty");
}

#[test]
fn a_server_with_its_values() {
    for (bind_ip, host) in [(None, "127.0.0.1"), (Some("0.0.0.0"), "0.0.0.0")] {
        match run(server(2000, 2000, bind_ip, Some("s"))) {
            Ok(Plan::Serve(mut server)) => {
                assert_eq!(server.secret().as_deref(), Some("s"));
                assert_eq!(server.draw_port(), 2000);
                assert!(server.create_listener(None, 1999, 0).is_err());
                let (search, port) = server.create_listener(None, 2000, 0).ok().unwrap();
                assert_eq!((search.host().as_str(), port), (host, 2000));
                assert!(!search.draws_again());
                assert_eq!(server.claim(1), None);
                assert!(matches!(server.handle_connection().1, SessionAction::Authenticate(s) if s == "s"));
            }
            _ => panic!("no server"),
        }
    }
}
