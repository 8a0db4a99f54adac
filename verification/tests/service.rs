use bore_cli::server::Server;
use bore_cli::session::{Ending, Session, SessionAction, SessionEvent};
use bore_cli::shared::ClientMessage;

fn accepting(server: &mut Server, port: u16) -> Session {
    let (session, _) = server.handle_connection();
    let hello = SessionEvent::Received(Some(ClientMessage::Hello(None, port)));
    let (session, _) = session.step(server, hello);
    let (session, _) = session.step(server, SessionEvent::Bound(port));
    let (session, _) = session.step(server, SessionEvent::Sent);
    let (session, action) = session.step(server, SessionEvent::Sent);
    assert!(matches!(action, SessionAction::Accept { .. }));
    session
}

fn ask(server: &mut Server, session: Session, id: u128) -> Option<u64> {
    let accept = SessionEvent::Received(Some(ClientMessage::Accept(id)));
    match session.step(server, accept).1 {
        SessionAction::Flush(ticket) => Some(ticket),
        SessionAction::Finish(Ending::MissingConnection) => None,
        _ => panic!("neither served nor missing"),
    }
}

fn park(server: &mut Server, session: Session, ticket: u64, id: u128) -> Session {
    let (session, action) = session.step_with(server, SessionEvent::Accepted(ticket), 0, id);
    assert!(matches!(action, SessionAction::Schedule { .. }));
    let (session, _) = session.step(server, SessionEvent::Scheduled);
    let (session, _) = session.step(server, SessionEvent::Sent);
    session.step(server, SessionEvent::Sent).0
}

#[test]
fn sessions_at_once_serve_each_connection_once() {
    let mut server = Server::new(None, 1024..=65535, None);
    let first = accepting(&mut server, 2000);
    let second = accepting(&mut server, 2001);
    let (early, _) = server.handle_connection();
    let (late, _) = server.handle_connection();
    let (other, _) = server.handle_connection();
    let (again, _) = server.handle_connection();

    let first = park(&mut server, first, 10, 1);
    let second = park(&mut server, second, 20, 2);
    assert_eq!(ask(&mut server, early, 1), Some(10));
    assert_eq!(ask(&mut server, late, 1), None);
    assert_eq!(ask(&mut server, other, 2), Some(20));

    park(&mut server, second, 21, 1);
    assert_eq!(ask(&mut server, again, 1), Some(21));

    park(&mut server, first, 11, 3);
    assert_eq!(server.claim(3), Some(11));
    let (gone, _) = server.handle_connection();
    assert_eq!(ask(&mut server, gone, 3), None);
}

#[test]
fn a_parked_connection_is_due_even_if_it_is_never_announced() {
    let mut server = Server::new(None, 1024..=65535, None);
    let session = accepting(&mut server, 2000);
    let (session, action) = session.step(&mut server, SessionEvent::Accepted(5));
    let id = match action {
        SessionAction::Schedule { id, after_secs: 10, displaced: None } => id,
        _ => panic!("not scheduled"),
    };
    let (session, _) = session.step(&mut server, SessionEvent::Scheduled);
    let (_, action) = session.step(&mut server, SessionEvent::Failed);
    assert!(matches!(action, SessionAction::Abort));
    assert_eq!(server.claim(id), Some(5));
    assert_eq!(server.claim(id), None);
}
