//! One control connection, as the server sees it.
use vstd::prelude::*;

use crate::random::fresh_id;
use crate::random::is_v4;
use crate::server::{listener_error_text, search_next, search_start, search_view, SearchView, ServerView};
use crate::server::{BindFailure, ListenerError, Search, Server};
use crate::shared::{client_message_opt, ClientMessageView, ServerMessageView};
use crate::shared::{ClientMessage, ServerMessage};

verus! {

/// How long a connection is waited for between two heartbeats, in milliseconds.
pub const ACCEPT_TIMEOUT_MS: u64 = 500;

/// How long a connection waits to be taken over, in seconds.
pub const STALE_AFTER_SECS: u64 = 10;

/// Where a session stands: what was asked of the program last.
enum Stage {
    /// The handshake is on.
    Authenticating,
    /// The first message is awaited.
    Waiting,
    /// A port is being bound.
    Binding(Search),
    /// An error is being sent; the session ends after it.
    Closing,
    /// The opened port is being sent.
    Greeting,
    /// A heartbeat is being sent.
    Beating,
    /// A connection is awaited.
    Accepting,
    /// The removal of a connection that nobody takes over is being set up.
    Parking(u128),
    /// A connection is being announced.
    Announcing,
    /// What was read ahead is being passed on.
    Flushing(u64),
    /// Bytes are being passed in both directions.
    Proxying,
    /// Nothing is left to do.
    Done,
}

/// What a `Session` holds.
pub enum SessionView {
    Authenticating,
    Waiting,
    Binding(SearchView),
    Closing,
    Greeting,
    Beating,
    Accepting,
    Parking(u128),
    Announcing,
    Flushing(u64),
    Proxying,
    Done,
}

impl View for Stage {
    type V = SessionView;

    closed spec fn view(&self) -> SessionView {
        match self {
            Stage::Authenticating => SessionView::Authenticating,
            Stage::Waiting => SessionView::Waiting,
            Stage::Binding(search) => SessionView::Binding(search@),
            Stage::Closing => SessionView::Closing,
            Stage::Greeting => SessionView::Greeting,
            Stage::Beating => SessionView::Beating,
            Stage::Accepting => SessionView::Accepting,
            Stage::Parking(id) => SessionView::Parking(*id),
            Stage::Announcing => SessionView::Announcing,
            Stage::Flushing(ticket) => SessionView::Flushing(*ticket),
            Stage::Proxying => SessionView::Proxying,
            Stage::Done => SessionView::Done,
        }
    }
}

/// One control connection.
pub struct Session {
    stage: Stage,
}

impl View for Session {
    type V = SessionView;

    closed spec fn view(&self) -> SessionView {
        self.stage@
    }
}

/// How what was asked of the program came out.
#[derive(Debug)]
pub enum SessionEvent {
    /// The handshake succeeded.
    Authenticated,
    /// The handshake failed, with this text.
    AuthFailed(String),
    /// A message came, or the connection ended.
    Received(Option<ClientMessage>),
    /// The listener is open, on this port.
    Bound(u16),
    /// The port could not be bound.
    BindFailed(BindFailure),
    /// The message was sent.
    Sent,
    /// No connection came in time.
    TimedOut,
    /// A connection came; its socket is kept under this ticket.
    Accepted(u64),
    /// The removal is set up.
    Scheduled,
    /// What was read ahead is passed on.
    Flushed,
    /// The passing of bytes has ended.
    Proxied,
    /// It failed.
    Failed,
}

/// What a `SessionEvent` holds.
pub enum SessionEventView {
    Authenticated,
    AuthFailed(Seq<char>),
    Received(Option<ClientMessageView>),
    Bound(u16),
    BindFailed(BindFailure),
    Sent,
    TimedOut,
    Accepted(u64),
    Scheduled,
    Flushed,
    Proxied,
    Failed,
}

impl View for SessionEvent {
    type V = SessionEventView;

    open spec fn view(&self) -> SessionEventView {
        match self {
            SessionEvent::Authenticated => SessionEventView::Authenticated,
            SessionEvent::AuthFailed(text) => SessionEventView::AuthFailed(text@),
            SessionEvent::Received(message) => SessionEventView::Received(
                client_message_opt(*message),
            ),
            SessionEvent::Bound(port) => SessionEventView::Bound(*port),
            SessionEvent::BindFailed(failure) => SessionEventView::BindFailed(*failure),
            SessionEvent::Sent => SessionEventView::Sent,
            SessionEvent::TimedOut => SessionEventView::TimedOut,
            SessionEvent::Accepted(ticket) => SessionEventView::Accepted(*ticket),
            SessionEvent::Scheduled => SessionEventView::Scheduled,
            SessionEvent::Flushed => SessionEventView::Flushed,
            SessionEvent::Proxied => SessionEventView::Proxied,
            SessionEvent::Failed => SessionEventView::Failed,
        }
    }
}

/// How a session ends without an error.
#[derive(Clone, Copy, Debug, PartialEq, Eq, Structural)]
pub enum Ending {
    /// The client was sent an error.
    Refused,
    /// The client answered a challenge that it was not sent.
    UnexpectedAuthenticate,
    /// The client said nothing.
    Silent,
    /// The client is gone.
    Disconnected,
    /// No connection waits under the id that the client named.
    MissingConnection,
    /// The connection was passed on to its end.
    Forwarded,
}

/// What the program does next for a session.
#[derive(Debug)]
pub enum SessionAction {
    /// Run the handshake with this secret.
    Authenticate(String),
    /// Wait for a message, for as long as the network may take.
    Receive,
    /// Bind a listener.
    Bind { host: String, port: u16 },
    /// Send a message.
    Send(ServerMessage),
    /// Wait for a connection to the listener.
    Accept { timeout_ms: u64 },
    /// Set up the removal of a connection, and drop the socket of the one that it
    /// displaced.
    Schedule { id: u128, after_secs: u64, displaced: Option<u64> },
    /// Write what was read ahead from the client to the socket of this ticket.
    Flush(u64),
    /// Pass bytes between the client and the socket of this ticket.
    Proxy(u64),
    /// End the session.
    Finish(Ending),
    /// End the session, with the error that came.
    Abort,
}

/// What a `SessionAction` holds.
pub enum SessionActionView {
    Authenticate(Seq<char>),
    Receive,
    Bind { host: Seq<char>, port: u16 },
    Send(ServerMessageView),
    Accept { timeout_ms: u64 },
    Schedule { id: u128, after_secs: u64, displaced: Option<u64> },
    Flush(u64),
    Proxy(u64),
    Finish(Ending),
    Abort,
}

impl View for SessionAction {
    type V = SessionActionView;

    open spec fn view(&self) -> SessionActionView {
        match self {
            SessionAction::Authenticate(secret) => SessionActionView::Authenticate(secret@),
            SessionAction::Receive => SessionActionView::Receive,
            SessionAction::Bind { host, port } => SessionActionView::Bind {
                host: host@,
                port: *port,
            },
            SessionAction::Send(message) => SessionActionView::Send(message@),
            SessionAction::Accept { timeout_ms } => SessionActionView::Accept {
                timeout_ms: *timeout_ms,
            },
            SessionAction::Schedule { id, after_secs, displaced } => SessionActionView::Schedule {
                id: *id,
                after_secs: *after_secs,
                displaced: *displaced,
            },
            SessionAction::Flush(ticket) => SessionActionView::Flush(*ticket),
            SessionAction::Proxy(ticket) => SessionActionView::Proxy(*ticket),
            SessionAction::Finish(ending) => SessionActionView::Finish(*ending),
            SessionAction::Abort => SessionActionView::Abort,
        }
    }
}

/// Whether an event is an outcome of what was asked last.
pub open spec fn session_awaits(session: SessionView, event: SessionEventView) -> bool {
    match session {
        SessionView::Authenticating => event is Authenticated || event is AuthFailed,
        SessionView::Waiting => event is Received || event is Failed,
        SessionView::Binding(_) => event is Bound || event is BindFailed || event is Failed,
        SessionView::Closing
        | SessionView::Greeting
        | SessionView::Beating
        | SessionView::Announcing => event is Sent || event is Failed,
        SessionView::Accepting => event is TimedOut || event is Accepted || event is Failed,
        SessionView::Parking(_) => event is Scheduled,
        SessionView::Flushing(_) => event is Flushed || event is Failed,
        SessionView::Proxying => event is Proxied || event is Failed,
        SessionView::Done => false,
    }
}

/// Whether an event makes the session bind a random port.
pub open spec fn session_draws_port(session: SessionView, event: SessionEventView) -> bool {
    ||| session is Waiting && (event matches SessionEventView::Received(
        Some(ClientMessageView::Hello(_, port)),
    ) && port == 0)
    ||| event is BindFailed && (session matches SessionView::Binding(search)
        && search.left matches Some(left) && left > 0)
}

/// How a session starts.
pub open spec fn session_start(server: ServerView) -> (SessionView, SessionActionView) {
    match server.auth {
        Some(secret) => (SessionView::Authenticating, SessionActionView::Authenticate(secret)),
        None => (SessionView::Waiting, SessionActionView::Receive),
    }
}

/// A search goes on with a port, or the client is sent why it does not.
pub open spec fn session_search(found: Result<(SearchView, u16), ListenerError>) -> (
    SessionView,
    SessionActionView,
) {
    match found {
        Ok((search, port)) => (
            SessionView::Binding(search),
            SessionActionView::Bind { host: search.host, port },
        ),
        Err(error) => (
            SessionView::Closing,
            SessionActionView::Send(ServerMessageView::Error(listener_error_text(error))),
        ),
    }
}

/// What the first message of a client leads to.
pub open spec fn session_first(
    server: ServerView,
    message: Option<ClientMessageView>,
    drawn: u16,
) -> (ServerView, SessionView, SessionActionView) {
    match message {
        None => (server, SessionView::Done, SessionActionView::Finish(Ending::Silent)),
        Some(ClientMessageView::Authenticate(_)) => (
            server,
            SessionView::Done,
            SessionActionView::Finish(Ending::UnexpectedAuthenticate),
        ),
        Some(ClientMessageView::Hello(bind_ip, port)) => {
            let (session, action) = session_search(search_start(server, bind_ip, port, drawn));
            (server, session, action)
        },
        Some(ClientMessageView::Accept(id)) => {
            let after = ServerView { parked: server.parked.remove(id), ..server };
            match server.parked.get(id) {
                Some(ticket) => (
                    after,
                    SessionView::Flushing(ticket),
                    SessionActionView::Flush(ticket),
                ),
                None => (
                    after,
                    SessionView::Done,
                    SessionActionView::Finish(Ending::MissingConnection),
                ),
            }
        },
    }
}

/// What an awaited event does to the server and to the session, and what the
/// program does next. `drawn` is the random port, where one is bound; `id` is the
/// name of the connection, where one came.
pub open spec fn session_step(
    server: ServerView,
    session: SessionView,
    event: SessionEventView,
    drawn: u16,
    id: u128,
) -> (ServerView, SessionView, SessionActionView) {
    let beat = (
        server,
        SessionView::Beating,
        SessionActionView::Send(ServerMessageView::Heartbeat),
    );
    match (session, event) {
        (SessionView::Authenticating, SessionEventView::Authenticated) => (
            server,
            SessionView::Waiting,
            SessionActionView::Receive,
        ),
        (SessionView::Authenticating, SessionEventView::AuthFailed(text)) => (
            server,
            SessionView::Closing,
            SessionActionView::Send(ServerMessageView::Error(text)),
        ),
        (SessionView::Waiting, SessionEventView::Received(message)) => session_first(
            server,
            message,
            drawn,
        ),
        (SessionView::Binding(_), SessionEventView::Bound(port)) => (
            server,
            SessionView::Greeting,
            SessionActionView::Send(ServerMessageView::Hello(port)),
        ),
        (SessionView::Binding(search), SessionEventView::BindFailed(failure)) => {
            let (session, action) = session_search(search_next(search, failure, drawn));
            (server, session, action)
        },
        (SessionView::Closing, SessionEventView::Sent) => (
            server,
            SessionView::Done,
            SessionActionView::Finish(Ending::Refused),
        ),
        (SessionView::Greeting, SessionEventView::Sent) => beat,
        (SessionView::Beating, SessionEventView::Sent) => (
            server,
            SessionView::Accepting,
            SessionActionView::Accept { timeout_ms: ACCEPT_TIMEOUT_MS },
        ),
        (SessionView::Beating, SessionEventView::Failed) => (
            server,
            SessionView::Done,
            SessionActionView::Finish(Ending::Disconnected),
        ),
        (SessionView::Accepting, SessionEventView::TimedOut) => beat,
        (SessionView::Accepting, SessionEventView::Accepted(ticket)) => (
            ServerView { parked: server.parked.insert(id, ticket), ..server },
            SessionView::Parking(id),
            SessionActionView::Schedule {
                id,
                after_secs: STALE_AFTER_SECS,
                displaced: server.parked.get(id),
            },
        ),
        (SessionView::Parking(parked), SessionEventView::Scheduled) => (
            server,
            SessionView::Announcing,
            SessionActionView::Send(ServerMessageView::Connection(parked)),
        ),
        (SessionView::Announcing, SessionEventView::Sent) => beat,
        (SessionView::Flushing(ticket), SessionEventView::Flushed) => (
            server,
            SessionView::Proxying,
            SessionActionView::Proxy(ticket),
        ),
        (SessionView::Proxying, SessionEventView::Proxied) => (
            server,
            SessionView::Done,
            SessionActionView::Finish(Ending::Forwarded),
        ),
        (_, _) => (server, SessionView::Done, SessionActionView::Abort),
    }
}

/// The outcome of a search, as a session and an action.
fn search_outcome(found: Result<(Search, u16), ListenerError>) -> (r: (Stage, SessionAction))
    ensures
        (r.0@, r.1@) == session_search(search_view(found)),
{
    match found {
        Ok((search, port)) => {
            let host = search.host();
            (Stage::Binding(search), SessionAction::Bind { host, port })
        },
        Err(error) => (
            Stage::Closing,
            SessionAction::Send(ServerMessage::Error(error.message().to_owned())),
        ),
    }
}

impl Server {
    /// Starts to serve a control connection.
    pub fn handle_connection(&self) -> (r: (Session, SessionAction))
        ensures
            (r.0@, r.1@) == session_start(self@),
    {
        match self.secret() {
            Some(secret) => (
                Session { stage: Stage::Authenticating },
                SessionAction::Authenticate(secret),
            ),
            None => (Session { stage: Stage::Waiting }, SessionAction::Receive),
        }
    }

    /// Acts on the first message of a client.
    fn first_message(&mut self, message: Option<ClientMessage>, drawn: u16) -> (r: (
        Stage,
        SessionAction,
    ))
        requires
            old(self).wf(),
        ensures
            final(self).wf(),
            (final(self)@, r.0@, r.1@) == session_first(
                old(self)@,
                client_message_opt(message),
                drawn,
            ),
    {
        match message {
            None => (Stage::Done, SessionAction::Finish(Ending::Silent)),
            Some(ClientMessage::Authenticate(_)) => (
                Stage::Done,
                SessionAction::Finish(Ending::UnexpectedAuthenticate),
            ),
            Some(ClientMessage::Hello(bind_ip, port)) => search_outcome(
                self.create_listener(bind_ip, port, drawn),
            ),
            Some(ClientMessage::Accept(id)) => match self.claim(id) {
                Some(ticket) => (Stage::Flushing(ticket), SessionAction::Flush(ticket)),
                None => (Stage::Done, SessionAction::Finish(Ending::MissingConnection)),
            },
        }
    }
}

impl Session {
    /// Whether an event is an outcome of what was asked last.
    pub fn awaits(&self, event: &SessionEvent) -> (r: bool)
        ensures
            r == session_awaits(self@, event@),
    {
        match (&self.stage, event) {
            (Stage::Authenticating, SessionEvent::Authenticated) => true,
            (Stage::Authenticating, SessionEvent::AuthFailed(_)) => true,
            (Stage::Authenticating, _) => false,
            (Stage::Waiting, SessionEvent::Received(_)) => true,
            (Stage::Binding(_), SessionEvent::Bound(_)) => true,
            (Stage::Binding(_), SessionEvent::BindFailed(_)) => true,
            (Stage::Closing, SessionEvent::Sent) => true,
            (Stage::Greeting, SessionEvent::Sent) => true,
            (Stage::Beating, SessionEvent::Sent) => true,
            (Stage::Accepting, SessionEvent::TimedOut) => true,
            (Stage::Accepting, SessionEvent::Accepted(_)) => true,
            (Stage::Parking(_), SessionEvent::Scheduled) => true,
            (Stage::Parking(_), _) => false,
            (Stage::Announcing, SessionEvent::Sent) => true,
            (Stage::Flushing(_), SessionEvent::Flushed) => true,
            (Stage::Proxying, SessionEvent::Proxied) => true,
            (Stage::Done, _) => false,
            (_, SessionEvent::Failed) => true,
            (_, _) => false,
        }
    }

    /// Whether an event makes the session bind a random port.
    fn draws_port(&self, event: &SessionEvent) -> (r: bool)
        ensures
            r == session_draws_port(self@, event@),
    {
        match (&self.stage, event) {
            (Stage::Waiting, SessionEvent::Received(Some(ClientMessage::Hello(_, port)))) =>
                *port == 0,
            (Stage::Binding(search), SessionEvent::BindFailed(_)) => search.draws_again(),
            (_, _) => false,
        }
    }

    /// Takes an awaited event and says what the program does next. `drawn` is the
    /// random port, where one is bound; `id` is the name of the connection, where
    /// one came.
    pub fn step_with(self, server: &mut Server, event: SessionEvent, drawn: u16, id: u128) -> (r: (
        Session,
        SessionAction,
    ))
        requires
            old(server).wf(),
            session_awaits(self@, event@),
        ensures
            final(server).wf(),
            (final(server)@, r.0@, r.1@) == session_step(
                old(server)@,
                self@,
                event@,
                drawn,
                id,
            ),
    {
        let (stage, action) = match (self.stage, event) {
            (Stage::Authenticating, SessionEvent::Authenticated) => (
                Stage::Waiting,
                SessionAction::Receive,
            ),
            (Stage::Authenticating, SessionEvent::AuthFailed(text)) => (
                Stage::Closing,
                SessionAction::Send(ServerMessage::Error(text)),
            ),
            (Stage::Waiting, SessionEvent::Received(message)) => server.first_message(
                message,
                drawn,
            ),
            (Stage::Binding(_), SessionEvent::Bound(port)) => (
                Stage::Greeting,
                SessionAction::Send(ServerMessage::Hello(port)),
            ),
            (Stage::Binding(search), SessionEvent::BindFailed(failure)) => search_outcome(
                search.retry(failure, drawn),
            ),
            (Stage::Closing, SessionEvent::Sent) => (
                Stage::Done,
                SessionAction::Finish(Ending::Refused),
            ),
            (Stage::Greeting, SessionEvent::Sent) => (
                Stage::Beating,
                SessionAction::Send(ServerMessage::Heartbeat),
            ),
            (Stage::Beating, SessionEvent::Sent) => (
                Stage::Accepting,
                SessionAction::Accept { timeout_ms: ACCEPT_TIMEOUT_MS },
            ),
            (Stage::Beating, SessionEvent::Failed) => (
                Stage::Done,
                SessionAction::Finish(Ending::Disconnected),
            ),
            (Stage::Accepting, SessionEvent::TimedOut) => (
                Stage::Beating,
                SessionAction::Send(ServerMessage::Heartbeat),
            ),
            (Stage::Accepting, SessionEvent::Accepted(ticket)) => {
                let displaced = server.park(id, ticket);
                (
                    Stage::Parking(id),
                    SessionAction::Schedule { id, after_secs: STALE_AFTER_SECS, displaced },
                )
            },
            (Stage::Parking(parked), SessionEvent::Scheduled) => (
                Stage::Announcing,
                SessionAction::Send(ServerMessage::Connection(parked)),
            ),
            (Stage::Announcing, SessionEvent::Sent) => (
                Stage::Beating,
                SessionAction::Send(ServerMessage::Heartbeat),
            ),
            (Stage::Flushing(ticket), SessionEvent::Flushed) => (
                Stage::Proxying,
                SessionAction::Proxy(ticket),
            ),
            (Stage::Proxying, SessionEvent::Proxied) => (
                Stage::Done,
                SessionAction::Finish(Ending::Forwarded),
            ),
            (_, _) => (Stage::Done, SessionAction::Abort),
        };
        (Session { stage }, action)
    }

    /// Takes an awaited event and says what the program does next. A port to try
    /// is drawn where a random one is bound; a connection that came is named by a
    /// new random UUID.
    pub fn step(self, server: &mut Server, event: SessionEvent) -> (r: (Session, SessionAction))
        requires
            old(server).wf(),
            session_awaits(self@, event@),
        ensures
            final(server).wf(),
            exists|drawn: u16, id: u128|
                {
                    &&& session_draws_port(self@, event@) ==> old(server)@.allows(drawn)
                    &&& event@ is Accepted ==> is_v4(id)
                    &&& (final(server)@, r.0@, r.1@) == #[trigger] session_step(
                        old(server)@,
                        self@,
                        event@,
                        drawn,
                        id,
                    )
                },
    {
        let drawn: u16 = if self.draws_port(&event) {
            server.draw_port()
        } else {
            0
        };
        let id: u128 = match &event {
            SessionEvent::Accepted(_) => fresh_id(),
            _ => 0,
        };
        self.step_with(server, event, drawn, id)
    }
}

/// A session is told to end exactly when nothing is left to do for it, and until
/// then there is always an event that it awaits.
pub proof fn law_session_ends_when_done(
    server: ServerView,
    session: SessionView,
    event: SessionEventView,
    drawn: u16,
    id: u128,
)
    requires
        session_awaits(session, event),
    ensures
        ({
            let (_, after, action) = session_step(server, session, event, drawn, id);
            &&& after is Done <==> action is Finish || action is Abort
            &&& after is Done <==> !exists|next: SessionEventView| session_awaits(after, next)
        }),
{
    let after = session_step(server, session, event, drawn, id).1;
    assert(after is Done || session_awaits(after, SessionEventView::Failed) || session_awaits(
        after,
        SessionEventView::Scheduled,
    ));
}

/// Where the server has a secret, a session starts with the handshake over exactly
/// that secret; where it has none, with the first message.
pub proof fn law_session_starts_with_the_handshake(server: ServerView)
    ensures
        server.auth matches Some(secret) ==> session_start(server) == (
            SessionView::Authenticating,
            SessionActionView::Authenticate(secret),
        ),
        server.auth is None ==> session_start(server) == (
            SessionView::Waiting,
            SessionActionView::Receive,
        ),
{
}

/// A client that gets through the handshake is heard, on any server. One that does
/// not is sent the text of the failure, and the session ends.
pub proof fn law_handshake_decides_who_is_heard(
    server: ServerView,
    text: Seq<char>,
    drawn: u16,
    id: u128,
)
    ensures
        session_step(
            server,
            SessionView::Authenticating,
            SessionEventView::Authenticated,
            drawn,
            id,
        ) == (server, SessionView::Waiting, SessionActionView::Receive),
        session_step(
            server,
            SessionView::Authenticating,
            SessionEventView::AuthFailed(text),
            drawn,
            id,
        ) == (
            server,
            SessionView::Closing,
            SessionActionView::Send(ServerMessageView::Error(text)),
        ),
        session_step(server, SessionView::Closing, SessionEventView::Sent, drawn, id) == (
            server,
            SessionView::Done,
            SessionActionView::Finish(Ending::Refused),
        ),
{
}

/// A client that names an address gets its port at that address, on any server, with
/// or without a secret: the port that it named, if the server has it, and that one
/// alone, or the drawn one, with 149 more to try, if it named none.
pub proof fn law_port_is_bound_at_the_named_address(
    server: ServerView,
    ip: Seq<char>,
    port: u16,
    drawn: u16,
    id: u128,
)
    requires
        port == 0 || server.min_port <= port <= server.max_port,
    ensures
        ({
            let bound = if port == 0 {
                drawn
            } else {
                port
            };
            let left = if port == 0 {
                Some(149u8)
            } else {
                None
            };
            session_step(
                server,
                SessionView::Waiting,
                SessionEventView::Received(Some(ClientMessageView::Hello(Some(ip), port))),
                drawn,
                id,
            ) == (
                server,
                SessionView::Binding(SearchView { host: ip, left }),
                SessionActionView::Bind { host: ip, port: bound },
            )
        }),
{
}

/// A client that names no address gets its port at the address of the server, by the
/// same rules.
pub proof fn law_port_is_bound_at_the_address_of_the_server(
    server: ServerView,
    port: u16,
    drawn: u16,
    id: u128,
)
    requires
        port == 0 || server.min_port <= port <= server.max_port,
    ensures
        ({
            let bound = if port == 0 {
                drawn
            } else {
                port
            };
            let left = if port == 0 {
                Some(149u8)
            } else {
                None
            };
            session_step(
                server,
                SessionView::Waiting,
                SessionEventView::Received(Some(ClientMessageView::Hello(None, port))),
                drawn,
                id,
            ) == (
                server,
                SessionView::Binding(SearchView { host: server.bind_ip, left }),
                SessionActionView::Bind { host: server.bind_ip, port: bound },
            )
        }),
{
}

/// A client that names a port below or above those of the server is told so, whatever
/// address it names.
pub proof fn law_foreign_port_is_refused(
    server: ServerView,
    bind_ip: Option<Seq<char>>,
    port: u16,
    drawn: u16,
    id: u128,
)
    requires
        0 < port < server.min_port || (port > 0 && port > server.max_port),
    ensures
        session_step(
            server,
            SessionView::Waiting,
            SessionEventView::Received(Some(ClientMessageView::Hello(bind_ip, port))),
            drawn,
            id,
        ) == (
            server,
            SessionView::Closing,
            SessionActionView::Send(
                ServerMessageView::Error("client port number not in allowed range"@),
            ),
        ),
{
}

/// A port that was named and cannot be bound is given up, with the reason. A random
/// one is followed by the next one drawn, at the same address, until none is left.
pub proof fn law_failed_bind_is_told_or_tried_again(
    server: ServerView,
    host: Seq<char>,
    left: u8,
    failure: BindFailure,
    drawn: u16,
    id: u128,
)
    ensures
        session_step(
            server,
            SessionView::Binding(SearchView { host, left: None }),
            SessionEventView::BindFailed(failure),
            drawn,
            id,
        ) == (
            server,
            SessionView::Closing,
            SessionActionView::Send(
                ServerMessageView::Error(
                    match failure {
                        BindFailure::AddrInUse => "port already in use"@,
                        BindFailure::PermissionDenied => "permission denied"@,
                        BindFailure::Other => "failed to bind to port"@,
                    },
                ),
            ),
        ),
        left > 0 ==> session_step(
            server,
            SessionView::Binding(SearchView { host, left: Some(left) }),
            SessionEventView::BindFailed(failure),
            drawn,
            id,
        ) == (
            server,
            SessionView::Binding(SearchView { host, left: Some((left - 1) as u8) }),
            SessionActionView::Bind { host, port: drawn },
        ),
        session_step(
            server,
            SessionView::Binding(SearchView { host, left: Some(0) }),
            SessionEventView::BindFailed(failure),
            drawn,
            id,
        ) == (
            server,
            SessionView::Closing,
            SessionActionView::Send(
                ServerMessageView::Error("failed to find an available port"@),
            ),
        ),
{
}

/// The port that was opened, whichever it is and however it was found, is the one
/// that the client is told.
pub proof fn law_opened_port_is_told(
    server: ServerView,
    search: SearchView,
    port: u16,
    drawn: u16,
    id: u128,
)
    ensures
        session_step(
            server,
            SessionView::Binding(search),
            SessionEventView::Bound(port),
            drawn,
            id,
        ) == (
            server,
            SessionView::Greeting,
            SessionActionView::Send(ServerMessageView::Hello(port)),
        ),
{
}

/// A session that has its port goes round, on any server: a heartbeat, a wait of
/// 500 milliseconds, and a heartbeat again, whether a connection was announced
/// meanwhile or none came in time. It changes nothing at the server.
pub proof fn law_session_goes_round(server: ServerView, drawn: u16, id: u128)
    ensures
        session_step(server, SessionView::Greeting, SessionEventView::Sent, drawn, id) == (
            server,
            SessionView::Beating,
            SessionActionView::Send(ServerMessageView::Heartbeat),
        ),
        session_step(server, SessionView::Beating, SessionEventView::Sent, drawn, id) == (
            server,
            SessionView::Accepting,
            SessionActionView::Accept { timeout_ms: 500 },
        ),
        session_step(server, SessionView::Accepting, SessionEventView::TimedOut, drawn, id) == (
            server,
            SessionView::Beating,
            SessionActionView::Send(ServerMessageView::Heartbeat),
        ),
        session_step(server, SessionView::Announcing, SessionEventView::Sent, drawn, id) == (
            server,
            SessionView::Beating,
            SessionActionView::Send(ServerMessageView::Heartbeat),
        ),
{
}

/// A connection that comes waits under its name with its own ticket, beside all that
/// waited before; its removal is asked for 10 seconds later, together with the end of
/// the one that it displaces, if there is one. Then it is announced by its name.
pub proof fn law_connection_that_comes_waits(
    server: ServerView,
    ticket: u64,
    drawn: u16,
    id: u128,
    other: u128,
)
    ensures
        ({
            let (after, session, action) = session_step(
                server,
                SessionView::Accepting,
                SessionEventView::Accepted(ticket),
                drawn,
                id,
            );
            &&& after.parked.contains_key(id) && after.parked[id] == ticket
            &&& other != id ==> {
                &&& after.parked.contains_key(other) == server.parked.contains_key(other)
                &&& server.parked.contains_key(other) ==> after.parked[other]
                    == server.parked[other]
            }
            &&& after.bind_ip == server.bind_ip && after.min_port == server.min_port
                && after.max_port == server.max_port && after.auth == server.auth
            &&& session == SessionView::Parking(id)
            &&& server.parked.contains_key(id) ==> action == (SessionActionView::Schedule {
                id,
                after_secs: 10,
                displaced: Some(server.parked[id]),
            })
            &&& !server.parked.contains_key(id) ==> action == (SessionActionView::Schedule {
                id,
                after_secs: 10,
                displaced: None,
            })
        }),
        session_step(server, SessionView::Parking(id), SessionEventView::Scheduled, drawn, other)
            == (
            server,
            SessionView::Announcing,
            SessionActionView::Send(ServerMessageView::Connection(id)),
        ),
{
}

/// A client that asks for a connection that waits gets the socket of its ticket, first
/// what was read ahead and then all the rest; the connection waits no longer, and all
/// others do. One that asks for a connection that does not wait gets nothing, and all
/// that waits goes on waiting.
pub proof fn law_asked_connection_leaves(
    server: ServerView,
    asked: u128,
    drawn: u16,
    id: u128,
    ticket: u64,
    other: u128,
)
    ensures
        ({
            let (after, session, action) = session_step(
                server,
                SessionView::Waiting,
                SessionEventView::Received(Some(ClientMessageView::Accept(asked))),
                drawn,
                id,
            );
            &&& !after.parked.contains_key(asked)
            &&& other != asked ==> {
                &&& after.parked.contains_key(other) == server.parked.contains_key(other)
                &&& server.parked.contains_key(other) ==> after.parked[other]
                    == server.parked[other]
            }
            &&& after.bind_ip == server.bind_ip && after.min_port == server.min_port
                && after.max_port == server.max_port && after.auth == server.auth
            &&& server.parked.contains_key(asked) ==> session == SessionView::Flushing(
                server.parked[asked],
            ) && action == SessionActionView::Flush(server.parked[asked])
            &&& !server.parked.contains_key(asked) ==> session == SessionView::Done && action
                == SessionActionView::Finish(Ending::MissingConnection)
        }),
        session_step(server, SessionView::Flushing(ticket), SessionEventView::Flushed, drawn, id)
            == (server, SessionView::Proxying, SessionActionView::Proxy(ticket)),
        session_step(server, SessionView::Proxying, SessionEventView::Proxied, drawn, id) == (
            server,
            SessionView::Done,
            SessionActionView::Finish(Ending::Forwarded),
        ),
{
}

/// A client that hangs up, or that answers a challenge out of turn, gets nothing, and
/// the server stays as it is.
pub proof fn law_client_that_asks_nothing_gets_nothing(
    server: ServerView,
    tag: Seq<char>,
    drawn: u16,
    id: u128,
)
    ensures
        session_step(
            server,
            SessionView::Waiting,
            SessionEventView::Received(None),
            drawn,
            id,
        ) == (server, SessionView::Done, SessionActionView::Finish(Ending::Silent)),
        session_step(
            server,
            SessionView::Waiting,
            SessionEventView::Received(Some(ClientMessageView::Authenticate(tag))),
            drawn,
            id,
        ) == (
            server,
            SessionView::Done,
            SessionActionView::Finish(Ending::UnexpectedAuthenticate),
        ),
{
}

/// A failure ends a session and leaves the server as it is. It is passed on as an
/// error, but for a heartbeat that cannot be sent: then the client is just gone.
pub proof fn law_failure_ends_a_session(
    server: ServerView,
    session: SessionView,
    drawn: u16,
    id: u128,
)
    requires
        session_awaits(session, SessionEventView::Failed),
    ensures
        session is Beating ==> session_step(
            server,
            session,
            SessionEventView::Failed,
            drawn,
            id,
        ) == (server, SessionView::Done, SessionActionView::Finish(Ending::Disconnected)),
        !(session is Beating) ==> session_step(
            server,
            session,
            SessionEventView::Failed,
            drawn,
            id,
        ) == (server, SessionView::Done, SessionActionView::Abort),
{
}

/// Whether an event tells how an action came out.
pub open spec fn tells_of(action: SessionActionView, event: SessionEventView) -> bool {
    match event {
        SessionEventView::Authenticated | SessionEventView::AuthFailed(_) => action is Authenticate,
        SessionEventView::Received(_) => action is Receive,
        SessionEventView::Bound(_) | SessionEventView::BindFailed(_) => action is Bind,
        SessionEventView::Sent => action is Send,
        SessionEventView::TimedOut | SessionEventView::Accepted(_) => action is Accept,
        SessionEventView::Scheduled => action is Schedule,
        SessionEventView::Flushed => action is Flush,
        SessionEventView::Proxied => action is Proxy,
        SessionEventView::Failed => action is Receive || action is Bind || action is Send
            || action is Accept || action is Flush || action is Proxy,
    }
}

/// What a session awaits, from its start on, is exactly every outcome of what was
/// asked last.
pub proof fn law_session_awaits_every_outcome(
    server: ServerView,
    session: SessionView,
    event: SessionEventView,
    drawn: u16,
    id: u128,
    next: SessionEventView,
)
    requires
        session_awaits(session, event),
    ensures
        ({
            let (start, action) = session_start(server);
            session_awaits(start, next) <==> tells_of(action, next)
        }),
        ({
            let (_, after, action) = session_step(server, session, event, drawn, id);
            session_awaits(after, next) <==> tells_of(action, next)
        }),
{
}

/// What is drawn decides what a session does exactly where a port is said to be drawn,
/// and then it is the port that is bound.
pub proof fn law_drawn_port_is_the_one_bound(
    server: ServerView,
    session: SessionView,
    event: SessionEventView,
    drawn: u16,
    other: u16,
    id: u128,
)
    requires
        session_awaits(session, event),
        drawn != other,
    ensures
        ({
            let one = session_step(server, session, event, drawn, id);
            let two = session_step(server, session, event, other, id);
            &&& session_draws_port(session, event) <==> one != two
            &&& session_draws_port(session, event) ==> (one.2 matches SessionActionView::Bind {
                port,
                ..
            } && port == drawn)
        }),
{
}

/// The view of an event shows all that happened.
pub proof fn law_session_events_are_shown(event: SessionEvent)
    ensures
        match event {
            SessionEvent::Authenticated => event@ == SessionEventView::Authenticated,
            SessionEvent::AuthFailed(text) => event@ == SessionEventView::AuthFailed(text@),
            SessionEvent::Received(None) => event@ == SessionEventView::Received(None),
            SessionEvent::Received(Some(message)) => event@ == SessionEventView::Received(
                Some(message@),
            ),
            SessionEvent::Bound(port) => event@ == SessionEventView::Bound(port),
            SessionEvent::BindFailed(failure) => event@ == SessionEventView::BindFailed(failure),
            SessionEvent::Sent => event@ == SessionEventView::Sent,
            SessionEvent::TimedOut => event@ == SessionEventView::TimedOut,
            SessionEvent::Accepted(ticket) => event@ == SessionEventView::Accepted(ticket),
            SessionEvent::Scheduled => event@ == SessionEventView::Scheduled,
            SessionEvent::Flushed => event@ == SessionEventView::Flushed,
            SessionEvent::Proxied => event@ == SessionEventView::Proxied,
            SessionEvent::Failed => event@ == SessionEventView::Failed,
        },
{
}

/// The view of an action shows all that the program is to do.
pub proof fn law_session_actions_are_shown(action: SessionAction)
    ensures
        match action {
            SessionAction::Authenticate(secret) => action@ == SessionActionView::Authenticate(
                secret@,
            ),
            SessionAction::Receive => action@ == SessionActionView::Receive,
            SessionAction::Bind { host, port } => action@ == (SessionActionView::Bind {
                host: host@,
                port,
            }),
            SessionAction::Send(message) => action@ == SessionActionView::Send(message@),
            SessionAction::Accept { timeout_ms } => action@ == (SessionActionView::Accept {
                timeout_ms,
            }),
            SessionAction::Schedule { id, after_secs, displaced } => action@ == (
            SessionActionView::Schedule { id, after_secs, displaced }),
            SessionAction::Flush(ticket) => action@ == SessionActionView::Flush(ticket),
            SessionAction::Proxy(ticket) => action@ == SessionActionView::Proxy(ticket),
            SessionAction::Finish(ending) => action@ == SessionActionView::Finish(ending),
            SessionAction::Abort => action@ == SessionActionView::Abort,
        },
{
}

} // verus!
