//! What holds of a client and a server together.
use vstd::prelude::*;

use crate::client::{
    control_action, relay_start, relay_step, setup_step, ClientView, ControlActionView,
    ControlEventView, RelayActionView, RelayView, SetupActionView,
    SetupErrorView, SetupEventView, SetupView,
};
use crate::client::{RelayEvent, SetupStage};
use crate::server::{listener_error_text, SearchView, ServerView};
use crate::server::{BindFailure, ListenerError, BIND_ATTEMPTS};
use crate::session::Ending;
use crate::session::{
    session_awaits, session_start, session_step, SessionActionView, SessionEventView, SessionView,
};
use crate::shared::{ClientMessageView, ServerMessageView, CONTROL_PORT};

verus! {

/// A setup that is connected and, where the client has a secret, through the
/// handshake.
pub open spec fn setup_greets(setup: SetupView) -> (SetupView, SetupActionView) {
    let (connected, action) = setup_step(setup, SetupEventView::Connected);
    if setup.secret is Some {
        setup_step(connected, SetupEventView::Authenticated)
    } else {
        (connected, action)
    }
}

/// A relay that is connected and, where the client has a secret, through the
/// handshake.
pub open spec fn relay_accepts(client: ClientView, id: u128) -> (RelayView, RelayActionView) {
    let (connected, action) = relay_step(
        client,
        relay_start(client, id).0,
        RelayEvent::Connected,
    );
    if client.auth is Some {
        relay_step(client, connected, RelayEvent::Authenticated)
    } else {
        (connected, action)
    }
}

/// A session that is, where the server has a secret, through the handshake.
pub open spec fn session_hears(server: ServerView) -> (SessionView, SessionActionView) {
    let (session, action) = session_start(server);
    if server.auth is Some {
        let (_, session, action) = session_step(
            server,
            session,
            SessionEventView::Authenticated,
            0,
            0,
        );
        (session, action)
    } else {
        (session, action)
    }
}

/// What the server does on a request for a port that comes over a connection that
/// is through the handshake.
pub open spec fn request(
    server: ServerView,
    bind_ip: Option<Seq<char>>,
    port: u16,
    drawn: u16,
) -> (ServerView, SessionView, SessionActionView) {
    session_step(
        server,
        session_hears(server).0,
        SessionEventView::Received(Some(ClientMessageView::Hello(bind_ip, port))),
        drawn,
        0,
    )
}

/// How a setup that asked for a port ends on a reply of the server.
pub open spec fn reply(setup: SetupView, message: ServerMessageView) -> SetupActionView {
    setup_step(
        setup_step(setup_greets(setup).0, SetupEventView::Sent).0,
        SetupEventView::Received(Some(message)),
    ).1
}

/// A client connects to the control port of the server, and what it says first is
/// its request for a port, which the server is then ready to read. With a secret
/// on either side, that side runs the handshake before.
pub proof fn law_request_is_heard(setup: SetupView, server: ServerView)
    requires
        setup.stage == SetupStage::Connecting,
    ensures
        setup_greets(setup).1 == SetupActionView::Send(
            ClientMessageView::Hello(setup.bind_ip, setup.port),
        ),
        setup.secret matches Some(secret) ==> setup_step(setup, SetupEventView::Connected).1
            == SetupActionView::Authenticate(secret),
        session_hears(server) == (SessionView::Waiting, SessionActionView::Receive),
        server.auth matches Some(secret) ==> session_start(server).1
            == SessionActionView::Authenticate(secret),
{
}

/// A request for a port that the server allows, or for any port, makes it bind that
/// port, or a random one that it allows, at the address that the client named or
/// else at its own. When that succeeds, the client has exactly the port that was
/// opened.
pub proof fn law_client_has_the_opened_port(
    setup: SetupView,
    server: ServerView,
    drawn: u16,
    opened: u16,
)
    requires
        setup.stage == SetupStage::Connecting,
        setup.port == 0 || server.allows(setup.port),
        setup.port == 0 ==> server.allows(drawn),
    ensures
        ({
            let (after, session, action) = request(server, setup.bind_ip, setup.port, drawn);
            let bound = if setup.port == 0 {
                drawn
            } else {
                setup.port
            };
            &&& after == server
            &&& server.allows(bound)
            &&& action == SessionActionView::Bind { host: server.host(setup.bind_ip), port: bound }
            &&& session_step(server, session, SessionEventView::Bound(opened), 0, 0).2
                == SessionActionView::Send(ServerMessageView::Hello(opened))
        }),
        reply(setup, ServerMessageView::Hello(opened)) == SetupActionView::Ready(
            ClientView {
                to: setup.to,
                local_host: setup.local_host,
                local_port: setup.local_port,
                remote_port: opened,
                auth: setup.secret,
            },
        ),
{
}

/// A request for a port that the server does not allow binds nothing. The client is
/// told so, and gives up with what it was told.
pub proof fn law_port_out_of_range_is_refused(setup: SetupView, server: ServerView, drawn: u16)
    requires
        setup.stage == SetupStage::Connecting,
        setup.port > 0,
        !server.allows(setup.port),
    ensures
        ({
            let text = "client port number not in allowed range"@;
            let (after, session, action) = request(server, setup.bind_ip, setup.port, drawn);
            &&& after == server
            &&& action == SessionActionView::Send(ServerMessageView::Error(text))
            &&& session_step(server, session, SessionEventView::Sent, 0, 0).2
                == SessionActionView::Finish(Ending::Refused)
            &&& reply(setup, ServerMessageView::Error(text)) == SetupActionView::Refuse(
                SetupErrorView::ServerError(text),
            )
        }),
{
}

/// Where the port that a client named cannot be bound, no other is tried. The client
/// is told why, and gives up with what it was told.
pub proof fn law_port_that_cannot_be_bound_is_refused(
    setup: SetupView,
    server: ServerView,
    drawn: u16,
    failure: BindFailure,
)
    requires
        setup.stage == SetupStage::Connecting,
        setup.port > 0,
        server.allows(setup.port),
    ensures
        ({
            let text = listener_error_text(ListenerError::Bind(failure));
            let session = request(server, setup.bind_ip, setup.port, drawn).1;
            &&& session_step(server, session, SessionEventView::BindFailed(failure), drawn, 0).2
                == SessionActionView::Send(ServerMessageView::Error(text))
            &&& reply(setup, ServerMessageView::Error(text)) == SetupActionView::Refuse(
                SetupErrorView::ServerError(text),
            )
        }),
{
}

/// Where a session stands that was asked for any port at an address, and whose tries
/// failed one after the other; `drawn` holds the random ports.
pub open spec fn tries(
    server: ServerView,
    bind_ip: Option<Seq<char>>,
    drawn: Seq<u16>,
    failures: Seq<BindFailure>,
) -> (SessionView, SessionActionView)
    decreases failures.len(),
{
    if failures.len() == 0 {
        let (_, session, action) = request(server, bind_ip, 0, drawn[0]);
        (session, action)
    } else {
        let (_, session, action) = session_step(
            server,
            tries(server, bind_ip, drawn, failures.drop_last()).0,
            SessionEventView::BindFailed(failures.last()),
            drawn[failures.len() as int],
            0,
        );
        (session, action)
    }
}

/// A client that asks for any port is tried `BIND_ATTEMPTS` random ports for, one
/// after the other, whatever the failures are. When all have failed, it is told that
/// none was found.
pub proof fn law_random_ports_are_tried_to_the_last(
    server: ServerView,
    bind_ip: Option<Seq<char>>,
    drawn: Seq<u16>,
    failures: Seq<BindFailure>,
)
    requires
        failures.len() <= BIND_ATTEMPTS,
    ensures
        failures.len() < BIND_ATTEMPTS ==> tries(server, bind_ip, drawn, failures).1 == (
        SessionActionView::Bind {
            host: server.host(bind_ip),
            port: drawn[failures.len() as int],
        }),
        failures.len() == BIND_ATTEMPTS ==> tries(server, bind_ip, drawn, failures).1
            == SessionActionView::Send(
            ServerMessageView::Error("failed to find an available port"@),
        ),
{
    lemma_tries_left(server, bind_ip, drawn, failures);
    if failures.len() > 0 {
        lemma_tries_left(server, bind_ip, drawn, failures.drop_last());
    }
}

proof fn lemma_tries_left(
    server: ServerView,
    bind_ip: Option<Seq<char>>,
    drawn: Seq<u16>,
    failures: Seq<BindFailure>,
)
    ensures
        failures.len() < BIND_ATTEMPTS ==> tries(server, bind_ip, drawn, failures).0
            == SessionView::Binding(
            SearchView {
                host: server.host(bind_ip),
                left: Some((BIND_ATTEMPTS - 1 - failures.len()) as u8),
            },
        ),
    decreases failures.len(),
{
    if failures.len() > 0 {
        lemma_tries_left(server, bind_ip, drawn, failures.drop_last());
    }
}

/// A client without a secret that is sent a challenge gives up, and says that the
/// server requires one.
pub proof fn law_challenge_without_secret_is_refused(setup: SetupView, challenge: u128)
    requires
        setup.stage == SetupStage::Connecting,
        setup.secret is None,
    ensures
        reply(setup, ServerMessageView::Challenge(challenge)) == SetupActionView::Refuse(
            SetupErrorView::SecretRequired,
        ),
{
}

/// A connection that comes in is named, waits, and is announced under its name; the
/// client then asks for it by that name, on a connection of its own.
pub proof fn law_connection_is_announced_and_asked_for(
    client: ClientView,
    server: ServerView,
    ticket: u64,
    id: u128,
)
    ensures
        ({
            let (after, session, action) = session_step(
                server,
                SessionView::Accepting,
                SessionEventView::Accepted(ticket),
                0,
                id,
            );
            &&& after.parked.get(id) == Some(ticket)
            &&& action is Schedule
            &&& session_step(after, session, SessionEventView::Scheduled, 0, 0).2
                == SessionActionView::Send(ServerMessageView::Connection(id))
        }),
        control_action(ControlEventView::Received(Some(ServerMessageView::Connection(id))))
            == ControlActionView::Forward(id),
        relay_start(client, id).1 == (RelayActionView::ConnectRemote {
            host: client.to,
            port: CONTROL_PORT,
        }),
        relay_accepts(client, id).1 == RelayActionView::Send(ClientMessageView::Accept(id)),
{
}

/// What the server does for a client that asks for a connection, on a control
/// connection that is through the handshake.
pub open spec fn ask(server: ServerView, id: u128) -> (ServerView, SessionView, SessionActionView) {
    session_step(
        server,
        session_hears(server).0,
        SessionEventView::Received(Some(ClientMessageView::Accept(id))),
        0,
        0,
    )
}

/// Whoever asks for a connection that waits gets the socket that was parked under
/// its name, and bytes are passed between the two until that ends; the connection
/// waits no longer. The client passes them on to the host and port that it exposes.
pub proof fn law_asked_connection_is_served(
    client: ClientView,
    server: ServerView,
    ticket: u64,
    id: u128,
)
    requires
        server.parked.get(id) == Some(ticket),
    ensures
        ({
            let (after, flushing, flush) = ask(server, id);
            let (_, proxying, proxy) = session_step(
                after,
                flushing,
                SessionEventView::Flushed,
                0,
                0,
            );
            &&& after == (ServerView { parked: server.parked.remove(id), ..server })
            &&& flush == SessionActionView::Flush(ticket)
            &&& proxy == SessionActionView::Proxy(ticket)
            &&& session_step(after, proxying, SessionEventView::Proxied, 0, 0).2
                == SessionActionView::Finish(Ending::Forwarded)
        }),
        ({
            let (local, connect) = relay_step(
                client,
                relay_accepts(client, id).0,
                RelayEvent::Sent,
            );
            let (flushing, flush) = relay_step(client, local, RelayEvent::Connected);
            let (proxying, proxy) = relay_step(client, flushing, RelayEvent::Flushed);
            &&& connect == (RelayActionView::ConnectLocal {
                host: client.local_host,
                port: client.local_port,
            })
            &&& flush is Flush
            &&& proxy is Proxy
            &&& relay_step(client, proxying, RelayEvent::Proxied).1 is Finish
        }),
{
}

/// A connection is served at most once: who asks for one that was asked for before,
/// or that was removed because nobody did, is served nothing.
pub proof fn law_connection_is_served_once(server: ServerView, id: u128)
    ensures
        ask(ask(server, id).0, id).2 == SessionActionView::Finish(Ending::MissingConnection),
        ask(ServerView { parked: server.parked.remove(id), ..server }, id).2
            == SessionActionView::Finish(Ending::MissingConnection),
{
}

/// Whatever happens on a control connection, the server keeps its address, its ports
/// and its secret, and every waiting connection but the one that came in or was
/// asked for.
pub proof fn law_other_connections_are_kept(
    server: ServerView,
    session: SessionView,
    event: SessionEventView,
    drawn: u16,
    id: u128,
    other: u128,
)
    requires
        session_awaits(session, event),
        event is Accepted ==> other != id,
        event matches SessionEventView::Received(Some(ClientMessageView::Accept(asked)))
            ==> other != asked,
    ensures
        ({
            let after = session_step(server, session, event, drawn, id).0;
            &&& after.bind_ip == server.bind_ip
            &&& after.min_port == server.min_port
            &&& after.max_port == server.max_port
            &&& after.auth == server.auth
            &&& after.parked.get(other) == server.parked.get(other)
        }),
{
}

} // verus!
