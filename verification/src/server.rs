//! The server: which ports it opens, and the connections that wait for a client.
use std::ops::RangeInclusive;

use dashmap::DashMap;
use vstd::prelude::*;

use crate::random::random_port;
use crate::random::has_port;
use crate::registry::parked;
use crate::registry::{empty_registry, registry_insert, registry_remove};
use crate::shared::CONTROL_PORT;
use crate::text::{clone_opt, own_opt};
use crate::text::{view_opt, view_opt_str};

verus! {

/// How many random ports are tried before a client that named none is refused.
/// With 85% of the ports taken, a free one is still found more than 99.999% of
/// the time.
pub const BIND_ATTEMPTS: u8 = 150;

/// The state of a server.
pub struct Server {
    bind_ip: String,
    port_range: RangeInclusive<u16>,
    auth: Option<String>,
    conns: DashMap<u128, u64>,
}

/// What a `Server` holds.
#[verifier::ext_equal]
pub struct ServerView {
    /// The address to bind to where the client names none.
    pub bind_ip: Seq<char>,
    /// The lowest port that may be opened.
    pub min_port: u16,
    /// The highest port that may be opened.
    pub max_port: u16,
    /// The secret that clients have to know.
    pub auth: Option<Seq<char>>,
    /// For each connection that waits, the ticket of its socket.
    pub parked: Map<u128, u64>,
}

impl ServerView {
    /// Whether the server may open `port`.
    pub open spec fn allows(self, port: u16) -> bool {
        self.min_port <= port <= self.max_port
    }

    /// The address to bind to for a client that asks for `bind_ip`.
    pub open spec fn host(self, bind_ip: Option<Seq<char>>) -> Seq<char> {
        match bind_ip {
            Some(ip) => ip,
            None => self.bind_ip,
        }
    }
}

impl View for Server {
    type V = ServerView;

    closed spec fn view(&self) -> ServerView {
        ServerView {
            bind_ip: self.bind_ip@,
            min_port: self.port_range@.start,
            max_port: self.port_range@.end,
            auth: view_opt(self.auth),
            parked: parked(self.conns),
        }
    }
}

/// What can go wrong when a port is bound.
#[derive(Clone, Copy, Debug, PartialEq, Eq, Structural)]
pub enum BindFailure {
    AddrInUse,
    PermissionDenied,
    Other,
}

/// Why a client gets no listener.
#[derive(Clone, Copy, Debug, PartialEq, Eq, Structural)]
pub enum ListenerError {
    /// The port that the client named is not one of the server.
    NotAllowed,
    /// The port that the client named could not be bound.
    Bind(BindFailure),
    /// None of the random ports could be bound.
    NoFreePort,
}

/// The text that a refused client is sent.
pub open spec fn listener_error_text(error: ListenerError) -> Seq<char> {
    match error {
        ListenerError::NotAllowed => "client port number not in allowed range"@,
        ListenerError::Bind(BindFailure::AddrInUse) => "port already in use"@,
        ListenerError::Bind(BindFailure::PermissionDenied) => "permission denied"@,
        ListenerError::Bind(BindFailure::Other) => "failed to bind to port"@,
        ListenerError::NoFreePort => "failed to find an available port"@,
    }
}

impl ListenerError {
    /// The text that a refused client is sent.
    pub fn message(&self) -> (r: &'static str)
        ensures
            r@ == listener_error_text(*self),
    {
        match self {
            ListenerError::NotAllowed => "client port number not in allowed range",
            ListenerError::Bind(BindFailure::AddrInUse) => "port already in use",
            ListenerError::Bind(BindFailure::PermissionDenied) => "permission denied",
            ListenerError::Bind(BindFailure::Other) => "failed to bind to port",
            ListenerError::NoFreePort => "failed to find an available port",
        }
    }
}

/// A listener that is being opened: the address, and how many more random ports
/// may be tried (`None` where the client named the port).
pub struct Search {
    host: String,
    left: Option<u8>,
}

/// What a `Search` holds.
#[verifier::ext_equal]
pub struct SearchView {
    pub host: Seq<char>,
    pub left: Option<u8>,
}

impl View for Search {
    type V = SearchView;

    closed spec fn view(&self) -> SearchView {
        SearchView { host: self.host@, left: self.left }
    }
}

/// What opening a listener starts with: the search and the port to bind first, or
/// a refusal. `drawn` is the random port for a client that named none.
pub open spec fn search_start(
    server: ServerView,
    bind_ip: Option<Seq<char>>,
    port: u16,
    drawn: u16,
) -> Result<(SearchView, u16), ListenerError> {
    if port == 0 {
        Ok((SearchView { host: server.host(bind_ip), left: Some((BIND_ATTEMPTS - 1) as u8) }, drawn))
    } else if server.allows(port) {
        Ok((SearchView { host: server.host(bind_ip), left: None }, port))
    } else {
        Err(ListenerError::NotAllowed)
    }
}

/// What follows a port that could not be bound: another random port to bind, or a
/// refusal.
pub open spec fn search_next(
    search: SearchView,
    failure: BindFailure,
    drawn: u16,
) -> Result<(SearchView, u16), ListenerError> {
    match search.left {
        None => Err(ListenerError::Bind(failure)),
        Some(left) => if left == 0 {
            Err(ListenerError::NoFreePort)
        } else {
            Ok((SearchView { host: search.host, left: Some((left - 1) as u8) }, drawn))
        },
    }
}

/// The outcome of a step of a search, in the terms of its view.
pub open spec fn search_view(r: Result<(Search, u16), ListenerError>) -> Result<
    (SearchView, u16),
    ListenerError,
> {
    match r {
        Ok((search, port)) => Ok((search@, port)),
        Err(error) => Err(error),
    }
}

impl Search {
    /// The address to bind to.
    pub fn host(&self) -> (r: String)
        ensures
            r@ == self@.host,
    {
        self.host.clone()
    }

    /// Whether the next failure leads to another random port.
    pub fn draws_again(&self) -> (r: bool)
        ensures
            r == (self@.left matches Some(left) && left > 0),
    {
        match self.left {
            Some(left) => left > 0,
            None => false,
        }
    }

    /// Goes on after a port that could not be bound; `drawn` is the next one to try,
    /// where another is tried.
    pub fn retry(self, failure: BindFailure, drawn: u16) -> (r: Result<
        (Search, u16),
        ListenerError,
    >)
        ensures
            search_view(r) == search_next(self@, failure, drawn),
    {
        match self.left {
            None => Err(ListenerError::Bind(failure)),
            Some(left) => if left == 0 {
                Err(ListenerError::NoFreePort)
            } else {
                Ok((Search { host: self.host, left: Some(left - 1) }, drawn))
            },
        }
    }
}

/// What happens to the server's own socket.
#[derive(Clone, Copy, Debug, PartialEq, Eq, Structural)]
pub enum ListenEvent {
    /// The server is to start.
    Start,
    /// The control port was bound.
    Bound,
    /// A control connection came in.
    Accepted,
    /// Binding or accepting failed.
    Failed,
}

/// What the program does next with the server's own socket.
#[derive(Clone, Copy, Debug, PartialEq, Eq, Structural)]
pub enum ListenAction {
    /// Bind to the IPv4 address with these 32 bits and to this port.
    Bind { ip: u32, port: u16 },
    /// Wait for a control connection.
    Accept,
    /// Serve the connection that came in on a task of its own, and wait for the
    /// next one.
    Serve,
    /// Give up, with the error that came.
    Abort,
}

/// What the program does next with the server's own socket.
pub open spec fn listen_action(event: ListenEvent) -> ListenAction {
    match event {
        ListenEvent::Start => ListenAction::Bind { ip: 0, port: CONTROL_PORT },
        ListenEvent::Bound => ListenAction::Accept,
        ListenEvent::Accepted => ListenAction::Serve,
        ListenEvent::Failed => ListenAction::Abort,
    }
}

impl Server {
    /// Whether the server has a port to open.
    pub closed spec fn wf(&self) -> bool {
        has_port(self.port_range)
    }

    /// A well-formed server has a port to open.
    pub proof fn law_has_a_port(&self)
        requires
            self.wf(),
        ensures
            self@.min_port <= self@.max_port,
    {
    }

    /// Makes a server with no connection waiting. It binds to `127.0.0.1` where it
    /// is given no address.
    pub fn new(
        bind_ip: Option<&str>,
        port_range: RangeInclusive<u16>,
        secret: Option<&str>,
    ) -> (r: Server)
        requires
            has_port(port_range),
        ensures
            r.wf(),
            r@ == (ServerView {
                bind_ip: match bind_ip {
                    Some(ip) => ip@,
                    None => "127.0.0.1"@,
                },
                min_port: port_range@.start,
                max_port: port_range@.end,
                auth: view_opt_str(secret),
                parked: Map::empty(),
            }),
    {
        Server {
            bind_ip: bind_ip.unwrap_or("127.0.0.1").to_owned(),
            port_range,
            auth: own_opt(secret),
            conns: empty_registry(),
        }
    }

    /// The secret that clients have to know, if there is one.
    pub fn secret(&self) -> (r: Option<String>)
        ensures
            view_opt(r) == self@.auth,
    {
        clone_opt(&self.auth)
    }

    /// Takes control connections, on every address of the host, for as long as
    /// the socket works.
    pub fn listen(event: ListenEvent) -> (r: ListenAction)
        ensures
            r == listen_action(event),
            r == match event {
                ListenEvent::Start => ListenAction::Bind { ip: 0, port: CONTROL_PORT },
                ListenEvent::Bound => ListenAction::Accept,
                ListenEvent::Accepted => ListenAction::Serve,
                ListenEvent::Failed => ListenAction::Abort,
            },
    {
        match event {
            ListenEvent::Start => ListenAction::Bind { ip: 0, port: CONTROL_PORT },
            ListenEvent::Bound => ListenAction::Accept,
            ListenEvent::Accepted => ListenAction::Serve,
            ListenEvent::Failed => ListenAction::Abort,
        }
    }

    /// A port that the server may open, drawn by chance.
    pub fn draw_port(&self) -> (r: u16)
        requires
            self.wf(),
        ensures
            self@.allows(r),
    {
        random_port(&self.port_range)
    }

    /// Starts to open a listener for a client that asked for `port`; `drawn` is the
    /// first one to try where the client asked for any.
    pub fn create_listener(&self, bind_ip: Option<String>, port: u16, drawn: u16) -> (r: Result<
        (Search, u16),
        ListenerError,
    >)
        requires
            self.wf(),
        ensures
            search_view(r) == search_start(self@, view_opt(bind_ip), port, drawn),
    {
        if port > 0 && !self.port_range.contains(&port) {
            return Err(ListenerError::NotAllowed);
        }
        let host = match bind_ip {
            Some(ip) => ip,
            None => self.bind_ip.clone(),
        };
        if port > 0 {
            Ok((Search { host, left: None }, port))
        } else {
            Ok((Search { host, left: Some(BIND_ATTEMPTS - 1) }, drawn))
        }
    }

    /// Lets a connection wait under `id`. Hands back the ticket that stood under
    /// that id, if one did: its connection waits no longer.
    pub fn park(&mut self, id: u128, ticket: u64) -> (r: Option<u64>)
        requires
            old(self).wf(),
        ensures
            final(self).wf(),
            final(self)@ == (ServerView {
                parked: old(self)@.parked.insert(id, ticket),
                ..old(self)@
            }),
            r == old(self)@.parked.get(id),
    {
        registry_insert(&mut self.conns, id, ticket)
    }

    /// Takes the connection that waits under `id`, if one does.
    pub fn claim(&mut self, id: u128) -> (r: Option<u64>)
        requires
            old(self).wf(),
        ensures
            final(self).wf(),
            final(self)@ == (ServerView { parked: old(self)@.parked.remove(id), ..old(self)@ }),
            r == old(self)@.parked.get(id),
    {
        match registry_remove(&mut self.conns, id) {
            Some((_, ticket)) => Some(ticket),
            None => None,
        }
    }
}

/// A listener is opened at the address that the client names, and at that of the
/// server where it names none, on any server and for any port.
pub proof fn law_listener_is_opened_at_the_named_address(
    server: ServerView,
    ip: Seq<char>,
    port: u16,
    drawn: u16,
)
    ensures
        search_start(server, Some(ip), port, drawn) matches Ok((search, _)) ==> search.host == ip,
        search_start(server, None, port, drawn) matches Ok((search, _)) ==> search.host
            == server.bind_ip,
{
}

/// A listener is opened exactly for a client that names no port, or one from the
/// lowest to the highest of the server, whatever address it names. The port that it
/// names is the one that is bound, and is tried once; where it names none, the drawn
/// one is bound, and 149 more may be.
pub proof fn law_listener_is_opened_on_an_own_port(
    server: ServerView,
    bind_ip: Option<Seq<char>>,
    port: u16,
    drawn: u16,
)
    ensures
        search_start(server, bind_ip, port, drawn) is Ok <==> port == 0 || server.min_port <= port
            <= server.max_port,
        search_start(server, bind_ip, port, drawn) matches Err(error) ==> error
            == ListenerError::NotAllowed,
        search_start(server, bind_ip, port, drawn) matches Ok((search, bound)) ==> {
            &&& port > 0 ==> bound == port && search.left is None
            &&& port == 0 ==> bound == drawn && search.left == Some(149u8)
        },
        server.allows(port) <==> server.min_port <= port <= server.max_port,
{
}

/// A search goes on exactly where random ports are left, at the same address, with the
/// one drawn next and one less to go. A named port is given up with the failure that
/// came, and the last random one with the word that none was free.
pub proof fn law_search_goes_on_while_ports_are_left(
    search: SearchView,
    failure: BindFailure,
    drawn: u16,
)
    ensures
        search_next(search, failure, drawn) is Ok <==> search.left is Some && search.left->0 > 0,
        search_next(search, failure, drawn) matches Ok((next, port)) ==> {
            &&& next.host == search.host
            &&& next.left is Some && next.left->0 + 1 == search.left->0
            &&& port == drawn
        },
        search.left is None ==> search_next(search, failure, drawn) == Err::<(SearchView, u16), _>(
            ListenerError::Bind(failure),
        ),
        search.left == Some(0u8) ==> search_next(search, failure, drawn) == Err::<
            (SearchView, u16),
            _,
        >(ListenerError::NoFreePort),
{
}

/// Each refusal has its own text.
pub proof fn law_refusals_are_told_apart()
    ensures
        listener_error_text(ListenerError::NotAllowed)
            == "client port number not in allowed range"@,
        listener_error_text(ListenerError::Bind(BindFailure::AddrInUse)) == "port already in use"@,
        listener_error_text(ListenerError::Bind(BindFailure::PermissionDenied))
            == "permission denied"@,
        listener_error_text(ListenerError::Bind(BindFailure::Other)) == "failed to bind to port"@,
        listener_error_text(ListenerError::NoFreePort) == "failed to find an available port"@,
{
}

/// A server binds its control port on every address, then takes one connection after
/// the other and serves each, and gives up only where its socket fails.
pub proof fn law_server_listens_until_its_socket_fails(event: ListenEvent)
    ensures
        listen_action(ListenEvent::Start) == (ListenAction::Bind { ip: 0, port: CONTROL_PORT }),
        listen_action(ListenEvent::Bound) == ListenAction::Accept,
        listen_action(event) == ListenAction::Serve <==> event == ListenEvent::Accepted,
        listen_action(event) == ListenAction::Abort <==> event == ListenEvent::Failed,
{
}

/// The view of a step of a search shows the search, the port and the refusal.
pub proof fn law_searches_are_shown(found: Result<(Search, u16), ListenerError>)
    ensures
        match found {
            Ok((search, port)) => search_view(found) == Ok::<_, ListenerError>((search@, port)),
            Err(error) => search_view(found) == Err::<(SearchView, u16), _>(error),
        },
{
}

} // verus!
