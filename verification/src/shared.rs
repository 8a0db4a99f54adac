//! What the two sides say to each other on a control connection.
use vstd::prelude::*;

use crate::text::view_opt;

verus! {

/// The TCP port on which a server takes control connections.
pub const CONTROL_PORT: u16 = 7835;

/// A message from the client to the server. A connection is named by the 128 bits
/// of its UUID.
#[derive(Debug)]
pub enum ClientMessage {
    /// The answer to a challenge.
    Authenticate(String),
    /// Asks for a port (0 for any), bound to an address or to that of the server.
    Hello(Option<String>, u16),
    /// Takes over a connection that the server announced.
    Accept(u128),
}

/// What a `ClientMessage` holds.
pub enum ClientMessageView {
    Authenticate(Seq<char>),
    Hello(Option<Seq<char>>, u16),
    Accept(u128),
}

impl View for ClientMessage {
    type V = ClientMessageView;

    open spec fn view(&self) -> ClientMessageView {
        match self {
            ClientMessage::Authenticate(tag) => ClientMessageView::Authenticate(tag@),
            ClientMessage::Hello(bind_ip, port) => ClientMessageView::Hello(
                view_opt(*bind_ip),
                *port,
            ),
            ClientMessage::Accept(id) => ClientMessageView::Accept(*id),
        }
    }
}

/// A message from the server to the client.
#[derive(Debug)]
pub enum ServerMessage {
    /// A challenge to answer before anything else is heard.
    Challenge(u128),
    /// The port that was opened.
    Hello(u16),
    /// Shows that the server is there.
    Heartbeat,
    /// A connection came in.
    Connection(u128),
    /// The request was refused.
    Error(String),
}

/// What a `ServerMessage` holds.
pub enum ServerMessageView {
    Challenge(u128),
    Hello(u16),
    Heartbeat,
    Connection(u128),
    Error(Seq<char>),
}

impl View for ServerMessage {
    type V = ServerMessageView;

    open spec fn view(&self) -> ServerMessageView {
        match self {
            ServerMessage::Challenge(id) => ServerMessageView::Challenge(*id),
            ServerMessage::Hello(port) => ServerMessageView::Hello(*port),
            ServerMessage::Heartbeat => ServerMessageView::Heartbeat,
            ServerMessage::Connection(id) => ServerMessageView::Connection(*id),
            ServerMessage::Error(message) => ServerMessageView::Error(message@),
        }
    }
}

/// What was received, if anything was.
pub open spec fn client_message_opt(m: Option<ClientMessage>) -> Option<ClientMessageView> {
    match m {
        Some(m) => Some(m@),
        None => None,
    }
}

/// What was received, if anything was.
pub open spec fn server_message_opt(m: Option<ServerMessage>) -> Option<ServerMessageView> {
    match m {
        Some(m) => Some(m@),
        None => None,
    }
}

/// The view of a message shows all that the message says.
pub proof fn law_messages_are_shown(client: ClientMessage, server: ServerMessage)
    ensures
        match client {
            ClientMessage::Authenticate(tag) => client@ == ClientMessageView::Authenticate(tag@),
            ClientMessage::Hello(None, port) => client@ == ClientMessageView::Hello(None, port),
            ClientMessage::Hello(Some(ip), port) => client@ == ClientMessageView::Hello(
                Some(ip@),
                port,
            ),
            ClientMessage::Accept(id) => client@ == ClientMessageView::Accept(id),
        },
        match server {
            ServerMessage::Challenge(id) => server@ == ServerMessageView::Challenge(id),
            ServerMessage::Hello(port) => server@ == ServerMessageView::Hello(port),
            ServerMessage::Heartbeat => server@ == ServerMessageView::Heartbeat,
            ServerMessage::Connection(id) => server@ == ServerMessageView::Connection(id),
            ServerMessage::Error(message) => server@ == ServerMessageView::Error(message@),
        },
        client_message_opt(Some(client)) == Some(client@),
        client_message_opt(None) == None::<ClientMessageView>,
        server_message_opt(Some(server)) == Some(server@),
        server_message_opt(None) == None::<ServerMessageView>,
{
}

} // verus!
