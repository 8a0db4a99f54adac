//! The client: how it gets a port of the server, and how it takes connections over.
use vstd::prelude::*;

use crate::shared::{server_message_opt, ClientMessageView, ServerMessageView};
use crate::shared::{ClientMessage, ServerMessage, CONTROL_PORT};
use crate::text::{clone_opt, decimal_string, own_opt};
use crate::text::{decimal, view_opt, view_opt_str};

verus! {

/// The state of a client that has a port of the server.
pub struct Client {
    to: String,
    local_host: String,
    local_port: u16,
    remote_port: u16,
    auth: Option<String>,
}

/// What a `Client` holds.
#[verifier::ext_equal]
pub struct ClientView {
    /// The address of the server.
    pub to: Seq<char>,
    /// The host that is exposed.
    pub local_host: Seq<char>,
    /// The port that is exposed.
    pub local_port: u16,
    /// The port of the server at which it is exposed.
    pub remote_port: u16,
    /// The secret that the server asks for.
    pub auth: Option<Seq<char>>,
}

impl View for Client {
    type V = ClientView;

    closed spec fn view(&self) -> ClientView {
        ClientView {
            to: self.to@,
            local_host: self.local_host@,
            local_port: self.local_port,
            remote_port: self.remote_port,
            auth: view_opt(self.auth),
        }
    }
}

/// Why a server gives no port.
#[derive(Debug)]
pub enum SetupError {
    /// The server said why.
    ServerError(String),
    /// The server wants a secret, and none was given.
    SecretRequired,
    /// The server said something else.
    UnexpectedMessage,
    /// The server hung up.
    UnexpectedEof,
}

/// What a `SetupError` holds.
pub enum SetupErrorView {
    ServerError(Seq<char>),
    SecretRequired,
    UnexpectedMessage,
    UnexpectedEof,
}

impl View for SetupError {
    type V = SetupErrorView;

    open spec fn view(&self) -> SetupErrorView {
        match self {
            SetupError::ServerError(message) => SetupErrorView::ServerError(message@),
            SetupError::SecretRequired => SetupErrorView::SecretRequired,
            SetupError::UnexpectedMessage => SetupErrorView::UnexpectedMessage,
            SetupError::UnexpectedEof => SetupErrorView::UnexpectedEof,
        }
    }
}

impl SetupErrorView {
    /// The text of the error.
    pub open spec fn message(self) -> Seq<char> {
        match self {
            SetupErrorView::ServerError(message) => "server error: "@ + message,
            SetupErrorView::SecretRequired =>
                "server requires authentication, but no client secret was provided"@,
            SetupErrorView::UnexpectedMessage => "unexpected initial non-hello message"@,
            SetupErrorView::UnexpectedEof => "unexpected EOF"@,
        }
    }
}

impl SetupError {
    /// The text of the error.
    pub fn message(&self) -> (r: String)
        ensures
            r@ == self@.message(),
    {
        match self {
            SetupError::ServerError(message) => "server error: ".to_owned().concat(
                message.as_str(),
            ),
            SetupError::SecretRequired =>
                "server requires authentication, but no client secret was provided".to_owned(),
            SetupError::UnexpectedMessage => "unexpected initial non-hello message".to_owned(),
            SetupError::UnexpectedEof => "unexpected EOF".to_owned(),
        }
    }
}

/// The text that goes with the error of a connection that could not be made.
pub open spec fn connect_error_text(to: Seq<char>, port: u16) -> Seq<char> {
    "could not connect to "@ + to + ":"@ + decimal(port as nat)
}

/// The text that goes with the error of a connection that could not be made.
pub fn connect_error(to: &str, port: u16) -> (r: String)
    ensures
        r@ == connect_error_text(to@, port),
{
    "could not connect to ".to_owned().concat(to).concat(":").concat(
        decimal_string(port).as_str(),
    )
}

/// Where a setup stands: what was asked of the program last.
#[derive(Clone, Copy, Debug, PartialEq, Eq, Structural)]
pub enum SetupStage {
    /// The connection to the server is being made.
    Connecting,
    /// The handshake is on.
    Authenticating,
    /// The port is being asked for.
    Greeting,
    /// The reply is awaited.
    Waiting,
    /// Nothing is left to do.
    Done,
}

/// A client that asks the server for a port.
pub struct Setup {
    local_host: String,
    local_port: u16,
    to: String,
    port: u16,
    secret: Option<String>,
    bind_ip: Option<String>,
    stage: SetupStage,
}

/// What a `Setup` holds.
#[verifier::ext_equal]
pub struct SetupView {
    pub local_host: Seq<char>,
    pub local_port: u16,
    pub to: Seq<char>,
    pub port: u16,
    pub secret: Option<Seq<char>>,
    pub bind_ip: Option<Seq<char>>,
    pub stage: SetupStage,
}

impl View for Setup {
    type V = SetupView;

    closed spec fn view(&self) -> SetupView {
        SetupView {
            local_host: self.local_host@,
            local_port: self.local_port,
            to: self.to@,
            port: self.port,
            secret: view_opt(self.secret),
            bind_ip: view_opt(self.bind_ip),
            stage: self.stage,
        }
    }
}

/// How what was asked of the program came out.
#[derive(Debug)]
pub enum SetupEvent {
    /// The connection is there.
    Connected,
    /// The handshake succeeded.
    Authenticated,
    /// The message was sent.
    Sent,
    /// A message came, or the connection ended.
    Received(Option<ServerMessage>),
    /// It failed.
    Failed,
}

/// What a `SetupEvent` holds.
pub enum SetupEventView {
    Connected,
    Authenticated,
    Sent,
    Received(Option<ServerMessageView>),
    Failed,
}

impl View for SetupEvent {
    type V = SetupEventView;

    open spec fn view(&self) -> SetupEventView {
        match self {
            SetupEvent::Connected => SetupEventView::Connected,
            SetupEvent::Authenticated => SetupEventView::Authenticated,
            SetupEvent::Sent => SetupEventView::Sent,
            SetupEvent::Received(message) => SetupEventView::Received(
                server_message_opt(*message),
            ),
            SetupEvent::Failed => SetupEventView::Failed,
        }
    }
}

/// What the program does next for a setup.
pub enum SetupAction {
    /// Connect to a host, within the time that the network may take.
    Connect { host: String, port: u16 },
    /// Run the handshake with this secret.
    Authenticate(String),
    /// Send a message.
    Send(ClientMessage),
    /// Wait for a message, for as long as the network may take.
    Receive,
    /// Go on with this client.
    Ready(Client),
    /// Give up: the server gives no port.
    Refuse(SetupError),
    /// Give up, with the error that came.
    Abort,
}

/// What a `SetupAction` holds.
pub enum SetupActionView {
    Connect { host: Seq<char>, port: u16 },
    Authenticate(Seq<char>),
    Send(ClientMessageView),
    Receive,
    Ready(ClientView),
    Refuse(SetupErrorView),
    Abort,
}

impl View for SetupAction {
    type V = SetupActionView;

    open spec fn view(&self) -> SetupActionView {
        match self {
            SetupAction::Connect { host, port } => SetupActionView::Connect {
                host: host@,
                port: *port,
            },
            SetupAction::Authenticate(secret) => SetupActionView::Authenticate(secret@),
            SetupAction::Send(message) => SetupActionView::Send(message@),
            SetupAction::Receive => SetupActionView::Receive,
            SetupAction::Ready(client) => SetupActionView::Ready(client@),
            SetupAction::Refuse(error) => SetupActionView::Refuse(error@),
            SetupAction::Abort => SetupActionView::Abort,
        }
    }
}

/// Whether an event is an outcome of what was asked last.
pub open spec fn setup_awaits(stage: SetupStage, event: SetupEventView) -> bool {
    match stage {
        SetupStage::Connecting => event is Connected || event is Failed,
        SetupStage::Authenticating => event is Authenticated || event is Failed,
        SetupStage::Greeting => event is Sent || event is Failed,
        SetupStage::Waiting => event is Received || event is Failed,
        SetupStage::Done => false,
    }
}

/// How a setup starts: with a connection to the control port of the server.
pub open spec fn setup_start(
    local_host: Seq<char>,
    local_port: u16,
    to: Seq<char>,
    port: u16,
    secret: Option<Seq<char>>,
    bind_ip: Option<Seq<char>>,
) -> (SetupView, SetupActionView) {
    (
        SetupView {
            local_host,
            local_port,
            to,
            port,
            secret,
            bind_ip,
            stage: SetupStage::Connecting,
        },
        SetupActionView::Connect { host: to, port: CONTROL_PORT },
    )
}

/// What the reply of the server to the request for a port leads to.
pub open spec fn setup_reply(setup: SetupView, reply: Option<ServerMessageView>) -> SetupActionView {
    match reply {
        Some(ServerMessageView::Hello(remote_port)) => SetupActionView::Ready(
            ClientView {
                to: setup.to,
                local_host: setup.local_host,
                local_port: setup.local_port,
                remote_port,
                auth: setup.secret,
            },
        ),
        Some(ServerMessageView::Error(message)) => SetupActionView::Refuse(
            SetupErrorView::ServerError(message),
        ),
        Some(ServerMessageView::Challenge(_)) => SetupActionView::Refuse(
            SetupErrorView::SecretRequired,
        ),
        Some(_) => SetupActionView::Refuse(SetupErrorView::UnexpectedMessage),
        None => SetupActionView::Refuse(SetupErrorView::UnexpectedEof),
    }
}

/// What an awaited event does to a setup, and what the program does next.
pub open spec fn setup_step(setup: SetupView, event: SetupEventView) -> (
    SetupView,
    SetupActionView,
) {
    let greet = (
        SetupView { stage: SetupStage::Greeting, ..setup },
        SetupActionView::Send(ClientMessageView::Hello(setup.bind_ip, setup.port)),
    );
    match (setup.stage, event) {
        (SetupStage::Connecting, SetupEventView::Connected) => match setup.secret {
            Some(secret) => (
                SetupView { stage: SetupStage::Authenticating, ..setup },
                SetupActionView::Authenticate(secret),
            ),
            None => greet,
        },
        (SetupStage::Authenticating, SetupEventView::Authenticated) => greet,
        (SetupStage::Greeting, SetupEventView::Sent) => (
            SetupView { stage: SetupStage::Waiting, ..setup },
            SetupActionView::Receive,
        ),
        (SetupStage::Waiting, SetupEventView::Received(reply)) => (
            SetupView { stage: SetupStage::Done, ..setup },
            setup_reply(setup, reply),
        ),
        (_, _) => (SetupView { stage: SetupStage::Done, ..setup }, SetupActionView::Abort),
    }
}

impl Setup {
    /// Whether an event is an outcome of what was asked last.
    pub fn awaits(&self, event: &SetupEvent) -> (r: bool)
        ensures
            r == setup_awaits(self@.stage, event@),
    {
        match (self.stage, event) {
            (SetupStage::Connecting, SetupEvent::Connected) => true,
            (SetupStage::Authenticating, SetupEvent::Authenticated) => true,
            (SetupStage::Greeting, SetupEvent::Sent) => true,
            (SetupStage::Waiting, SetupEvent::Received(_)) => true,
            (SetupStage::Done, _) => false,
            (_, SetupEvent::Failed) => true,
            (_, _) => false,
        }
    }

    /// The request for a port.
    fn hello(&self) -> (r: SetupAction)
        ensures
            r@ == SetupActionView::Send(ClientMessageView::Hello(self@.bind_ip, self@.port)),
    {
        SetupAction::Send(ClientMessage::Hello(clone_opt(&self.bind_ip), self.port))
    }

    /// Acts on the reply of the server to the request for a port.
    fn reply(&self, reply: Option<ServerMessage>) -> (r: SetupAction)
        ensures
            r@ == setup_reply(self@, server_message_opt(reply)),
    {
        match reply {
            Some(ServerMessage::Hello(remote_port)) => SetupAction::Ready(
                Client {
                    to: self.to.clone(),
                    local_host: self.local_host.clone(),
                    local_port: self.local_port,
                    remote_port,
                    auth: clone_opt(&self.secret),
                },
            ),
            Some(ServerMessage::Error(message)) => SetupAction::Refuse(
                SetupError::ServerError(message),
            ),
            Some(ServerMessage::Challenge(_)) => SetupAction::Refuse(SetupError::SecretRequired),
            Some(_) => SetupAction::Refuse(SetupError::UnexpectedMessage),
            None => SetupAction::Refuse(SetupError::UnexpectedEof),
        }
    }

    /// Takes an awaited event and says what the program does next.
    pub fn step(&mut self, event: SetupEvent) -> (r: SetupAction)
        requires
            setup_awaits(old(self)@.stage, event@),
        ensures
            (final(self)@, r@) == setup_step(old(self)@, event@),
    {
        match (self.stage, event) {
            (SetupStage::Connecting, SetupEvent::Connected) => match clone_opt(&self.secret) {
                Some(secret) => {
                    self.stage = SetupStage::Authenticating;
                    SetupAction::Authenticate(secret)
                },
                None => {
                    self.stage = SetupStage::Greeting;
                    self.hello()
                },
            },
            (SetupStage::Authenticating, SetupEvent::Authenticated) => {
                self.stage = SetupStage::Greeting;
                self.hello()
            },
            (SetupStage::Greeting, SetupEvent::Sent) => {
                self.stage = SetupStage::Waiting;
                SetupAction::Receive
            },
            (SetupStage::Waiting, SetupEvent::Received(reply)) => {
                self.stage = SetupStage::Done;
                self.reply(reply)
            },
            (_, _) => {
                self.stage = SetupStage::Done;
                SetupAction::Abort
            },
        }
    }
}

/// What comes over the control connection of a client that has its port.
#[derive(Debug)]
pub enum ControlEvent {
    /// A message came, or the connection ended.
    Received(Option<ServerMessage>),
    /// Receiving failed, or took too long.
    Failed,
}

/// What the program does next on the control connection of a client. After
/// anything but `Exit` and `Abort` it waits for the next message.
#[derive(Debug)]
pub enum ControlAction {
    /// Warn of a second hello.
    WarnHello,
    /// Warn of a challenge.
    WarnChallenge,
    /// Do nothing.
    Ignore,
    /// Take the connection of this id over, on a task of its own.
    Forward(u128),
    /// Report the error of the server.
    ReportError(String),
    /// Warn that the server is gone, and end the program with this status.
    Exit(i32),
    /// Give up, with the error that came.
    Abort,
}

/// What a `ControlEvent` holds.
pub enum ControlEventView {
    Received(Option<ServerMessageView>),
    Failed,
}

/// What a `ControlAction` holds.
pub enum ControlActionView {
    WarnHello,
    WarnChallenge,
    Ignore,
    Forward(u128),
    ReportError(Seq<char>),
    Exit(i32),
    Abort,
}

impl View for ControlEvent {
    type V = ControlEventView;

    open spec fn view(&self) -> ControlEventView {
        match self {
            ControlEvent::Received(message) => ControlEventView::Received(
                server_message_opt(*message),
            ),
            ControlEvent::Failed => ControlEventView::Failed,
        }
    }
}

impl View for ControlAction {
    type V = ControlActionView;

    open spec fn view(&self) -> ControlActionView {
        match self {
            ControlAction::WarnHello => ControlActionView::WarnHello,
            ControlAction::WarnChallenge => ControlActionView::WarnChallenge,
            ControlAction::Ignore => ControlActionView::Ignore,
            ControlAction::Forward(id) => ControlActionView::Forward(*id),
            ControlAction::ReportError(message) => ControlActionView::ReportError(message@),
            ControlAction::Exit(status) => ControlActionView::Exit(*status),
            ControlAction::Abort => ControlActionView::Abort,
        }
    }
}

/// What a message on the control connection leads to.
pub open spec fn control_action(event: ControlEventView) -> ControlActionView {
    match event {
        ControlEventView::Failed => ControlActionView::Abort,
        ControlEventView::Received(None) => ControlActionView::Exit(1),
        ControlEventView::Received(Some(message)) => match message {
            ServerMessageView::Hello(_) => ControlActionView::WarnHello,
            ServerMessageView::Challenge(_) => ControlActionView::WarnChallenge,
            ServerMessageView::Heartbeat => ControlActionView::Ignore,
            ServerMessageView::Connection(id) => ControlActionView::Forward(id),
            ServerMessageView::Error(message) => ControlActionView::ReportError(message),
        },
    }
}

/// Where a relay stands: what was asked of the program last.
#[derive(Clone, Copy, Debug, PartialEq, Eq, Structural)]
pub enum RelayStage {
    /// The connection to the server is being made.
    ConnectingRemote,
    /// The handshake is on.
    Authenticating,
    /// The connection is being taken over.
    Accepting,
    /// The connection to the local host is being made.
    ConnectingLocal,
    /// What was read ahead is being passed on.
    Flushing,
    /// Bytes are being passed in both directions.
    Proxying,
    /// Nothing is left to do.
    Done,
}

/// How what was asked of the program came out.
#[derive(Clone, Copy, Debug, PartialEq, Eq, Structural)]
pub enum RelayEvent {
    /// The connection is there.
    Connected,
    /// The handshake succeeded.
    Authenticated,
    /// The message was sent.
    Sent,
    /// What was read ahead is passed on.
    Flushed,
    /// The passing of bytes has ended.
    Proxied,
    /// It failed.
    Failed,
}

/// What the program does next for a relay.
#[derive(Debug)]
pub enum RelayAction {
    /// Connect to the server, within the time that the network may take.
    ConnectRemote { host: String, port: u16 },
    /// Run the handshake with this secret.
    Authenticate(String),
    /// Send a message to the server.
    Send(ClientMessage),
    /// Connect to the local host, within the time that the network may take.
    ConnectLocal { host: String, port: u16 },
    /// Write what was read ahead from the server to the local host.
    Flush,
    /// Pass bytes between the local host and the server.
    Proxy,
    /// End the relay.
    Finish,
    /// Give up, with the error that came.
    Abort,
}

/// What a `RelayAction` holds.
pub enum RelayActionView {
    ConnectRemote { host: Seq<char>, port: u16 },
    Authenticate(Seq<char>),
    Send(ClientMessageView),
    ConnectLocal { host: Seq<char>, port: u16 },
    Flush,
    Proxy,
    Finish,
    Abort,
}

impl View for RelayAction {
    type V = RelayActionView;

    open spec fn view(&self) -> RelayActionView {
        match self {
            RelayAction::ConnectRemote { host, port } => RelayActionView::ConnectRemote {
                host: host@,
                port: *port,
            },
            RelayAction::Authenticate(secret) => RelayActionView::Authenticate(secret@),
            RelayAction::Send(message) => RelayActionView::Send(message@),
            RelayAction::ConnectLocal { host, port } => RelayActionView::ConnectLocal {
                host: host@,
                port: *port,
            },
            RelayAction::Flush => RelayActionView::Flush,
            RelayAction::Proxy => RelayActionView::Proxy,
            RelayAction::Finish => RelayActionView::Finish,
            RelayAction::Abort => RelayActionView::Abort,
        }
    }
}

/// One connection that a client takes over.
pub struct Relay {
    id: u128,
    stage: RelayStage,
}

/// What a `Relay` holds.
#[verifier::ext_equal]
pub struct RelayView {
    pub id: u128,
    pub stage: RelayStage,
}

impl View for Relay {
    type V = RelayView;

    closed spec fn view(&self) -> RelayView {
        RelayView { id: self.id, stage: self.stage }
    }
}

/// Whether an event is an outcome of what was asked last.
pub open spec fn relay_awaits(stage: RelayStage, event: RelayEvent) -> bool {
    match stage {
        RelayStage::ConnectingRemote | RelayStage::ConnectingLocal => event is Connected
            || event is Failed,
        RelayStage::Authenticating => event is Authenticated || event is Failed,
        RelayStage::Accepting => event is Sent || event is Failed,
        RelayStage::Flushing => event is Flushed || event is Failed,
        RelayStage::Proxying => event is Proxied || event is Failed,
        RelayStage::Done => false,
    }
}

/// How a relay starts: with a connection of its own to the control port of the
/// server.
pub open spec fn relay_start(client: ClientView, id: u128) -> (RelayView, RelayActionView) {
    (
        RelayView { id, stage: RelayStage::ConnectingRemote },
        RelayActionView::ConnectRemote { host: client.to, port: CONTROL_PORT },
    )
}

/// What an awaited event does to a relay, and what the program does next.
pub open spec fn relay_step(client: ClientView, relay: RelayView, event: RelayEvent) -> (
    RelayView,
    RelayActionView,
) {
    let accept = (
        RelayView { stage: RelayStage::Accepting, ..relay },
        RelayActionView::Send(ClientMessageView::Accept(relay.id)),
    );
    match (relay.stage, event) {
        (RelayStage::ConnectingRemote, RelayEvent::Connected) => match client.auth {
            Some(secret) => (
                RelayView { stage: RelayStage::Authenticating, ..relay },
                RelayActionView::Authenticate(secret),
            ),
            None => accept,
        },
        (RelayStage::Authenticating, RelayEvent::Authenticated) => accept,
        (RelayStage::Accepting, RelayEvent::Sent) => (
            RelayView { stage: RelayStage::ConnectingLocal, ..relay },
            RelayActionView::ConnectLocal { host: client.local_host, port: client.local_port },
        ),
        (RelayStage::ConnectingLocal, RelayEvent::Connected) => (
            RelayView { stage: RelayStage::Flushing, ..relay },
            RelayActionView::Flush,
        ),
        (RelayStage::Flushing, RelayEvent::Flushed) => (
            RelayView { stage: RelayStage::Proxying, ..relay },
            RelayActionView::Proxy,
        ),
        (RelayStage::Proxying, RelayEvent::Proxied) => (
            RelayView { stage: RelayStage::Done, ..relay },
            RelayActionView::Finish,
        ),
        (_, _) => (RelayView { stage: RelayStage::Done, ..relay }, RelayActionView::Abort),
    }
}

impl Client {
    /// Starts to ask the server at `to` for `port` (0 for any), at which
    /// `local_port` of `local_host` is to be exposed.
    pub fn new(
        local_host: &str,
        local_port: u16,
        to: &str,
        port: u16,
        secret: Option<&str>,
        bind_ip: Option<&str>,
    ) -> (r: (Setup, SetupAction))
        ensures
            (r.0@, r.1@) == setup_start(
                local_host@,
                local_port,
                to@,
                port,
                view_opt_str(secret),
                view_opt_str(bind_ip),
            ),
    {
        (
            Setup {
                local_host: local_host.to_owned(),
                local_port,
                to: to.to_owned(),
                port,
                secret: own_opt(secret),
                bind_ip: own_opt(bind_ip),
                stage: SetupStage::Connecting,
            },
            SetupAction::Connect { host: to.to_owned(), port: CONTROL_PORT },
        )
    }

    /// The port of the server at which the local port is exposed.
    #[verifier::allow_in_spec]
    pub fn remote_port(&self) -> (r: u16)
        ensures
            r == self@.remote_port,
        returns
            self@.remote_port,
    {
        self.remote_port
    }

    /// Acts on what comes over the control connection.
    pub fn listen(event: ControlEvent) -> (r: ControlAction)
        ensures
            r@ == control_action(event@),
    {
        match event {
            ControlEvent::Failed => ControlAction::Abort,
            ControlEvent::Received(None) => ControlAction::Exit(1),
            ControlEvent::Received(Some(message)) => match message {
                ServerMessage::Hello(_) => ControlAction::WarnHello,
                ServerMessage::Challenge(_) => ControlAction::WarnChallenge,
                ServerMessage::Heartbeat => ControlAction::Ignore,
                ServerMessage::Connection(id) => ControlAction::Forward(id),
                ServerMessage::Error(message) => ControlAction::ReportError(message),
            },
        }
    }

    /// Starts to take over the connection that the server announced under `id`.
    pub fn handle_connection(&self, id: u128) -> (r: (Relay, RelayAction))
        ensures
            (r.0@, r.1@) == relay_start(self@, id),
    {
        (
            Relay { id, stage: RelayStage::ConnectingRemote },
            RelayAction::ConnectRemote { host: self.to.clone(), port: CONTROL_PORT },
        )
    }
}

impl Relay {
    /// Whether an event is an outcome of what was asked last.
    pub fn awaits(&self, event: RelayEvent) -> (r: bool)
        ensures
            r == relay_awaits(self@.stage, event),
    {
        match (self.stage, event) {
            (RelayStage::ConnectingRemote, RelayEvent::Connected) => true,
            (RelayStage::Authenticating, RelayEvent::Authenticated) => true,
            (RelayStage::Accepting, RelayEvent::Sent) => true,
            (RelayStage::ConnectingLocal, RelayEvent::Connected) => true,
            (RelayStage::Flushing, RelayEvent::Flushed) => true,
            (RelayStage::Proxying, RelayEvent::Proxied) => true,
            (RelayStage::Done, _) => false,
            (_, RelayEvent::Failed) => true,
            (_, _) => false,
        }
    }

    /// Takes an awaited event and says what the program does next.
    pub fn step(&mut self, client: &Client, event: RelayEvent) -> (r: RelayAction)
        requires
            relay_awaits(old(self)@.stage, event),
        ensures
            (final(self)@, r@) == relay_step(client@, old(self)@, event),
    {
        let (stage, action) = match (self.stage, event) {
            (RelayStage::ConnectingRemote, RelayEvent::Connected) => match clone_opt(
                &client.auth,
            ) {
                Some(secret) => (RelayStage::Authenticating, RelayAction::Authenticate(secret)),
                None => (
                    RelayStage::Accepting,
                    RelayAction::Send(ClientMessage::Accept(self.id)),
                ),
            },
            (RelayStage::Authenticating, RelayEvent::Authenticated) => (
                RelayStage::Accepting,
                RelayAction::Send(ClientMessage::Accept(self.id)),
            ),
            (RelayStage::Accepting, RelayEvent::Sent) => (
                RelayStage::ConnectingLocal,
                RelayAction::ConnectLocal {
                    host: client.local_host.clone(),
                    port: client.local_port,
                },
            ),
            (RelayStage::ConnectingLocal, RelayEvent::Connected) => (
                RelayStage::Flushing,
                RelayAction::Flush,
            ),
            (RelayStage::Flushing, RelayEvent::Flushed) => (
                RelayStage::Proxying,
                RelayAction::Proxy,
            ),
            (RelayStage::Proxying, RelayEvent::Proxied) => (
                RelayStage::Done,
                RelayAction::Finish,
            ),
            (_, _) => (RelayStage::Done, RelayAction::Abort),
        };
        self.stage = stage;
        action
    }
}

/// A client that has a secret says nothing to the server but its part of the
/// handshake until that has succeeded, neither when it asks for a port nor when it
/// takes a connection over.
pub proof fn law_handshake_comes_first(
    client: ClientView,
    setup: SetupView,
    event: SetupEventView,
    relay: RelayView,
    relay_event: RelayEvent,
)
    ensures
        setup.secret is Some && setup_step(setup, event).1 is Send ==> setup.stage
            == SetupStage::Authenticating && event is Authenticated,
        client.auth is Some && relay_step(client, relay, relay_event).1 is Send ==> relay.stage
            == RelayStage::Authenticating && relay_event is Authenticated,
{
}

/// Whatever the server says on the control connection of a client that has its port,
/// the client goes on; only the end of the connection, or an error on it, ends it.
pub proof fn law_messages_never_end_a_client(event: ControlEventView)
    ensures
        control_action(event) is Exit <==> event == ControlEventView::Received(None),
        control_action(event) is Abort <==> event is Failed,
{
}

/// How many more outcomes a setup can await.
pub open spec fn setup_left(stage: SetupStage) -> nat {
    match stage {
        SetupStage::Connecting => 4,
        SetupStage::Authenticating => 3,
        SetupStage::Greeting => 2,
        SetupStage::Waiting => 1,
        SetupStage::Done => 0,
    }
}

/// Every outcome brings a setup nearer to its end, and it comes to its end exactly
/// when there is a client or a reason to give up.
pub proof fn law_setup_comes_to_an_end(setup: SetupView, event: SetupEventView)
    requires
        setup_awaits(setup.stage, event),
    ensures
        ({
            let (after, action) = setup_step(setup, event);
            &&& setup_left(after.stage) < setup_left(setup.stage)
            &&& after.stage is Done <==> action is Ready || action is Refuse || action is Abort
        }),
{
}

/// How many more outcomes a relay can await.
pub open spec fn relay_left(stage: RelayStage) -> nat {
    match stage {
        RelayStage::ConnectingRemote => 6,
        RelayStage::Authenticating => 5,
        RelayStage::Accepting => 4,
        RelayStage::ConnectingLocal => 3,
        RelayStage::Flushing => 2,
        RelayStage::Proxying => 1,
        RelayStage::Done => 0,
    }
}

/// Every outcome brings a relay nearer to its end, and it comes to its end exactly
/// when it is told to.
pub proof fn law_relay_comes_to_an_end(client: ClientView, relay: RelayView, event: RelayEvent)
    requires
        relay_awaits(relay.stage, event),
    ensures
        ({
            let (after, action) = relay_step(client, relay, event);
            &&& after.id == relay.id
            &&& relay_left(after.stage) < relay_left(relay.stage)
            &&& after.stage is Done <==> action is Finish || action is Abort
        }),
{
}

/// What a client is set up with is what it was given, to the end: it connects to the
/// control port of the server that was named, shows the secret that was given, if one
/// was, asks for the port and the address that were given, and, once the server says
/// which port it opened, exposes the host and port that were given at that one.
pub proof fn law_client_is_what_it_was_given(
    local_host: Seq<char>,
    local_port: u16,
    to: Seq<char>,
    port: u16,
    secret: Option<Seq<char>>,
    bind_ip: Option<Seq<char>>,
    opened: u16,
)
    ensures
        ({
            let (connecting, connect) = setup_start(
                local_host,
                local_port,
                to,
                port,
                secret,
                bind_ip,
            );
            let (connected, first) = setup_step(connecting, SetupEventView::Connected);
            let (greeting, ask) = if secret is Some {
                setup_step(connected, SetupEventView::Authenticated)
            } else {
                (connected, first)
            };
            let (waiting, wait) = setup_step(greeting, SetupEventView::Sent);
            let (done, ready) = setup_step(
                waiting,
                SetupEventView::Received(Some(ServerMessageView::Hello(opened))),
            );
            &&& connect == (SetupActionView::Connect { host: to, port: CONTROL_PORT })
            &&& secret matches Some(secret) ==> first == SetupActionView::Authenticate(secret)
            &&& ask == SetupActionView::Send(ClientMessageView::Hello(bind_ip, port))
            &&& wait == SetupActionView::Receive
            &&& ready matches SetupActionView::Ready(client) && {
                &&& client.local_host == local_host
                &&& client.local_port == local_port
                &&& client.to == to
                &&& client.remote_port == opened
                &&& client.auth == secret
            }
            &&& connecting.stage is Connecting && greeting.stage is Greeting && waiting.stage
                is Waiting && done.stage is Done
        }),
{
}

/// A setup keeps what it was given through every step.
pub proof fn law_setup_keeps_what_it_was_given(setup: SetupView, event: SetupEventView)
    ensures
        ({
            let after = setup_step(setup, event).0;
            &&& after.local_host == setup.local_host
            &&& after.local_port == setup.local_port
            &&& after.to == setup.to
            &&& after.port == setup.port
            &&& after.secret == setup.secret
            &&& after.bind_ip == setup.bind_ip
        }),
{
}

/// The stages of a setup follow each other: connected, through the handshake where
/// there is a secret, asked, answered. What it sends is what it was given, whatever
/// else it holds.
pub proof fn law_setup_goes_in_order(setup: SetupView, event: SetupEventView)
    requires
        setup_awaits(setup.stage, event),
        !(event is Failed),
    ensures
        ({
            let (after, action) = setup_step(setup, event);
            let asks = SetupActionView::Send(ClientMessageView::Hello(setup.bind_ip, setup.port));
            &&& setup.stage is Connecting && setup.secret is Some ==> after.stage is Authenticating
                && action == SetupActionView::Authenticate(setup.secret->0)
            &&& setup.stage is Connecting && setup.secret is None ==> after.stage is Greeting
                && action == asks
            &&& setup.stage is Authenticating ==> after.stage is Greeting && action == asks
            &&& setup.stage is Greeting ==> after.stage is Waiting && action
                == SetupActionView::Receive
            &&& setup.stage is Waiting ==> after.stage is Done
        }),
{
}

/// A server that gives no port says why, or is taken to: each other reply has its own
/// refusal, on any setup.
pub proof fn law_other_replies_are_refused(
    setup: SetupView,
    message: Seq<char>,
    id: u128,
    remote_port: u16,
)
    requires
        setup.stage is Waiting,
    ensures
        setup_step(
            setup,
            SetupEventView::Received(Some(ServerMessageView::Error(message))),
        ).1 == SetupActionView::Refuse(SetupErrorView::ServerError(message)),
        setup_step(setup, SetupEventView::Received(Some(ServerMessageView::Challenge(id)))).1
            == SetupActionView::Refuse(SetupErrorView::SecretRequired),
        setup_step(setup, SetupEventView::Received(Some(ServerMessageView::Heartbeat))).1
            == SetupActionView::Refuse(SetupErrorView::UnexpectedMessage),
        setup_step(setup, SetupEventView::Received(Some(ServerMessageView::Connection(id)))).1
            == SetupActionView::Refuse(SetupErrorView::UnexpectedMessage),
        setup_step(setup, SetupEventView::Received(None)).1 == SetupActionView::Refuse(
            SetupErrorView::UnexpectedEof,
        ),
        setup_step(
            setup,
            SetupEventView::Received(Some(ServerMessageView::Hello(remote_port))),
        ).1 == SetupActionView::Ready(
            ClientView {
                to: setup.to,
                local_host: setup.local_host,
                local_port: setup.local_port,
                remote_port,
                auth: setup.secret,
            },
        ),
{
}

/// A failure at any stage ends a setup, or a relay, with the error that came.
pub proof fn law_failure_is_passed_on(client: ClientView, setup: SetupView, relay: RelayView)
    ensures
        setup_awaits(setup.stage, SetupEventView::Failed) ==> setup_step(
            setup,
            SetupEventView::Failed,
        ).1 is Abort,
        !(setup.stage is Done) ==> setup_awaits(setup.stage, SetupEventView::Failed),
        relay_awaits(relay.stage, RelayEvent::Failed) ==> relay_step(
            client,
            relay,
            RelayEvent::Failed,
        ).1 is Abort,
        !(relay.stage is Done) ==> relay_awaits(relay.stage, RelayEvent::Failed),
{
}

/// What a setup awaits is exactly every outcome of what was asked last.
pub proof fn law_setup_awaits_every_outcome(
    setup: SetupView,
    event: SetupEventView,
    next: SetupEventView,
)
    requires
        setup_awaits(setup.stage, event),
    ensures
        setup_awaits(SetupStage::Connecting, next) <==> next is Connected || next is Failed,
        ({
            let (after, action) = setup_step(setup, event);
            setup_awaits(after.stage, next) <==> match next {
                SetupEventView::Connected => action is Connect,
                SetupEventView::Authenticated => action is Authenticate,
                SetupEventView::Sent => action is Send,
                SetupEventView::Received(_) => action is Receive,
                SetupEventView::Failed => action is Connect || action is Authenticate
                    || action is Send || action is Receive,
            }
        }),
{
}

/// A client takes a connection over from the server to the host and port that it
/// exposes: it connects to the control port of its server, shows its secret, if it has
/// one, asks for exactly the connection that was announced, connects to its local host
/// and port, passes on what was read ahead, and then all the rest.
pub proof fn law_connection_is_taken_over(client: ClientView, id: u128)
    ensures
        ({
            let (connecting, connect) = relay_start(client, id);
            let (connected, first) = relay_step(client, connecting, RelayEvent::Connected);
            let (accepting, ask) = if client.auth is Some {
                relay_step(client, connected, RelayEvent::Authenticated)
            } else {
                (connected, first)
            };
            let (local, connect_local) = relay_step(client, accepting, RelayEvent::Sent);
            let (flushing, flush) = relay_step(client, local, RelayEvent::Connected);
            let (proxying, proxy) = relay_step(client, flushing, RelayEvent::Flushed);
            let (done, finish) = relay_step(client, proxying, RelayEvent::Proxied);
            &&& connect == (RelayActionView::ConnectRemote { host: client.to, port: CONTROL_PORT })
            &&& client.auth matches Some(secret) ==> first == RelayActionView::Authenticate(secret)
            &&& ask == RelayActionView::Send(ClientMessageView::Accept(id))
            &&& connect_local == (RelayActionView::ConnectLocal {
                host: client.local_host,
                port: client.local_port,
            })
            &&& flush is Flush && proxy is Proxy && finish is Finish
            &&& connecting.stage is ConnectingRemote && accepting.stage is Accepting && local.stage
                is ConnectingLocal && flushing.stage is Flushing && proxying.stage is Proxying
                && done.stage is Done
        }),
{
}

/// The stages of a relay follow each other, for any connection at any stage.
pub proof fn law_relay_goes_in_order(client: ClientView, relay: RelayView, event: RelayEvent)
    requires
        relay_awaits(relay.stage, event),
        !(event is Failed),
    ensures
        ({
            let (after, action) = relay_step(client, relay, event);
            let asks = RelayActionView::Send(ClientMessageView::Accept(relay.id));
            &&& after.id == relay.id
            &&& relay.stage is ConnectingRemote && client.auth is Some ==> after.stage
                is Authenticating && action == RelayActionView::Authenticate(client.auth->0)
            &&& relay.stage is ConnectingRemote && client.auth is None ==> after.stage is Accepting
                && action == asks
            &&& relay.stage is Authenticating ==> after.stage is Accepting && action == asks
            &&& relay.stage is Accepting ==> after.stage is ConnectingLocal && action == (
            RelayActionView::ConnectLocal { host: client.local_host, port: client.local_port })
            &&& relay.stage is ConnectingLocal ==> after.stage is Flushing && action is Flush
            &&& relay.stage is Flushing ==> after.stage is Proxying && action is Proxy
            &&& relay.stage is Proxying ==> after.stage is Done && action is Finish
        }),
{
}

/// What a relay awaits is exactly every outcome of what was asked last.
pub proof fn law_relay_awaits_every_outcome(
    client: ClientView,
    relay: RelayView,
    event: RelayEvent,
    next: RelayEvent,
)
    requires
        relay_awaits(relay.stage, event),
    ensures
        relay_awaits(RelayStage::ConnectingRemote, next) <==> next is Connected || next is Failed,
        ({
            let (after, action) = relay_step(client, relay, event);
            relay_awaits(after.stage, next) <==> match next {
                RelayEvent::Connected => action is ConnectLocal,
                RelayEvent::Authenticated => action is Authenticate,
                RelayEvent::Sent => action is Send,
                RelayEvent::Flushed => action is Flush,
                RelayEvent::Proxied => action is Proxy,
                RelayEvent::Failed => !(action is Finish) && !(action is Abort),
            }
        }),
{
}

/// A client takes over exactly the connections that are announced to it, each by its
/// own name, and reports exactly the errors that it is sent, word for word. A
/// heartbeat passes without a word, a hello or a challenge with a warning; the end of
/// the connection ends the program with status 1.
pub proof fn law_client_acts_on_each_message(
    event: ControlEventView,
    id: u128,
    port: u16,
    text: Seq<char>,
)
    ensures
        control_action(event) == ControlActionView::Forward(id) <==> event
            == ControlEventView::Received(Some(ServerMessageView::Connection(id))),
        control_action(event) == ControlActionView::ReportError(text) <==> event
            == ControlEventView::Received(Some(ServerMessageView::Error(text))),
        control_action(event) is Ignore <==> event == ControlEventView::Received(
            Some(ServerMessageView::Heartbeat),
        ),
        control_action(ControlEventView::Received(Some(ServerMessageView::Hello(port))))
            is WarnHello,
        control_action(ControlEventView::Received(Some(ServerMessageView::Challenge(id))))
            is WarnChallenge,
        control_action(ControlEventView::Received(None)) == ControlActionView::Exit(1),
        control_action(ControlEventView::Failed) is Abort,
{
}

/// Each reason to give up has its own text, and the server's own words are passed on.
pub proof fn law_setup_errors_are_told_apart(message: Seq<char>)
    ensures
        SetupErrorView::ServerError(message).message() == "server error: "@ + message,
        SetupErrorView::SecretRequired.message()
            == "server requires authentication, but no client secret was provided"@,
        SetupErrorView::UnexpectedMessage.message() == "unexpected initial non-hello message"@,
        SetupErrorView::UnexpectedEof.message() == "unexpected EOF"@,
{
}

/// The text of a failed connection names the host and the port, whatever they are.
pub proof fn law_failed_connection_is_named(to: Seq<char>, port: u16)
    ensures
        connect_error_text(to, port) == "could not connect to "@ + to + ":"@ + decimal(
            port as nat,
        ),
{
}

/// The view of an event shows all that happened, and that of an error all that it is
/// about.
pub proof fn law_client_events_are_shown(
    setup: SetupEvent,
    control: ControlEvent,
    error: SetupError,
)
    ensures
        match setup {
            SetupEvent::Connected => setup@ == SetupEventView::Connected,
            SetupEvent::Authenticated => setup@ == SetupEventView::Authenticated,
            SetupEvent::Sent => setup@ == SetupEventView::Sent,
            SetupEvent::Received(None) => setup@ == SetupEventView::Received(None),
            SetupEvent::Received(Some(message)) => setup@ == SetupEventView::Received(
                Some(message@),
            ),
            SetupEvent::Failed => setup@ == SetupEventView::Failed,
        },
        match control {
            ControlEvent::Received(None) => control@ == ControlEventView::Received(None),
            ControlEvent::Received(Some(message)) => control@ == ControlEventView::Received(
                Some(message@),
            ),
            ControlEvent::Failed => control@ == ControlEventView::Failed,
        },
        match error {
            SetupError::ServerError(message) => error@ == SetupErrorView::ServerError(message@),
            SetupError::SecretRequired => error@ == SetupErrorView::SecretRequired,
            SetupError::UnexpectedMessage => error@ == SetupErrorView::UnexpectedMessage,
            SetupError::UnexpectedEof => error@ == SetupErrorView::UnexpectedEof,
        },
{
}

/// The view of an action shows all that the program is to do.
pub proof fn law_client_actions_are_shown(
    setup: SetupAction,
    control: ControlAction,
    relay: RelayAction,
)
    ensures
        match setup {
            SetupAction::Connect { host, port } => setup@ == (SetupActionView::Connect {
                host: host@,
                port,
            }),
            SetupAction::Authenticate(secret) => setup@ == SetupActionView::Authenticate(secret@),
            SetupAction::Send(message) => setup@ == SetupActionView::Send(message@),
            SetupAction::Receive => setup@ == SetupActionView::Receive,
            SetupAction::Ready(client) => setup@ == SetupActionView::Ready(client@),
            SetupAction::Refuse(error) => setup@ == SetupActionView::Refuse(error@),
            SetupAction::Abort => setup@ == SetupActionView::Abort,
        },
        match control {
            ControlAction::WarnHello => control@ == ControlActionView::WarnHello,
            ControlAction::WarnChallenge => control@ == ControlActionView::WarnChallenge,
            ControlAction::Ignore => control@ == ControlActionView::Ignore,
            ControlAction::Forward(id) => control@ == ControlActionView::Forward(id),
            ControlAction::ReportError(message) => control@ == ControlActionView::ReportError(
                message@,
            ),
            ControlAction::Exit(status) => control@ == ControlActionView::Exit(status),
            ControlAction::Abort => control@ == ControlActionView::Abort,
        },
        match relay {
            RelayAction::ConnectRemote { host, port } => relay@ == (
            RelayActionView::ConnectRemote { host: host@, port }),
            RelayAction::Authenticate(secret) => relay@ == RelayActionView::Authenticate(secret@),
            RelayAction::Send(message) => relay@ == RelayActionView::Send(message@),
            RelayAction::ConnectLocal { host, port } => relay@ == (RelayActionView::ConnectLocal {
                host: host@,
                port,
            }),
            RelayAction::Flush => relay@ == RelayActionView::Flush,
            RelayAction::Proxy => relay@ == RelayActionView::Proxy,
            RelayAction::Finish => relay@ == RelayActionView::Finish,
            RelayAction::Abort => relay@ == RelayActionView::Abort,
        },
{
}

/// The port that a client names is the one that the server said it opened, whatever
/// port the client had asked for.
pub proof fn law_client_names_the_opened_port(setup: SetupView, client: Client, opened: u16)
    requires
        setup.stage is Waiting,
        setup_step(
            setup,
            SetupEventView::Received(Some(ServerMessageView::Hello(opened))),
        ).1 == SetupActionView::Ready(client@),
    ensures
        client.remote_port() == opened,
{
}

} // verus!
