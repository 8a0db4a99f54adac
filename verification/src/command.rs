//! The commands of the program, and what each one starts.
use std::ops::RangeInclusive;

use vstd::prelude::*;

use crate::forward::{forward_start, ForwardActionView, ForwardView};
use crate::forward::{Forward, ForwardAction, ForwardKind, ForwardStage};
use crate::ip_range::{ip_range, IpRangeErrorView};
use crate::ip_range::{law_range_size, parse_ip_range, IpRangeError};
use crate::server::Server;
use crate::server::ServerView;
use crate::text::has_char;
use crate::text::{view_opt, view_opt_str, views};

verus! {

/// A command of the program.
#[allow(inconsistent_fields)]
#[derive(Debug)]
pub enum Command {
    /// Expose local ports at a server.
    Local {
        /// The local port to expose.
        local_port: u16,
        /// The last local port, where a range is exposed.
        max_port: Option<u16>,
        /// The local host, or a range of addresses.
        local_host: String,
        /// The address of the server.
        to: String,
        /// The port to ask for, or 0 for any.
        port: u16,
        /// The secret that the server asks for.
        secret: Option<String>,
        /// The address at which the server is to open the port.
        bind_ip: Option<String>,
    },
    /// Run a server.
    Server {
        /// The lowest port that clients may have.
        min_port: u16,
        /// The highest port that clients may have.
        max_port: u16,
        /// The secret that clients have to know.
        secret: Option<String>,
        /// The address to bind to where the client names none.
        bind_ip: Option<String>,
    },
}

/// What a `Command` holds.
#[allow(inconsistent_fields)]
pub enum CommandView {
    Local {
        local_port: u16,
        max_port: Option<u16>,
        local_host: Seq<char>,
        to: Seq<char>,
        port: u16,
        secret: Option<Seq<char>>,
        bind_ip: Option<Seq<char>>,
    },
    Server {
        min_port: u16,
        max_port: u16,
        secret: Option<Seq<char>>,
        bind_ip: Option<Seq<char>>,
    },
}

impl View for Command {
    type V = CommandView;

    open spec fn view(&self) -> CommandView {
        match self {
            Command::Local { local_port, max_port, local_host, to, port, secret, bind_ip } =>
                CommandView::Local {
                local_port: *local_port,
                max_port: *max_port,
                local_host: local_host@,
                to: to@,
                port: *port,
                secret: view_opt(*secret),
                bind_ip: view_opt(*bind_ip),
            },
            Command::Server { min_port, max_port, secret, bind_ip } => CommandView::Server {
                min_port: *min_port,
                max_port: *max_port,
                secret: view_opt(*secret),
                bind_ip: view_opt(*bind_ip),
            },
        }
    }
}

/// A command whose values do not go together.
#[derive(Clone, Copy, Debug, PartialEq, Eq, Structural)]
pub enum UsageError {
    /// A range of addresses and a range of ports.
    BothRanges,
    /// A range of local ports that ends below its first.
    MaxBelowLocal,
    /// A server without a port.
    EmptyPortRange,
}

/// The text of a usage error.
pub open spec fn usage_error_text(error: UsageError) -> Seq<char> {
    match error {
        UsageError::BothRanges =>
            "Cannot use both IP range (-l with range) and port range (-m) at the same time"@,
        UsageError::MaxBelowLocal => "max port must be greater than or equal to local port"@,
        UsageError::EmptyPortRange => "port range is empty"@,
    }
}

impl UsageError {
    /// The text of the error.
    pub fn message(&self) -> (r: &'static str)
        ensures
            r@ == usage_error_text(*self),
    {
        match self {
            UsageError::BothRanges =>
                "Cannot use both IP range (-l with range) and port range (-m) at the same time",
            UsageError::MaxBelowLocal => "max port must be greater than or equal to local port",
            UsageError::EmptyPortRange => "port range is empty",
        }
    }
}

/// Why a command starts nothing.
#[derive(Debug)]
pub enum CommandError {
    /// Its values do not go together.
    Usage(UsageError),
    /// Its range of addresses cannot be read.
    IpRange(IpRangeError),
}

/// What a `CommandError` holds.
pub enum CommandErrorView {
    Usage(UsageError),
    IpRange(IpRangeErrorView),
}

impl View for CommandError {
    type V = CommandErrorView;

    open spec fn view(&self) -> CommandErrorView {
        match self {
            CommandError::Usage(error) => CommandErrorView::Usage(*error),
            CommandError::IpRange(error) => CommandErrorView::IpRange(error@),
        }
    }
}

/// What a command starts.
pub enum Plan {
    /// Clients, and what the program does first for them.
    Forward(Forward, ForwardAction),
    /// A server.
    Serve(Server),
}

/// What a `Plan` holds.
pub enum PlanView {
    Forward(ForwardView, ForwardActionView),
    Serve(ServerView),
}

impl View for Plan {
    type V = PlanView;

    open spec fn view(&self) -> PlanView {
        match self {
            Plan::Forward(forward, action) => PlanView::Forward(forward@, action@),
            Plan::Serve(server) => PlanView::Serve(server@),
        }
    }
}

/// The outcome of a command, in the terms of its view.
pub open spec fn plan_view(r: Result<Plan, CommandError>) -> Result<PlanView, CommandErrorView> {
    match r {
        Ok(plan) => Ok(plan@),
        Err(error) => Err(error@),
    }
}

/// Whether the local ports of a command can be counted in 16 bits. Only the range
/// of all ports, 0 to 65535, cannot.
pub open spec fn countable(command: CommandView) -> bool {
    command matches CommandView::Local { local_port, max_port, local_host, .. } ==> !(
    local_port == 0 && max_port == Some(65535u16) && !local_host.contains('-'))
}

/// What a command that exposes local ports starts.
pub open spec fn plan_local(
    local_port: u16,
    max_port: Option<u16>,
    local_host: Seq<char>,
    to: Seq<char>,
    port: u16,
    secret: Option<Seq<char>>,
    bind_ip: Option<Seq<char>>,
) -> Result<PlanView, CommandErrorView> {
    let start = |kind: ForwardKind, hosts: Seq<Seq<char>>, count: usize|
        {
            let (forward, action) = forward_start(
                kind,
                hosts,
                local_port,
                count,
                to,
                port,
                secret,
                bind_ip,
            );
            Ok::<PlanView, CommandErrorView>(PlanView::Forward(forward, action))
        };
    if local_host.contains('-') {
        if max_port is Some {
            Err(CommandErrorView::Usage(UsageError::BothRanges))
        } else {
            match ip_range(local_host) {
                Ok(hosts) => start(ForwardKind::Hosts, hosts, hosts.len() as usize),
                Err(error) => Err(CommandErrorView::IpRange(error)),
            }
        }
    } else {
        match max_port {
            Some(max_port) => if max_port < local_port {
                Err(CommandErrorView::Usage(UsageError::MaxBelowLocal))
            } else {
                start(ForwardKind::Ports, seq![local_host], (max_port - local_port + 1) as usize)
            },
            None => start(ForwardKind::Single, seq![local_host], 1),
        }
    }
}

/// What a command that runs a server starts.
pub open spec fn plan_server(
    min_port: u16,
    max_port: u16,
    secret: Option<Seq<char>>,
    bind_ip: Option<Seq<char>>,
) -> Result<PlanView, CommandErrorView> {
    if max_port < min_port {
        Err(CommandErrorView::Usage(UsageError::EmptyPortRange))
    } else {
        Ok(
            PlanView::Serve(
                ServerView {
                    bind_ip: match bind_ip {
                        Some(ip) => ip,
                        None => "127.0.0.1"@,
                    },
                    min_port,
                    max_port,
                    auth: secret,
                    parked: Map::empty(),
                },
            ),
        )
    }
}

/// What a command starts.
pub open spec fn plan(command: CommandView) -> Result<PlanView, CommandErrorView> {
    match command {
        CommandView::Local { local_port, max_port, local_host, to, port, secret, bind_ip } =>
            plan_local(local_port, max_port, local_host, to, port, secret, bind_ip),
        CommandView::Server { min_port, max_port, secret, bind_ip } => plan_server(
            min_port,
            max_port,
            secret,
            bind_ip,
        ),
    }
}

/// An optional string, borrowed.
fn borrow_opt(s: &Option<String>) -> (r: Option<&str>)
    ensures
        view_opt_str(r) == view_opt(*s),
{
    match s {
        Some(s) => Some(s.as_str()),
        None => None,
    }
}

impl Command {
    /// Whether the local ports of the command can be counted in 16 bits.
    pub fn countable(&self) -> (r: bool)
        ensures
            r == countable(self@),
    {
        match self {
            Command::Local { local_port, max_port, local_host, .. } => match max_port {
                Some(max_port) => *local_port > 0 || *max_port < 65535 || has_char(
                    local_host.as_str(),
                    '-',
                ),
                None => true,
            },
            Command::Server { .. } => true,
        }
    }
}

/// Starts what a command asks for.
pub fn run(command: Command) -> (r: Result<Plan, CommandError>)
    requires
        countable(command@),
    ensures
        plan_view(r) == plan(command@),
        r matches Ok(Plan::Forward(forward, _)) ==> forward@.wf(),
        r matches Ok(Plan::Serve(server)) ==> server.wf(),
{
    match command {
        Command::Local { local_port, max_port, local_host, to, port, secret, bind_ip } => {
            let is_ip_range: bool = has_char(local_host.as_str(), '-');
            if is_ip_range && max_port.is_some() {
                return Err(CommandError::Usage(UsageError::BothRanges));
            }
            let (forward, action) = if is_ip_range {
                let hosts = match parse_ip_range(local_host.as_str()) {
                    Ok(hosts) => hosts,
                    Err(error) => {
                        return Err(CommandError::IpRange(error));
                    },
                };
                proof {
                    law_range_size(local_host@);
                }
                let count: usize = hosts.len();
                Forward::start(
                    ForwardKind::Hosts,
                    hosts,
                    local_port,
                    count,
                    to,
                    port,
                    secret,
                    bind_ip,
                )
            } else {
                let mut hosts: Vec<String> = Vec::new();
                let ghost host = local_host@;
                hosts.push(local_host);
                assert(views(hosts@) == seq![host]);
                match max_port {
                    Some(max_port) => {
                        if max_port < local_port {
                            return Err(CommandError::Usage(UsageError::MaxBelowLocal));
                        }
                        let port_count: usize = (max_port - local_port + 1) as usize;
                        Forward::start(
                            ForwardKind::Ports,
                            hosts,
                            local_port,
                            port_count,
                            to,
                            port,
                            secret,
                            bind_ip,
                        )
                    },
                    None => Forward::start(
                        ForwardKind::Single,
                        hosts,
                        local_port,
                        1,
                        to,
                        port,
                        secret,
                        bind_ip,
                    ),
                }
            };
            Ok(Plan::Forward(forward, action))
        },
        Command::Server { min_port, max_port, secret, bind_ip } => {
            if max_port < min_port {
                return Err(CommandError::Usage(UsageError::EmptyPortRange));
            }
            let port_range: RangeInclusive<u16> = RangeInclusive::new(min_port, max_port);
            Ok(Plan::Serve(Server::new(borrow_opt(&bind_ip), port_range, borrow_opt(&secret))))
        },
    }
}

/// A range of addresses and a range of ports exclude each other. Otherwise a range
/// of addresses is forwarded when it can be read, a range of ports when it does not
/// end below its first, and a single port always.
pub proof fn law_which_local_commands_start(
    local_port: u16,
    max_port: Option<u16>,
    local_host: Seq<char>,
    to: Seq<char>,
    port: u16,
    secret: Option<Seq<char>>,
    bind_ip: Option<Seq<char>>,
)
    ensures
        plan_local(local_port, max_port, local_host, to, port, secret, bind_ip) is Ok <==> {
            ||| local_host.contains('-') && max_port is None && ip_range(local_host) is Ok
            ||| !local_host.contains('-') && (max_port matches Some(max) ==> local_port <= max)
        },
{
}

/// What starts is well-formed: there is a client for each address or port, and the
/// first of them is set up first.
pub proof fn law_started_clients_are_well_formed(command: CommandView)
    requires
        countable(command),
        plan(command) is Ok,
        command is Local,
    ensures
        plan(command)->Ok_0 matches PlanView::Forward(forward, action) && {
            &&& forward.wf()
            &&& forward.stage == ForwardStage::Connecting(0)
            &&& action == ForwardActionView::Connect(forward.target(0))
        },
{
    if let CommandView::Local { local_host, .. } = command {
        if local_host.contains('-') {
            law_range_size(local_host);
        }
    }
}

/// A server starts exactly where it has a port to open, and then opens the ports
/// from the lowest to the highest.
pub proof fn law_which_servers_start(
    min_port: u16,
    max_port: u16,
    secret: Option<Seq<char>>,
    bind_ip: Option<Seq<char>>,
)
    ensures
        plan_server(min_port, max_port, secret, bind_ip) is Ok <==> min_port <= max_port,
        plan_server(min_port, max_port, secret, bind_ip) matches Ok(PlanView::Serve(server))
            ==> forall|port: u16| server.allows(port) <==> min_port <= port <= max_port,
{
}

/// What a local command starts carries its options: every client is for the server,
/// the secret, the address and the first ports that the command names. A range of
/// addresses has a client for each, a range of ports one for each port from the first
/// to the last, and any other command one for its host. The first client is set up
/// first.
pub proof fn law_local_command_carries_its_options(
    local_port: u16,
    max_port: Option<u16>,
    local_host: Seq<char>,
    to: Seq<char>,
    port: u16,
    secret: Option<Seq<char>>,
    bind_ip: Option<Seq<char>>,
)
    ensures
        plan(
            CommandView::Local { local_port, max_port, local_host, to, port, secret, bind_ip },
        ) matches Ok(started) ==> (started matches PlanView::Forward(forward, action) && {
            &&& forward.to == to
            &&& forward.secret == secret
            &&& forward.bind_ip == bind_ip
            &&& forward.port == port
            &&& forward.local_port == local_port
            &&& forward.stage == ForwardStage::Connecting(0)
            &&& local_host.contains('-') ==> {
                &&& forward.kind == ForwardKind::Hosts
                &&& ip_range(local_host) == Ok::<_, IpRangeErrorView>(forward.hosts)
                &&& forward.count == forward.hosts.len()
            }
            &&& !local_host.contains('-') ==> forward.hosts == seq![local_host]
            &&& !local_host.contains('-') && max_port is Some ==> forward.kind
                == ForwardKind::Ports && forward.count == max_port->0 - local_port + 1
            &&& !local_host.contains('-') && max_port is None ==> forward.kind
                == ForwardKind::Single && forward.count == 1
            &&& action matches ForwardActionView::Connect(first) && {
                &&& first.local_host == forward.hosts[0]
                &&& first.local_port == local_port
                &&& first.to == to
                &&& first.port == port
                &&& first.secret == secret
                &&& first.bind_ip == bind_ip
            }
        }),
{
    if local_host.contains('-') && ip_range(local_host) is Ok {
        law_range_size(local_host);
    }
}

/// A local command starts nothing exactly where both ranges are named, where the range
/// of addresses cannot be read, or where the range of ports ends below its first, and
/// says which.
pub proof fn law_local_command_that_starts_nothing_says_why(
    local_port: u16,
    max_port: Option<u16>,
    local_host: Seq<char>,
    to: Seq<char>,
    port: u16,
    secret: Option<Seq<char>>,
    bind_ip: Option<Seq<char>>,
    error: IpRangeErrorView,
)
    ensures
        ({
            let started = plan(
                CommandView::Local { local_port, max_port, local_host, to, port, secret, bind_ip },
            );
            let range = local_host.contains('-');
            &&& started == Err::<PlanView, _>(CommandErrorView::Usage(UsageError::BothRanges))
                <==> range && max_port is Some
            &&& started == Err::<PlanView, _>(CommandErrorView::IpRange(error)) <==> (range
                && max_port is None && ip_range(local_host) == Err::<Seq<Seq<char>>, _>(error))
            &&& started == Err::<PlanView, _>(CommandErrorView::Usage(UsageError::MaxBelowLocal))
                <==> (!range && max_port is Some && max_port->0 < local_port)
            &&& started is Err ==> started->Err_0 != CommandErrorView::Usage(
                UsageError::EmptyPortRange,
            )
        }),
{
}

/// What a server command starts carries its options: its ports from the lowest to the
/// highest, its secret, and its address, or 127.0.0.1 where it names none. Nothing
/// waits there yet. It starts nothing exactly where it has no port.
pub proof fn law_server_command_carries_its_options(
    min_port: u16,
    max_port: u16,
    secret: Option<Seq<char>>,
    ip: Seq<char>,
)
    ensures
        ({
            let named = plan(
                CommandView::Server { min_port, max_port, secret, bind_ip: Some(ip) },
            );
            let unnamed = plan(CommandView::Server { min_port, max_port, secret, bind_ip: None });
            &&& min_port <= max_port ==> {
                &&& named matches Ok(PlanView::Serve(server)) && {
                    &&& server.bind_ip == ip
                    &&& server.min_port == min_port && server.max_port == max_port
                    &&& server.auth == secret
                    &&& forall|id: u128| !server.parked.contains_key(id)
                }
                &&& unnamed matches Ok(PlanView::Serve(server)) && {
                    &&& server.bind_ip == "127.0.0.1"@
                    &&& server.min_port == min_port && server.max_port == max_port
                    &&& server.auth == secret
                    &&& forall|id: u128| !server.parked.contains_key(id)
                }
            }
            &&& max_port < min_port ==> named == Err::<PlanView, _>(
                CommandErrorView::Usage(UsageError::EmptyPortRange),
            ) && unnamed == Err::<PlanView, _>(CommandErrorView::Usage(UsageError::EmptyPortRange))
        }),
{
}

/// The ports of a command can be counted unless it names a range of ports alone, and
/// that range has more than 65535 of them.
pub proof fn law_all_but_the_whole_range_can_be_counted(
    local_port: u16,
    max_port: Option<u16>,
    local_host: Seq<char>,
    to: Seq<char>,
    port: u16,
    secret: Option<Seq<char>>,
    bind_ip: Option<Seq<char>>,
    min_port: u16,
    last_port: u16,
)
    ensures
        countable(
            CommandView::Local { local_port, max_port, local_host, to, port, secret, bind_ip },
        ) <==> local_host.contains('-') || max_port is None || max_port->0 - local_port + 1
            <= 65535,
        countable(CommandView::Server { min_port, max_port: last_port, secret, bind_ip }),
{
}

/// Each usage error has its own text.
pub proof fn law_usage_errors_are_told_apart()
    ensures
        usage_error_text(UsageError::BothRanges)
            == "Cannot use both IP range (-l with range) and port range (-m) at the same time"@,
        usage_error_text(UsageError::MaxBelowLocal)
            == "max port must be greater than or equal to local port"@,
        usage_error_text(UsageError::EmptyPortRange) == "port range is empty"@,
{
}

/// The view of a command shows every option of it.
pub proof fn law_commands_are_shown(command: Command)
    ensures
        match command {
            Command::Local { local_port, max_port, local_host, to, port, secret, bind_ip } =>
                command@ == (CommandView::Local {
                local_port,
                max_port,
                local_host: local_host@,
                to: to@,
                port,
                secret: match secret {
                    Some(secret) => Some(secret@),
                    None => None,
                },
                bind_ip: match bind_ip {
                    Some(ip) => Some(ip@),
                    None => None,
                },
            }),
            Command::Server { min_port, max_port, secret, bind_ip } => command@ == (
            CommandView::Server {
                min_port,
                max_port,
                secret: match secret {
                    Some(secret) => Some(secret@),
                    None => None,
                },
                bind_ip: match bind_ip {
                    Some(ip) => Some(ip@),
                    None => None,
                },
            }),
        },
{
}

/// The view of what a command starts, or of why it starts nothing, shows all of it.
pub proof fn law_plans_are_shown(started: Result<Plan, CommandError>)
    ensures
        match started {
            Ok(Plan::Forward(forward, action)) => plan_view(started) == Ok::<_, CommandErrorView>(
                PlanView::Forward(forward@, action@),
            ),
            Ok(Plan::Serve(server)) => plan_view(started) == Ok::<_, CommandErrorView>(
                PlanView::Serve(server@),
            ),
            Err(CommandError::Usage(error)) => plan_view(started) == Err::<PlanView, _>(
                CommandErrorView::Usage(error),
            ),
            Err(CommandError::IpRange(error)) => plan_view(started) == Err::<PlanView, _>(
                CommandErrorView::IpRange(error@),
            ),
        },
{
}

} // verus!
