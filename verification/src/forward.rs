//! The clients that one command starts: one, or one for each address or port of a
//! range.
use vstd::prelude::*;

use crate::text::clone_opt;
use crate::text::{view_opt, views};

verus! {

/// What a command forwards.
#[derive(Clone, Copy, Debug, PartialEq, Eq, Structural)]
pub enum ForwardKind {
    /// One port of one host.
    Single,
    /// The same port of several hosts.
    Hosts,
    /// Several ports of one host.
    Ports,
}

/// Where it stands: what was asked of the program last.
#[derive(Clone, Copy, Debug, PartialEq, Eq, Structural)]
pub enum ForwardStage {
    /// The client of this index is being set up.
    Connecting(usize),
    /// The only client is listening.
    Listening,
    /// A task is being started for each client.
    Launching,
    /// The task of this index is awaited.
    Joining(usize),
    /// Nothing is left to do.
    Done,
}

/// How what was asked of the program came out.
#[derive(Clone, Copy, Debug, PartialEq, Eq, Structural)]
pub enum ForwardEvent {
    /// The client is set up.
    Connected,
    /// The tasks are started.
    Launched,
    /// The client ended without an error.
    Ended,
    /// It failed.
    Failed,
}

/// What a client is set up with.
#[derive(Debug)]
pub struct Target {
    pub local_host: String,
    pub local_port: u16,
    pub to: String,
    pub port: u16,
    pub secret: Option<String>,
    pub bind_ip: Option<String>,
}

/// What a `Target` holds.
#[verifier::ext_equal]
pub struct TargetView {
    pub local_host: Seq<char>,
    pub local_port: u16,
    pub to: Seq<char>,
    pub port: u16,
    pub secret: Option<Seq<char>>,
    pub bind_ip: Option<Seq<char>>,
}

impl View for Target {
    type V = TargetView;

    open spec fn view(&self) -> TargetView {
        TargetView {
            local_host: self.local_host@,
            local_port: self.local_port,
            to: self.to@,
            port: self.port,
            secret: view_opt(self.secret),
            bind_ip: view_opt(self.bind_ip),
        }
    }
}

/// What the program does next.
#[derive(Debug)]
pub enum ForwardAction {
    /// Set up a client.
    Connect(Target),
    /// Let the only client listen.
    Listen,
    /// Let each client listen on a task of its own.
    Launch,
    /// Wait for the task of this index.
    Join(usize),
    /// End the program.
    Finish,
    /// Give up, with the error that came.
    Abort,
}

/// What a `ForwardAction` holds.
pub enum ForwardActionView {
    Connect(TargetView),
    Listen,
    Launch,
    Join(usize),
    Finish,
    Abort,
}

impl View for ForwardAction {
    type V = ForwardActionView;

    open spec fn view(&self) -> ForwardActionView {
        match self {
            ForwardAction::Connect(target) => ForwardActionView::Connect(target@),
            ForwardAction::Listen => ForwardActionView::Listen,
            ForwardAction::Launch => ForwardActionView::Launch,
            ForwardAction::Join(i) => ForwardActionView::Join(*i),
            ForwardAction::Finish => ForwardActionView::Finish,
            ForwardAction::Abort => ForwardActionView::Abort,
        }
    }
}

/// The clients that one command starts.
pub struct Forward {
    kind: ForwardKind,
    hosts: Vec<String>,
    local_port: u16,
    count: usize,
    to: String,
    port: u16,
    secret: Option<String>,
    bind_ip: Option<String>,
    stage: ForwardStage,
}

/// What a `Forward` holds.
#[verifier::ext_equal]
pub struct ForwardView {
    pub kind: ForwardKind,
    /// The hosts that are exposed.
    pub hosts: Seq<Seq<char>>,
    /// The first port that is exposed.
    pub local_port: u16,
    /// How many clients there are.
    pub count: usize,
    /// The address of the server.
    pub to: Seq<char>,
    /// The first port that is asked for, or 0 for any.
    pub port: u16,
    pub secret: Option<Seq<char>>,
    pub bind_ip: Option<Seq<char>>,
    pub stage: ForwardStage,
}

impl View for Forward {
    type V = ForwardView;

    closed spec fn view(&self) -> ForwardView {
        ForwardView {
            kind: self.kind,
            hosts: views(self.hosts@),
            local_port: self.local_port,
            count: self.count,
            to: self.to@,
            port: self.port,
            secret: view_opt(self.secret),
            bind_ip: view_opt(self.bind_ip),
            stage: self.stage,
        }
    }
}

impl ForwardView {
    /// There is a client for each host or port, every local port exists, and the
    /// index of the stage is one of a client.
    pub open spec fn wf(self) -> bool {
        &&& self.count > 0
        &&& match self.kind {
            ForwardKind::Single => self.count == 1 && self.hosts.len() == 1,
            ForwardKind::Hosts => self.hosts.len() == self.count && self.count <= 256,
            ForwardKind::Ports => self.hosts.len() == 1 && self.local_port + self.count <= 65536,
        }
        &&& match self.stage {
            ForwardStage::Connecting(i) => i < self.count,
            ForwardStage::Joining(i) => i < self.count,
            _ => true,
        }
    }

    /// Whether the port that client `i` asks for exists.
    pub open spec fn fits(self, i: int) -> bool {
        self.port == 0 || self.port + i <= 65535
    }

    /// The host that client `i` exposes.
    pub open spec fn host(self, i: int) -> Seq<char> {
        match self.kind {
            ForwardKind::Hosts => self.hosts[i],
            _ => self.hosts[0],
        }
    }

    /// What client `i` is set up with.
    pub open spec fn target(self, i: int) -> TargetView {
        TargetView {
            local_host: self.host(i),
            local_port: match self.kind {
                ForwardKind::Ports => (self.local_port + i) as u16,
                _ => self.local_port,
            },
            to: self.to,
            port: if self.port > 0 {
                (self.port + i) as u16
            } else {
                0
            },
            secret: self.secret,
            bind_ip: self.bind_ip,
        }
    }
}

/// How it starts: with the setup of the first client.
pub open spec fn forward_start(
    kind: ForwardKind,
    hosts: Seq<Seq<char>>,
    local_port: u16,
    count: usize,
    to: Seq<char>,
    port: u16,
    secret: Option<Seq<char>>,
    bind_ip: Option<Seq<char>>,
) -> (ForwardView, ForwardActionView) {
    let forward = ForwardView {
        kind,
        hosts,
        local_port,
        count,
        to,
        port,
        secret,
        bind_ip,
        stage: ForwardStage::Connecting(0),
    };
    (forward, ForwardActionView::Connect(forward.target(0)))
}

/// Whether an event is an outcome of what was asked last.
pub open spec fn forward_awaits(stage: ForwardStage, event: ForwardEvent) -> bool {
    match stage {
        ForwardStage::Connecting(_) => event is Connected || event is Failed,
        ForwardStage::Listening => event is Ended || event is Failed,
        ForwardStage::Launching => event is Launched,
        ForwardStage::Joining(_) => event is Ended || event is Failed,
        ForwardStage::Done => false,
    }
}

/// Whether an event leads to a client that would ask for a port beyond the last.
pub open spec fn forward_overflows(forward: ForwardView, event: ForwardEvent) -> bool {
    event is Connected && (forward.stage matches ForwardStage::Connecting(i) && i + 1
        < forward.count && !forward.fits(i + 1))
}

/// What an awaited event does, and what the program does next: the clients are set
/// up one after the other, then all listen, and each is waited for in turn. The
/// first failure ends it.
pub open spec fn forward_step(forward: ForwardView, event: ForwardEvent) -> (
    ForwardView,
    ForwardActionView,
) {
    let at = |stage: ForwardStage| ForwardView { stage, ..forward };
    match (forward.stage, event) {
        (ForwardStage::Connecting(i), ForwardEvent::Connected) => if i + 1 < forward.count {
            (
                at(ForwardStage::Connecting((i + 1) as usize)),
                ForwardActionView::Connect(forward.target(i + 1)),
            )
        } else if forward.kind is Single {
            (at(ForwardStage::Listening), ForwardActionView::Listen)
        } else {
            (at(ForwardStage::Launching), ForwardActionView::Launch)
        },
        (ForwardStage::Launching, ForwardEvent::Launched) => (
            at(ForwardStage::Joining(0)),
            ForwardActionView::Join(0),
        ),
        (ForwardStage::Joining(i), ForwardEvent::Ended) if i + 1 < forward.count => (
            at(ForwardStage::Joining((i + 1) as usize)),
            ForwardActionView::Join((i + 1) as usize),
        ),
        (ForwardStage::Joining(_), ForwardEvent::Ended)
        | (ForwardStage::Listening, ForwardEvent::Ended) => (
            at(ForwardStage::Done),
            ForwardActionView::Finish,
        ),
        (_, _) => (at(ForwardStage::Done), ForwardActionView::Abort),
    }
}

impl Forward {
    /// Starts with the setup of the first client.
    pub(crate) fn start(
        kind: ForwardKind,
        hosts: Vec<String>,
        local_port: u16,
        count: usize,
        to: String,
        port: u16,
        secret: Option<String>,
        bind_ip: Option<String>,
    ) -> (r: (Forward, ForwardAction))
        requires
            forward_start(
                kind,
                views(hosts@),
                local_port,
                count,
                to@,
                port,
                view_opt(secret),
                view_opt(bind_ip),
            ).0.wf(),
        ensures
            (r.0@, r.1@) == forward_start(
                kind,
                views(hosts@),
                local_port,
                count,
                to@,
                port,
                view_opt(secret),
                view_opt(bind_ip),
            ),
    {
        let forward = Forward {
            kind,
            hosts,
            local_port,
            count,
            to,
            port,
            secret,
            bind_ip,
            stage: ForwardStage::Connecting(0),
        };
        let first = forward.target(0);
        (forward, ForwardAction::Connect(first))
    }

    /// What client `i` is set up with.
    pub fn target(&self, i: usize) -> (r: Target)
        requires
            self@.wf(),
            i < self@.count,
            self@.fits(i as int),
        ensures
            r@ == self@.target(i as int),
    {
        let host: usize = match self.kind {
            ForwardKind::Hosts => i,
            _ => 0,
        };
        let local_port: u16 = match self.kind {
            ForwardKind::Ports => self.local_port + i as u16,
            _ => self.local_port,
        };
        let port: u16 = if self.port > 0 {
            self.port + i as u16
        } else {
            0
        };
        assert(self@.hosts[host as int] == self.hosts[host as int]@);
        Target {
            local_host: self.hosts[host].clone(),
            local_port,
            to: self.to.clone(),
            port,
            secret: clone_opt(&self.secret),
            bind_ip: clone_opt(&self.bind_ip),
        }
    }

    /// Whether an event is an outcome of what was asked last.
    pub fn awaits(&self, event: ForwardEvent) -> (r: bool)
        ensures
            r == forward_awaits(self@.stage, event),
    {
        match (self.stage, event) {
            (ForwardStage::Connecting(_), ForwardEvent::Connected) => true,
            (ForwardStage::Listening, ForwardEvent::Ended) => true,
            (ForwardStage::Launching, ForwardEvent::Launched) => true,
            (ForwardStage::Launching, _) => false,
            (ForwardStage::Joining(_), ForwardEvent::Ended) => true,
            (ForwardStage::Done, _) => false,
            (_, ForwardEvent::Failed) => true,
            (_, _) => false,
        }
    }

    /// Whether an event leads to a client that would ask for a port beyond the last.
    pub fn overflows(&self, event: ForwardEvent) -> (r: bool)
        requires
            self@.wf(),
        ensures
            r == forward_overflows(self@, event),
    {
        match (self.stage, event) {
            (ForwardStage::Connecting(i), ForwardEvent::Connected) => i + 1 < self.count
                && self.port > 0 && i + 1 > 65535 - self.port as usize,
            (_, _) => false,
        }
    }

    /// Takes an awaited event and says what the program does next.
    pub fn step(&mut self, event: ForwardEvent) -> (r: ForwardAction)
        requires
            old(self)@.wf(),
            forward_awaits(old(self)@.stage, event),
            !forward_overflows(old(self)@, event),
        ensures
            final(self)@.wf(),
            (final(self)@, r@) == forward_step(old(self)@, event),
    {
        let (stage, action) = match (self.stage, event) {
            (ForwardStage::Connecting(i), ForwardEvent::Connected) => if i + 1 < self.count {
                (ForwardStage::Connecting(i + 1), ForwardAction::Connect(self.target(i + 1)))
            } else if self.kind == ForwardKind::Single {
                (ForwardStage::Listening, ForwardAction::Listen)
            } else {
                (ForwardStage::Launching, ForwardAction::Launch)
            },
            (ForwardStage::Launching, ForwardEvent::Launched) => (
                ForwardStage::Joining(0),
                ForwardAction::Join(0),
            ),
            (ForwardStage::Joining(i), ForwardEvent::Ended) => if i + 1 < self.count {
                (ForwardStage::Joining(i + 1), ForwardAction::Join(i + 1))
            } else {
                (ForwardStage::Done, ForwardAction::Finish)
            },
            (ForwardStage::Listening, ForwardEvent::Ended) => (
                ForwardStage::Done,
                ForwardAction::Finish,
            ),
            (_, _) => (ForwardStage::Done, ForwardAction::Abort),
        };
        self.stage = stage;
        action
    }
}

/// The event of a success at a stage.
pub open spec fn forward_success(stage: ForwardStage) -> ForwardEvent {
    match stage {
        ForwardStage::Connecting(_) => ForwardEvent::Connected,
        ForwardStage::Launching => ForwardEvent::Launched,
        _ => ForwardEvent::Ended,
    }
}

/// Where it stands after `n` successes, and what the program does next.
pub open spec fn forward_after(forward: ForwardView, n: nat) -> (ForwardView, ForwardActionView)
    decreases n,
{
    if n == 0 {
        (forward, ForwardActionView::Connect(forward.target(0)))
    } else {
        let before = forward_after(forward, (n - 1) as nat).0;
        forward_step(before, forward_success(before.stage))
    }
}

/// As long as nothing fails, the clients of a range are set up in order, each with
/// its own host or port. Only when the last is set up do they listen, and only when
/// all have ended, each waited for in order, does the program end.
pub proof fn law_range_is_set_up_then_awaited(forward: ForwardView, n: nat)
    requires
        forward.wf(),
        forward.stage == ForwardStage::Connecting(0),
        !(forward.kind is Single),
        n <= 2 * forward.count + 1,
    ensures
        ({
            let count = forward.count;
            forward_after(forward, n) == if n < count {
                (
                    ForwardView { stage: ForwardStage::Connecting(n as usize), ..forward },
                    ForwardActionView::Connect(forward.target(n as int)),
                )
            } else if n == count {
                (
                    ForwardView { stage: ForwardStage::Launching, ..forward },
                    ForwardActionView::Launch,
                )
            } else if n <= 2 * count {
                (
                    ForwardView {
                        stage: ForwardStage::Joining((n - count - 1) as usize),
                        ..forward
                    },
                    ForwardActionView::Join((n - count - 1) as usize),
                )
            } else {
                (
                    ForwardView { stage: ForwardStage::Done, ..forward },
                    ForwardActionView::Finish,
                )
            }
        }),
    decreases n,
{
    if n > 0 {
        law_range_is_set_up_then_awaited(forward, (n - 1) as nat);
    }
}

/// A single client is set up, listens, and ends the program when it ends.
pub proof fn law_single_is_set_up_then_listens(forward: ForwardView)
    requires
        forward.wf(),
        forward.stage == ForwardStage::Connecting(0),
        forward.kind is Single,
    ensures
        forward_after(forward, 0).1 == ForwardActionView::Connect(
            TargetView {
                local_host: forward.hosts[0],
                local_port: forward.local_port,
                to: forward.to,
                port: forward.port,
                secret: forward.secret,
                bind_ip: forward.bind_ip,
            },
        ),
        forward_after(forward, 1).1 is Listen,
        forward_after(forward, 2).1 is Finish,
{
    reveal_with_fuel(forward_after, 3);
}

/// A range of ports exposes each port from its first on once, and no other.
pub proof fn law_each_port_is_exposed_once(forward: ForwardView, port: u16)
    requires
        forward.wf(),
        forward.kind is Ports,
    ensures
        forward.local_port <= port < forward.local_port + forward.count <==> exists|i: int|
            0 <= i < forward.count && (#[trigger] forward.target(i)).local_port == port,
        forall|i: int, j: int|
            0 <= i < j < forward.count ==> (#[trigger] forward.target(i)).local_port != (
            #[trigger] forward.target(j)).local_port,
{
    if forward.local_port <= port < forward.local_port + forward.count {
        assert(forward.target(port - forward.local_port).local_port == port);
    }
}

/// The clients of a range ask for consecutive ports from the given one on, in the
/// order of the range, or each for any port where none was given.
pub proof fn law_remote_ports_are_consecutive(forward: ForwardView, i: int)
    requires
        forward.wf(),
        0 <= i < forward.count,
        forward.fits(i),
    ensures
        forward.port > 0 ==> forward.target(i).port == forward.port + i,
        forward.port == 0 ==> forward.target(i).port == 0,
{
}

/// Every client of a command, whatever it forwards, is set up with the server, the
/// secret and the address that the command names.
pub proof fn law_every_client_has_the_options(forward: ForwardView, i: int)
    requires
        0 <= i < forward.count,
    ensures
        forward.target(i).to == forward.to,
        forward.target(i).secret == forward.secret,
        forward.target(i).bind_ip == forward.bind_ip,
{
}

/// The clients of a range of hosts expose the same port, each of its own host; those
/// of a range of ports expose the same host, each a port one above the last; a single
/// client exposes its host and port.
pub proof fn law_each_client_exposes_its_own(forward: ForwardView, i: int)
    requires
        0 <= i < forward.count,
    ensures
        forward.kind is Hosts ==> forward.target(i).local_host == forward.hosts[i]
            && forward.target(i).local_port == forward.local_port,
        forward.kind is Ports ==> forward.target(i).local_host == forward.hosts[0] && (
        forward.local_port + i <= 65535 ==> forward.target(i).local_port == forward.local_port
            + i),
        forward.kind is Single ==> forward.target(i).local_host == forward.hosts[0]
            && forward.target(i).local_port == forward.local_port,
{
}

/// Each client asks for the port one above that of the last, from the one that was
/// named on; where none was named, each asks for any.
pub proof fn law_each_client_asks_for_the_next_port(forward: ForwardView, i: int)
    requires
        0 <= i < forward.count,
    ensures
        forward.port > 0 && forward.port + i <= 65535 ==> forward.target(i).port == forward.port
            + i,
        forward.port == 0 ==> forward.target(i).port == 0,
        forward.fits(i) <==> forward.port == 0 || forward.port + i <= 65535,
{
}

/// It starts with the first client and with all that it was given.
pub proof fn law_start_keeps_what_it_was_given(
    kind: ForwardKind,
    hosts: Seq<Seq<char>>,
    local_port: u16,
    count: usize,
    to: Seq<char>,
    port: u16,
    secret: Option<Seq<char>>,
    bind_ip: Option<Seq<char>>,
)
    ensures
        ({
            let (forward, action) = forward_start(
                kind,
                hosts,
                local_port,
                count,
                to,
                port,
                secret,
                bind_ip,
            );
            &&& forward.kind == kind && forward.hosts == hosts && forward.local_port == local_port
            &&& forward.count == count && forward.to == to && forward.port == port
            &&& forward.secret == secret && forward.bind_ip == bind_ip
            &&& forward.stage == ForwardStage::Connecting(0)
            &&& action == ForwardActionView::Connect(
                TargetView { local_host: hosts[0], local_port, to, port, secret, bind_ip },
            )
        }),
{
}

/// No step changes what is forwarded.
pub proof fn law_step_keeps_what_is_forwarded(forward: ForwardView, event: ForwardEvent)
    ensures
        ({
            let after = forward_step(forward, event).0;
            &&& after.kind == forward.kind && after.hosts == forward.hosts
            &&& after.local_port == forward.local_port && after.count == forward.count
            &&& after.to == forward.to && after.port == forward.port
            &&& after.secret == forward.secret && after.bind_ip == forward.bind_ip
        }),
{
}

/// A client that is set up is followed by the next one; after the last, a single
/// client listens and those of a range are launched. The tasks are waited for from the
/// first to the last, and only then does the program end.
pub proof fn law_success_leads_to_the_next(forward: ForwardView, i: usize)
    requires
        i < forward.count,
    ensures
        forward.stage == ForwardStage::Connecting(i) ==> {
            let (after, action) = forward_step(forward, ForwardEvent::Connected);
            &&& i + 1 < forward.count ==> after.stage == ForwardStage::Connecting((i + 1) as usize)
                && action == ForwardActionView::Connect(forward.target(i + 1))
            &&& i + 1 == forward.count && forward.kind is Single ==> after.stage is Listening
                && action is Listen
            &&& i + 1 == forward.count && !(forward.kind is Single) ==> after.stage is Launching
                && action is Launch
        },
        forward.stage is Launching ==> {
            let (after, action) = forward_step(forward, ForwardEvent::Launched);
            after.stage == ForwardStage::Joining(0) && action == ForwardActionView::Join(0)
        },
        forward.stage == ForwardStage::Joining(i) ==> {
            let (after, action) = forward_step(forward, ForwardEvent::Ended);
            &&& i + 1 < forward.count ==> after.stage == ForwardStage::Joining((i + 1) as usize)
                && action == ForwardActionView::Join((i + 1) as usize)
            &&& i + 1 == forward.count ==> after.stage is Done && action is Finish
        },
        forward.stage is Listening ==> {
            let (after, action) = forward_step(forward, ForwardEvent::Ended);
            after.stage is Done && action is Finish
        },
{
}

/// The first failure ends everything, with the error that came. Starting the tasks
/// cannot fail.
pub proof fn law_first_failure_ends_everything(forward: ForwardView)
    ensures
        forward_awaits(forward.stage, ForwardEvent::Failed) <==> !(forward.stage is Launching)
            && !(forward.stage is Done),
        forward_awaits(forward.stage, ForwardEvent::Failed) ==> forward_step(
            forward,
            ForwardEvent::Failed,
        ).1 is Abort && forward_step(forward, ForwardEvent::Failed).0.stage is Done,
{
}

/// What is awaited is exactly every outcome of what was asked last.
pub proof fn law_forward_awaits_every_outcome(
    forward: ForwardView,
    event: ForwardEvent,
    next: ForwardEvent,
)
    requires
        forward_awaits(forward.stage, event),
    ensures
        forward_awaits(ForwardStage::Connecting(0), next) <==> next is Connected || next is Failed,
        ({
            let (after, action) = forward_step(forward, event);
            forward_awaits(after.stage, next) <==> match next {
                ForwardEvent::Connected => action is Connect,
                ForwardEvent::Launched => action is Launch,
                ForwardEvent::Ended => action is Listen || action is Join,
                ForwardEvent::Failed => action is Connect || action is Listen || action is Join,
            }
        }),
{
}

/// A port beyond the last is asked for exactly where another client follows, a port
/// was named, and the one that this client would ask for is above 65535.
pub proof fn law_overflow_is_a_port_beyond_the_last(forward: ForwardView, i: usize)
    requires
        forward.stage == ForwardStage::Connecting(i),
        i < forward.count,
    ensures
        forward_overflows(forward, ForwardEvent::Connected) <==> i + 1 < forward.count
            && forward.port > 0 && forward.port + i + 1 > 65535,
        !forward_overflows(forward, ForwardEvent::Failed),
{
}

/// The view of an action shows all that the program is to do, down to what a client is
/// set up with.
pub proof fn law_forward_actions_are_shown(action: ForwardAction, target: Target)
    ensures
        match action {
            ForwardAction::Connect(target) => action@ == ForwardActionView::Connect(target@),
            ForwardAction::Listen => action@ == ForwardActionView::Listen,
            ForwardAction::Launch => action@ == ForwardActionView::Launch,
            ForwardAction::Join(i) => action@ == ForwardActionView::Join(i),
            ForwardAction::Finish => action@ == ForwardActionView::Finish,
            ForwardAction::Abort => action@ == ForwardActionView::Abort,
        },
        target@.local_host == target.local_host@,
        target@.local_port == target.local_port,
        target@.to == target.to@,
        target@.port == target.port,
        target@.secret == match target.secret {
            Some(secret) => Some(secret@),
            None => None,
        },
        target@.bind_ip == match target.bind_ip {
            Some(ip) => Some(ip@),
            None => None,
        },
{
}

} // verus!
