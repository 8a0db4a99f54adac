//! What holds of a control connection from its start on, whatever happens on it and
//! whatever other connections do to the server meanwhile.
use vstd::prelude::*;

use crate::random::is_v4;
use crate::server::{ServerView, BIND_ATTEMPTS};
use crate::session::{
    session_awaits, session_draws_port, session_start, session_step, SessionActionView,
    SessionEventView, SessionView,
};
use crate::shared::ServerMessageView;

verus! {

/// One step of a session: the connections that wait at the server at that time,
/// what happened, and what was drawn by chance.
pub struct Turn {
    pub parked: Map<u128, u64>,
    pub event: SessionEventView,
    pub drawn: u16,
    pub id: u128,
}

/// The server as a turn finds it.
pub open spec fn server_at(server: ServerView, turn: Turn) -> ServerView {
    ServerView { parked: turn.parked, ..server }
}

/// What a turn does to a session.
pub open spec fn turn_step(server: ServerView, session: SessionView, turn: Turn) -> (
    ServerView,
    SessionView,
    SessionActionView,
) {
    session_step(server_at(server, turn), session, turn.event, turn.drawn, turn.id)
}

/// Where the session of a server stands after some turns.
pub open spec fn session_after(server: ServerView, turns: Seq<Turn>) -> SessionView
    decreases turns.len(),
{
    if turns.len() == 0 {
        session_start(server).0
    } else {
        turn_step(server, session_after(server, turns.drop_last()), turns.last()).1
    }
}

/// What the program was told to do, from the start on: one action more than there
/// were turns.
pub open spec fn session_actions(server: ServerView, turns: Seq<Turn>) -> Seq<SessionActionView>
    decreases turns.len(),
{
    if turns.len() == 0 {
        seq![session_start(server).1]
    } else {
        session_actions(server, turns.drop_last()).push(
            turn_step(server, session_after(server, turns.drop_last()), turns.last()).2,
        )
    }
}

/// Whether the turns can happen: each event is awaited, and what is drawn is what
/// can be drawn.
pub open spec fn session_history(server: ServerView, turns: Seq<Turn>) -> bool
    decreases turns.len(),
{
    turns.len() > 0 ==> {
        let session = session_after(server, turns.drop_last());
        let turn = turns.last();
        &&& session_history(server, turns.drop_last())
        &&& session_awaits(session, turn.event)
        &&& session_draws_port(session, turn.event) ==> server.allows(turn.drawn)
        &&& turn.event is Accepted ==> is_v4(turn.id)
    }
}

/// How many ports were bound, or tried to.
pub open spec fn binds(actions: Seq<SessionActionView>) -> nat
    decreases actions.len(),
{
    if actions.len() == 0 {
        0
    } else {
        binds(actions.drop_last()) + if actions.last() is Bind {
            1nat
        } else {
            0
        }
    }
}

/// There is one action more than there were turns.
proof fn lemma_actions_len(server: ServerView, turns: Seq<Turn>)
    ensures
        session_actions(server, turns).len() == turns.len() + 1,
    decreases turns.len(),
{
    if turns.len() > 0 {
        lemma_actions_len(server, turns.drop_last());
    }
}

/// No session binds a port outside of the range of the server.
pub proof fn law_only_allowed_ports_are_bound(server: ServerView, turns: Seq<Turn>, i: int)
    requires
        session_history(server, turns),
        0 <= i <= turns.len(),
    ensures
        session_actions(server, turns)[i] matches SessionActionView::Bind { port, .. }
            ==> server.allows(port),
    decreases turns.len(),
{
    lemma_actions_len(server, turns);
    if turns.len() > 0 {
        lemma_actions_len(server, turns.drop_last());
        if i < turns.len() {
            law_only_allowed_ports_are_bound(server, turns.drop_last(), i);
        }
    }
}

/// How many more ports a session may bind.
spec fn binds_left(session: SessionView) -> nat {
    match session {
        SessionView::Authenticating | SessionView::Waiting => BIND_ATTEMPTS as nat,
        SessionView::Binding(search) => match search.left {
            Some(left) => left as nat,
            None => 0,
        },
        _ => 0,
    }
}

/// No session binds more than `BIND_ATTEMPTS` ports.
pub proof fn law_binds_are_bounded(server: ServerView, turns: Seq<Turn>)
    requires
        session_history(server, turns),
    ensures
        binds(session_actions(server, turns)) <= BIND_ATTEMPTS,
{
    lemma_binds_are_bounded(server, turns);
}

proof fn lemma_binds_are_bounded(server: ServerView, turns: Seq<Turn>)
    requires
        session_history(server, turns),
    ensures
        binds(session_actions(server, turns)) + binds_left(session_after(server, turns))
            <= BIND_ATTEMPTS,
    decreases turns.len(),
{
    let actions = session_actions(server, turns);
    if turns.len() == 0 {
        reveal_with_fuel(binds, 2);
    } else {
        lemma_binds_are_bounded(server, turns.drop_last());
        assert(actions.drop_last() == session_actions(server, turns.drop_last()));
    }
}

/// Where the server has a secret, a client that does not get through the handshake
/// is sent an error at most: no message of it is read, no port is bound for it, and
/// no waiting connection is touched.
pub proof fn law_no_service_without_handshake(server: ServerView, turns: Seq<Turn>, i: int)
    requires
        server.auth is Some,
        session_history(server, turns),
        0 < i <= turns.len(),
        !(turns[0].event is Authenticated),
    ensures
        match session_actions(server, turns)[i] {
            SessionActionView::Send(ServerMessageView::Error(_)) => true,
            SessionActionView::Finish(_) => true,
            SessionActionView::Abort => true,
            _ => false,
        },
        turn_step(server, session_after(server, turns.take(i - 1)), turns[i - 1]).0.parked
            == turns[i - 1].parked,
{
    lemma_no_service_without_handshake(server, turns, i);
}

proof fn lemma_no_service_without_handshake(server: ServerView, turns: Seq<Turn>, i: int)
    requires
        server.auth is Some,
        session_history(server, turns),
        0 < i <= turns.len(),
        !(turns[0].event is Authenticated),
    ensures
        session_after(server, turns) is Closing || session_after(server, turns) is Done,
        match session_actions(server, turns)[i] {
            SessionActionView::Send(ServerMessageView::Error(_)) => true,
            SessionActionView::Finish(_) => true,
            SessionActionView::Abort => true,
            _ => false,
        },
        turn_step(server, session_after(server, turns.take(i - 1)), turns[i - 1]).0.parked
            == turns[i - 1].parked,
    decreases turns.len(),
{
    let before = turns.drop_last();
    lemma_actions_len(server, turns);
    lemma_actions_len(server, before);
    if before.len() > 0 {
        assert(before[0] == turns[0]);
        let j = if i < turns.len() {
            i
        } else {
            i - 1
        };
        lemma_no_service_without_handshake(server, before, j);
        assert(before.take(i - 1) == turns.take(i - 1));
    }
    if i == turns.len() {
        assert(turns.take(i - 1) == before);
    }
}

/// Before each wait for a connection the client is sent a heartbeat, so that one
/// that is gone is noticed.
pub proof fn law_heartbeat_before_each_wait(server: ServerView, turns: Seq<Turn>, i: int)
    requires
        session_history(server, turns),
        0 <= i <= turns.len(),
        session_actions(server, turns)[i] is Accept,
    ensures
        i > 0,
        session_actions(server, turns)[i - 1] == SessionActionView::Send(
            ServerMessageView::Heartbeat,
        ),
    decreases turns.len(),
{
    lemma_actions_len(server, turns);
    if turns.len() > 0 {
        let before = turns.drop_last();
        lemma_actions_len(server, before);
        if i < turns.len() {
            law_heartbeat_before_each_wait(server, before, i);
        } else {
            lemma_beating_is_sending(server, before);
        }
    }
}

proof fn lemma_beating_is_sending(server: ServerView, turns: Seq<Turn>)
    requires
        session_history(server, turns),
        session_after(server, turns) is Beating,
    ensures
        session_actions(server, turns).last() == SessionActionView::Send(
            ServerMessageView::Heartbeat,
        ),
{
}

proof fn lemma_parking_is_scheduling(server: ServerView, turns: Seq<Turn>)
    requires
        session_history(server, turns),
        session_after(server, turns) is Parking,
    ensures
        turns.len() > 0,
        session_after(server, turns) matches SessionView::Parking(id) && {
            &&& is_v4(id)
            &&& session_actions(server, turns).last() matches SessionActionView::Schedule {
                id: scheduled,
                ..
            } && scheduled == id
            &&& turns.last().event matches SessionEventView::Accepted(ticket) && turn_step(
                server,
                session_after(server, turns.drop_last()),
                turns.last(),
            ).0.parked == turns.last().parked.insert(id, ticket)
        },
{
}

/// A connection is announced to the client only after it was parked and its removal
/// set up, under the same id.
pub proof fn law_announced_connections_are_parked(server: ServerView, turns: Seq<Turn>, i: int)
    requires
        session_history(server, turns),
        0 <= i <= turns.len(),
        session_actions(server, turns)[i] matches SessionActionView::Send(
            ServerMessageView::Connection(_),
        ),
    ensures
        i > 1,
        session_actions(server, turns)[i - 1] matches SessionActionView::Schedule { id, .. } && {
            &&& session_actions(server, turns)[i] == SessionActionView::Send(
                ServerMessageView::Connection(id),
            )
            &&& is_v4(id)
            &&& turns[i - 2].event matches SessionEventView::Accepted(ticket) && turn_step(
                server,
                session_after(server, turns.take(i - 2)),
                turns[i - 2],
            ).0.parked == turns[i - 2].parked.insert(id, ticket)
        },
    decreases turns.len(),
{
    lemma_actions_len(server, turns);
    if turns.len() > 0 {
        let before = turns.drop_last();
        lemma_actions_len(server, before);
        if i < turns.len() {
            law_announced_connections_are_parked(server, before, i);
            assert(before.take(i - 2) == turns.take(i - 2));
        } else {
            lemma_parking_is_scheduling(server, before);
            assert(turns.take(i - 2) == before.drop_last());
            assert(turns[i - 2] == before.last());
            assert(session_actions(server, turns)[i - 1] == session_actions(server, before).last());
        }
    }
}

/// At most one message is read from a control connection: a client that was given a
/// port, or a connection, is not listened to any more.
pub proof fn law_one_message_is_read(server: ServerView, turns: Seq<Turn>, i: int, j: int)
    requires
        session_history(server, turns),
        0 <= i < j <= turns.len(),
        session_actions(server, turns)[i] is Receive,
    ensures
        !(session_actions(server, turns)[j] is Receive),
    decreases turns.len(),
{
    let before = turns.drop_last();
    lemma_actions_len(server, turns);
    lemma_actions_len(server, before);
    if j < turns.len() {
        law_one_message_is_read(server, before, i, j);
    } else if session_actions(server, turns)[j] is Receive {
        lemma_handshake_is_first(server, before);
        assert(session_actions(server, turns)[i] == session_actions(server, before)[i]);
    }
}

proof fn lemma_handshake_is_first(server: ServerView, turns: Seq<Turn>)
    requires
        session_after(server, turns) is Authenticating,
    ensures
        turns.len() == 0,
{
}

/// A session that has told the client its port ends only where something fails. Until
/// then it sends heartbeats, waits for connections, parks and announces them, and does
/// nothing else.
pub proof fn law_open_port_stays_open(server: ServerView, turns: Seq<Turn>, i: int, j: int)
    requires
        session_history(server, turns),
        0 <= i < j <= turns.len(),
        session_actions(server, turns)[i] matches SessionActionView::Send(
            ServerMessageView::Hello(_),
        ),
    ensures
        turns[j - 1].event is Failed <==> session_actions(server, turns)[j] is Finish
            || session_actions(server, turns)[j] is Abort,
        match session_actions(server, turns)[j] {
            SessionActionView::Send(ServerMessageView::Heartbeat) => true,
            SessionActionView::Send(ServerMessageView::Connection(_)) => true,
            SessionActionView::Accept { .. } => true,
            SessionActionView::Schedule { .. } => true,
            SessionActionView::Finish(_) => true,
            SessionActionView::Abort => true,
            _ => false,
        },
    decreases turns.len(),
{
    let before = turns.drop_last();
    lemma_actions_len(server, turns);
    lemma_actions_len(server, before);
    if j < turns.len() {
        law_open_port_stays_open(server, before, i, j);
        assert(before[j - 1] == turns[j - 1]);
    } else {
        lemma_goes_round(server, before, i);
    }
}

proof fn lemma_goes_round(server: ServerView, turns: Seq<Turn>, i: int)
    requires
        session_history(server, turns),
        0 <= i <= turns.len(),
        session_actions(server, turns)[i] matches SessionActionView::Send(
            ServerMessageView::Hello(_),
        ),
    ensures
        match session_after(server, turns) {
            SessionView::Greeting
            | SessionView::Beating
            | SessionView::Accepting
            | SessionView::Parking(_)
            | SessionView::Announcing
            | SessionView::Done => true,
            _ => false,
        },
    decreases turns.len(),
{
    lemma_actions_len(server, turns);
    if turns.len() > 0 {
        lemma_actions_len(server, turns.drop_last());
        if i < turns.len() {
            lemma_goes_round(server, turns.drop_last(), i);
        }
    }
}

} // verus!
