//! What holds of a server from its start on, with all the control connections that
//! it serves at once.
use vstd::prelude::*;

use crate::history::{session_after, session_history, Turn};
use crate::random::is_v4;
use crate::server::ServerView;
use crate::session::{
    session_awaits, session_draws_port, session_start, session_step, SessionActionView,
    SessionEventView, SessionView, STALE_AFTER_SECS,
};
use crate::shared::ClientMessageView;

verus! {

/// One thing that happens at a server.
pub enum Happening {
    /// A control connection comes in; its session gets the next number.
    Opened,
    /// The session of this number takes an event, with what is drawn by chance.
    Stepped { session: nat, event: SessionEventView, drawn: u16, id: u128 },
    /// A connection that nobody took over in time is removed.
    Removed(u128),
}

/// A server and its sessions, in the order in which they were opened.
pub struct Service {
    pub server: ServerView,
    pub sessions: Seq<SessionView>,
}

/// What a happening does.
pub open spec fn service_step(service: Service, happening: Happening) -> Service {
    match happening {
        Happening::Opened => Service {
            sessions: service.sessions.push(session_start(service.server).0),
            ..service
        },
        Happening::Stepped { session, event, drawn, id } => {
            let (server, after, _) = session_step(
                service.server,
                service.sessions[session as int],
                event,
                drawn,
                id,
            );
            Service { server, sessions: service.sessions.update(session as int, after) }
        },
        Happening::Removed(id) => Service {
            server: ServerView { parked: service.server.parked.remove(id), ..service.server },
            ..service
        },
    }
}

/// The server and its sessions after all that happened.
pub open spec fn service_after(server: ServerView, happened: Seq<Happening>) -> Service
    decreases happened.len(),
{
    if happened.len() == 0 {
        Service { server, sessions: seq![] }
    } else {
        service_step(service_after(server, happened.drop_last()), happened.last())
    }
}

/// Whether something can happen: the session exists and awaits the event, and what
/// is drawn is what can be drawn.
pub open spec fn can_happen(service: Service, happening: Happening) -> bool {
    happening matches Happening::Stepped { session, event, drawn, id } ==> {
        &&& session < service.sessions.len()
        &&& session_awaits(service.sessions[session as int], event)
        &&& session_draws_port(service.sessions[session as int], event) ==> service.server.allows(
            drawn,
        )
        &&& event is Accepted ==> is_v4(id)
    }
}

/// Whether all this can happen at a server, one after the other.
pub open spec fn service_history(server: ServerView, happened: Seq<Happening>) -> bool
    decreases happened.len(),
{
    happened.len() > 0 ==> {
        &&& service_history(server, happened.drop_last())
        &&& can_happen(service_after(server, happened.drop_last()), happened.last())
    }
}

/// What the program is told at happening `i`, where that is a step of a session.
pub open spec fn service_action(
    server: ServerView,
    happened: Seq<Happening>,
    i: int,
) -> Option<SessionActionView> {
    match happened[i] {
        Happening::Stepped { session, event, drawn, id } => {
            let before = service_after(server, happened.take(i));
            Some(
                session_step(
                    before.server,
                    before.sessions[session as int],
                    event,
                    drawn,
                    id,
                ).2,
            )
        },
        _ => None,
    }
}

/// Whether a connection is parked under `id`.
pub open spec fn parks(happening: Happening, id: u128) -> bool {
    happening matches Happening::Stepped { event, id: named, .. } && event is Accepted && named
        == id
}

/// Whether the connection with this ticket is parked under `id`.
pub open spec fn parks_ticket(happening: Happening, id: u128, ticket: u64) -> bool {
    parks(happening, id) && happening->event == SessionEventView::Accepted(ticket)
}

/// Whether a client asks for the connection that waits under `id`.
pub open spec fn asks(happening: Happening, id: u128) -> bool {
    happening matches Happening::Stepped { event, .. } && event == SessionEventView::Received(
        Some(ClientMessageView::Accept(id)),
    )
}

/// Whether a client that asks for `id` is served the socket of a connection.
pub open spec fn serves(server: ServerView, happened: Seq<Happening>, i: int, id: u128) -> bool {
    asks(happened[i], id) && (service_action(server, happened, i) matches Some(action)
        && action is Flush)
}

/// Whether something changes what waits under `id`.
pub open spec fn touches(happening: Happening, id: u128) -> bool {
    parks(happening, id) || asks(happening, id) || happening == Happening::Removed(id)
}

/// The turns of the session of a number, each with the connections that waited then.
pub open spec fn turns_of(server: ServerView, happened: Seq<Happening>, number: nat) -> Seq<Turn>
    decreases happened.len(),
{
    if happened.len() == 0 {
        seq![]
    } else {
        let before = turns_of(server, happened.drop_last(), number);
        match happened.last() {
            Happening::Stepped { session, event, drawn, id } if session == number => before.push(
                Turn {
                    parked: service_after(server, happened.drop_last()).server.parked,
                    event,
                    drawn,
                    id,
                },
            ),
            _ => before,
        }
    }
}

/// Whatever happens, the server keeps its address, its ports and its secret.
pub proof fn law_server_is_kept(server: ServerView, happened: Seq<Happening>)
    ensures
        service_after(server, happened).server == (ServerView {
            parked: service_after(server, happened).server.parked,
            ..server
        }),
    decreases happened.len(),
{
    if happened.len() > 0 {
        law_server_is_kept(server, happened.drop_last());
    }
}

/// Each of the sessions that a server serves at once has a history of its own, so
/// that what holds of every history of a session holds of it.
pub proof fn law_every_session_has_its_history(
    server: ServerView,
    happened: Seq<Happening>,
    number: nat,
)
    requires
        service_history(server, happened),
        number < service_after(server, happened).sessions.len(),
    ensures
        session_history(server, turns_of(server, happened, number)),
        session_after(server, turns_of(server, happened, number)) == service_after(
            server,
            happened,
        ).sessions[number as int],
    decreases happened.len(),
{
    if happened.len() > 0 {
        let before = happened.drop_last();
        law_server_is_kept(server, before);
        if number < service_after(server, before).sessions.len() {
            law_every_session_has_its_history(server, before, number);
            let turns = turns_of(server, happened, number);
            if let Happening::Stepped { session, .. } = happened.last() {
                if session == number {
                    assert(turns.drop_last() == turns_of(server, before, number));
                }
            }
        } else {
            lemma_no_turns_before_the_session(server, before, number);
        }
    }
}

proof fn lemma_no_turns_before_the_session(
    server: ServerView,
    happened: Seq<Happening>,
    number: nat,
)
    requires
        service_history(server, happened),
        number >= service_after(server, happened).sessions.len(),
    ensures
        turns_of(server, happened, number).len() == 0,
    decreases happened.len(),
{
    if happened.len() > 0 {
        lemma_no_turns_before_the_session(server, happened.drop_last(), number);
    }
}

/// A history can be cut off anywhere; what happened next could happen.
proof fn lemma_history_prefix(server: ServerView, happened: Seq<Happening>, n: int)
    requires
        service_history(server, happened),
        0 <= n < happened.len(),
    ensures
        service_history(server, happened.take(n)),
        can_happen(service_after(server, happened.take(n)), happened[n]),
        service_after(server, happened.take(n + 1)) == service_step(
            service_after(server, happened.take(n)),
            happened[n],
        ),
    decreases happened.len(),
{
    assert(happened.take(n + 1).drop_last() == happened.take(n));
    if n < happened.len() - 1 {
        let before = happened.drop_last();
        lemma_history_prefix(server, before, n);
        assert(before.take(n) == happened.take(n));
    } else {
        assert(happened.take(n) == happened.drop_last());
    }
}

/// What waits under `id` stays as it is unless something touches it.
proof fn lemma_untouched(server: ServerView, happened: Seq<Happening>, n: int, id: u128)
    requires
        service_history(server, happened),
        0 <= n < happened.len(),
        !touches(happened[n], id),
    ensures
        service_after(server, happened.take(n + 1)).server.parked.get(id) == service_after(
            server,
            happened.take(n),
        ).server.parked.get(id),
{
    lemma_history_prefix(server, happened, n);
}

/// What a touch leaves under `id`: the parked ticket, or nothing.
proof fn lemma_touched(server: ServerView, happened: Seq<Happening>, n: int, id: u128)
    requires
        service_history(server, happened),
        0 <= n < happened.len(),
        touches(happened[n], id),
    ensures
        ({
            let after = service_after(server, happened.take(n + 1)).server.parked.get(id);
            if parks(happened[n], id) {
                after is Some && parks_ticket(happened[n], id, after->0)
            } else {
                after is None
            }
        }),
{
    lemma_history_prefix(server, happened, n);
}

/// Where nothing waits under `id`, nothing does later unless it is parked meanwhile.
proof fn lemma_nothing_waits_until_parked(
    server: ServerView,
    happened: Seq<Happening>,
    from: int,
    to: int,
    id: u128,
)
    requires
        service_history(server, happened),
        0 <= from <= to <= happened.len(),
        service_after(server, happened.take(from)).server.parked.get(id) is None,
        forall|k: int| from <= k < to ==> !parks(#[trigger] happened[k], id),
    ensures
        service_after(server, happened.take(to)).server.parked.get(id) is None,
    decreases to - from,
{
    if from < to {
        lemma_nothing_waits_until_parked(server, happened, from, to - 1, id);
        assert(!parks(happened[to - 1], id));
        if touches(happened[to - 1], id) {
            lemma_touched(server, happened, to - 1, id);
        } else {
            lemma_untouched(server, happened, to - 1, id);
        }
    }
}

/// Over the whole run of a server, a parked connection is served at most once:
/// between two clients that are served a connection under one id, a connection was
/// parked under that id.
pub proof fn law_connection_is_served_at_most_once(
    server: ServerView,
    happened: Seq<Happening>,
    i: int,
    j: int,
    id: u128,
)
    requires
        service_history(server, happened),
        0 <= i < j < happened.len(),
        serves(server, happened, i, id),
        serves(server, happened, j, id),
    ensures
        exists|k: int| i < k < j && parks(#[trigger] happened[k], id),
{
    if forall|k: int| i < k < j ==> !parks(#[trigger] happened[k], id) {
        lemma_touched(server, happened, i, id);
        lemma_nothing_waits_until_parked(server, happened, i + 1, j, id);
        lemma_history_prefix(server, happened, j);
    }
}

/// Whether happening `k` parked what waits under `id` before happening `n`: nothing
/// in between touched it.
pub open spec fn parked_last(happened: Seq<Happening>, k: int, n: int, id: u128, ticket: u64) -> bool {
    &&& 0 <= k < n
    &&& parks_ticket(happened[k], id, ticket)
    &&& forall|m: int| k < m < n ==> !touches(#[trigger] happened[m], id)
}

/// What waits at a server that started with nothing waiting was parked there, and has
/// been neither asked for, nor removed, nor displaced since.
pub proof fn law_what_waits_was_parked(
    server: ServerView,
    happened: Seq<Happening>,
    n: int,
    id: u128,
    ticket: u64,
)
    requires
        server.parked == Map::<u128, u64>::empty(),
        service_history(server, happened),
        0 <= n <= happened.len(),
        service_after(server, happened.take(n)).server.parked.get(id) == Some(ticket),
    ensures
        exists|k: int| parked_last(happened, k, n, id, ticket),
    decreases n,
{
    if n == 0 {
        assert(happened.take(0).len() == 0);
    } else if touches(happened[n - 1], id) {
        lemma_touched(server, happened, n - 1, id);
        assert(parked_last(happened, n - 1, n, id, ticket));
    } else {
        lemma_untouched(server, happened, n - 1, id);
        let before = n - 1;
        law_what_waits_was_parked(server, happened, before, id, ticket);
        let k = choose|k: int| parked_last(happened, k, before, id, ticket);
        assert(parked_last(happened, k, n, id, ticket));
    }
}

/// Whether the program is told at happening `k` to remove what waits under `id` so
/// many seconds later.
pub open spec fn schedules(
    server: ServerView,
    happened: Seq<Happening>,
    k: int,
    id: u128,
    after_secs: u64,
) -> bool {
    service_action(server, happened, k) matches Some(
        SessionActionView::Schedule { id: due, after_secs: after, .. },
    ) && due == id && after == after_secs
}

/// Wherever a connection is parked, the program is told to remove it
/// `STALE_AFTER_SECS` seconds later.
pub proof fn law_parked_connection_is_scheduled(
    server: ServerView,
    happened: Seq<Happening>,
    k: int,
    id: u128,
)
    requires
        service_history(server, happened),
        0 <= k < happened.len(),
        parks(happened[k], id),
    ensures
        schedules(server, happened, k, id, STALE_AFTER_SECS),
{
    lemma_history_prefix(server, happened, k);
}

/// What waits at a server that started with nothing waiting has its removal set up:
/// the program was told of it when the connection was parked.
pub proof fn law_what_waits_is_due(
    server: ServerView,
    happened: Seq<Happening>,
    n: int,
    id: u128,
    ticket: u64,
)
    requires
        server.parked == Map::<u128, u64>::empty(),
        service_history(server, happened),
        0 <= n <= happened.len(),
        service_after(server, happened.take(n)).server.parked.get(id) == Some(ticket),
    ensures
        exists|k: int| #[trigger]
            parked_last(happened, k, n, id, ticket) && schedules(
                server,
                happened,
                k,
                id,
                STALE_AFTER_SECS,
            ),
{
    law_what_waits_was_parked(server, happened, n, id, ticket);
    let k = choose|k: int| parked_last(happened, k, n, id, ticket);
    law_parked_connection_is_scheduled(server, happened, k, id);
}

/// Whether the removal of `id` came after happening `k`.
pub open spec fn removed_since(happened: Seq<Happening>, k: int, id: u128) -> bool {
    exists|m: int| k < m < happened.len() && #[trigger] happened[m] == Happening::Removed(id)
}

/// Whether the program has run by `now` every removal that was due by then; `clock`
/// gives the second at which each thing happened.
pub open spec fn removals_are_run(
    server: ServerView,
    happened: Seq<Happening>,
    clock: Seq<nat>,
    now: nat,
) -> bool {
    forall|k: int, id: u128, after_secs: u64|
        0 <= k < happened.len() && #[trigger] schedules(server, happened, k, id, after_secs)
            && clock[k] + after_secs <= now ==> removed_since(happened, k, id)
}

/// No connection stays for ever: from `STALE_AFTER_SECS` seconds after it was parked
/// on, nothing waits under its id, unless another was parked under the same id since.
/// That holds whether or not it was asked for, whether or not it could be announced,
/// and whether or not the control connection that it came by still lives.
pub proof fn law_no_connection_stays_for_ever(
    server: ServerView,
    happened: Seq<Happening>,
    clock: Seq<nat>,
    now: nat,
    k: int,
    id: u128,
)
    requires
        service_history(server, happened),
        clock.len() == happened.len(),
        removals_are_run(server, happened, clock, now),
        0 <= k < happened.len(),
        parks(happened[k], id),
        forall|m: int| k < m < happened.len() ==> !parks(#[trigger] happened[m], id),
        clock[k] + STALE_AFTER_SECS <= now,
    ensures
        service_after(server, happened).server.parked.get(id) is None,
{
    law_parked_connection_is_scheduled(server, happened, k, id);
    let m = choose|m: int|
        k < m < happened.len() && #[trigger] happened[m] == Happening::Removed(id);
    lemma_touched(server, happened, m, id);
    lemma_nothing_waits_until_parked(server, happened, m + 1, happened.len() as int, id);
    assert(happened.take(happened.len() as int) == happened);
}

/// Whatever waits at a server that started with nothing waiting was parked less than
/// `STALE_AFTER_SECS` seconds ago.
pub proof fn law_what_waits_is_recent(
    server: ServerView,
    happened: Seq<Happening>,
    clock: Seq<nat>,
    now: nat,
    id: u128,
    ticket: u64,
)
    requires
        server.parked == Map::<u128, u64>::empty(),
        service_history(server, happened),
        clock.len() == happened.len(),
        removals_are_run(server, happened, clock, now),
        service_after(server, happened).server.parked.get(id) == Some(ticket),
    ensures
        exists|k: int| #[trigger]
            parked_last(happened, k, happened.len() as int, id, ticket) && now < clock[k]
                + STALE_AFTER_SECS,
{
    let n = happened.len() as int;
    assert(happened.take(n) == happened);
    law_what_waits_was_parked(server, happened, n, id, ticket);
    let k = choose|k: int| parked_last(happened, k, n, id, ticket);
    law_parked_connection_is_scheduled(server, happened, k, id);
    if clock[k] + STALE_AFTER_SECS <= now {
        let m = choose|m: int|
            k < m < happened.len() && #[trigger] happened[m] == Happening::Removed(id);
        assert(touches(happened[m], id));
    }
}

/// A client that asks for a connection is served exactly the one that was last parked
/// under that id, where it has been neither asked for nor removed since; else it is
/// served nothing.
pub proof fn law_served_connection_is_the_parked_one(
    server: ServerView,
    happened: Seq<Happening>,
    i: int,
    id: u128,
    ticket: u64,
)
    requires
        server.parked == Map::<u128, u64>::empty(),
        service_history(server, happened),
        0 <= i < happened.len(),
        asks(happened[i], id),
    ensures
        service_action(server, happened, i) == Some(SessionActionView::Flush(ticket)) <==> exists|
            k: int,
        | parked_last(happened, k, i, id, ticket),
{
    lemma_history_prefix(server, happened, i);
    let waits = service_after(server, happened.take(i)).server.parked.get(id);
    if waits == Some(ticket) {
        law_what_waits_was_parked(server, happened, i, id, ticket);
    }
    if exists|k: int| parked_last(happened, k, i, id, ticket) {
        let k = choose|k: int| parked_last(happened, k, i, id, ticket);
        lemma_touched(server, happened, k, id);
        lemma_still_waits(server, happened, k + 1, i, id);
    }
}

proof fn lemma_still_waits(
    server: ServerView,
    happened: Seq<Happening>,
    from: int,
    to: int,
    id: u128,
)
    requires
        service_history(server, happened),
        0 <= from <= to <= happened.len(),
        forall|m: int| from <= m < to ==> !touches(#[trigger] happened[m], id),
    ensures
        service_after(server, happened.take(to)).server.parked.get(id) == service_after(
            server,
            happened.take(from),
        ).server.parked.get(id),
    decreases to - from,
{
    if from < to {
        lemma_still_waits(server, happened, from, to - 1, id);
        assert(!touches(happened[to - 1], id));
        lemma_untouched(server, happened, to - 1, id);
    }
}

} // verus!
