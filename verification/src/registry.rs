//! The connections that came in and wait for the client to take them over.
use dashmap::DashMap;
use vstd::prelude::*;

verus! {

/// The map of `dashmap`, seen from outside.
#[verifier::external_type_specification]
#[verifier::external_body]
#[verifier::reject_recursive_types(K)]
#[verifier::reject_recursive_types(V)]
#[verifier::reject_recursive_types(S)]
pub struct ExDashMap<K, V, S>(DashMap<K, V, S>);

/// What a map holds: for each connection the ticket under which the program
/// keeps its socket.
pub uninterp spec fn parked(conns: DashMap<u128, u64>) -> Map<u128, u64>;

/// Calls `DashMap::new`, which makes an empty map.
#[verifier::external_body]
pub(crate) fn empty_registry() -> (r: DashMap<u128, u64>)
    ensures
        parked(r) == (Map::<u128, u64>::empty()),
{
    DashMap::new()
}

/// Calls `DashMap::insert`, which puts the ticket under the id and hands back the
/// one that stood there, if any did. The exclusive borrow keeps anyone else from
/// changing the map, or from holding a lock in it, meanwhile.
#[verifier::external_body]
pub(crate) fn registry_insert(conns: &mut DashMap<u128, u64>, id: u128, ticket: u64) -> (r: Option<
    u64,
>)
    ensures
        parked(*final(conns)) == parked(*old(conns)).insert(id, ticket),
        r == parked(*old(conns)).get(id),
{
    conns.insert(id, ticket)
}

/// Calls `DashMap::remove`, which takes the entry of the id out and hands it back,
/// if there is one. The exclusive borrow keeps anyone else from changing the map, or
/// from holding a lock in it, meanwhile.
#[verifier::external_body]
pub(crate) fn registry_remove(conns: &mut DashMap<u128, u64>, id: u128) -> (r: Option<(u128, u64)>)
    ensures
        parked(*final(conns)) == parked(*old(conns)).remove(id),
        match parked(*old(conns)).get(id) {
            Some(ticket) => r == Some((id, ticket)),
            None => r is None,
        },
{
    conns.remove(&id)
}

} // verus!
