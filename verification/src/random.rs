//! What is drawn by chance: ports to try and names for connections.
use std::ops::RangeInclusive;

use vstd::prelude::*;

verus! {

/// Whether the bits are those of a random (version 4) UUID: the version is 4 and
/// the variant is that of RFC 9562.
pub open spec fn is_v4(id: u128) -> bool {
    &&& (id >> 76) & 0xf == 4
    &&& (id >> 62) & 0x3 == 2
}

/// Whether a range holds at least one port.
pub open spec fn has_port(range: RangeInclusive<u16>) -> bool {
    !range@.exhausted && range@.start <= range@.end
}

/// Whether a range that has at least one port holds `port`.
pub open spec fn in_range(range: RangeInclusive<u16>, port: u16) -> bool {
    range@.start <= port <= range@.end
}

/// Calls `fastrand::u16`, which draws a number of the range that it is handed,
/// both ends included. It panics on an empty range, so none is handed to it.
/// Which number of the range comes is left open.
#[verifier::external_body]
pub(crate) fn random_port(range: &RangeInclusive<u16>) -> (r: u16)
    requires
        has_port(*range),
    ensures
        in_range(*range, r),
{
    fastrand::u16(range.clone())
}

/// Calls `uuid::Uuid::new_v4` and hands back its 128 bits. All of them are drawn
/// by chance but for the version and the variant, which are fixed. It panics where the
/// operating system has no random bytes to give.
#[verifier::external_body]
pub(crate) fn fresh_id() -> (r: u128)
    ensures
        is_v4(r),
{
    uuid::Uuid::new_v4().as_u128()
}

/// No random UUID is the nil UUID.
pub proof fn law_v4_is_not_nil(id: u128)
    requires
        is_v4(id),
    ensures
        id != 0,
{
    assert((id >> 76) & 0xf == 4 ==> id != 0) by (bit_vector);
}

/// The version of a random UUID is the thirteenth of its 32 hexadecimal digits, and
/// its variant the two high bits of the seventeenth.
pub proof fn law_v4_by_its_digits(id: u128)
    ensures
        is_v4(id) <==> (id / 0x1_0000_0000_0000_0000_000u128) % 16 == 4 && (id
            / 0x4000_0000_0000_0000u128) % 4 == 2,
{
    assert((id >> 76) & 0xf == (id / 0x1_0000_0000_0000_0000_000u128) % 16) by (bit_vector);
    assert((id >> 62) & 0x3 == (id / 0x4000_0000_0000_0000u128) % 4) by (bit_vector);
}

/// A range holds a port exactly where its ends do not cross, and then exactly the
/// ports from the one to the other.
pub proof fn law_range_holds_its_ends(range: RangeInclusive<u16>, port: u16)
    requires
        !range@.exhausted,
    ensures
        has_port(range) <==> range@.start <= range@.end,
        in_range(range, port) <==> range@.start <= port && port <= range@.end,
        has_port(range) ==> in_range(range, range@.start) && in_range(range, range@.end),
{
}

} // verus!
