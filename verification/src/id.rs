//! The ids that servers are listed under.

use vstd::prelude::*;

verus! {

/// The id of a listed server: a UUID as one number, its first byte the most
/// significant one.
pub type ServerId = u128;

/// Whether `id` has the layout of a UUID of version 4: the version and the
/// variant of RFC 9562 stand where they should. All other bits are free.
pub open spec fn is_uuid_v4(id: ServerId) -> bool {
    id & 0xF000_C000_0000_0000_0000 == 0x4000_8000_0000_0000_0000
}

/// Of the 32 hexadecimal digits of a UUID of version 4, the 13th from the left is
/// 4, and the 17th starts with the bits 1 and 0. Any other number is none.
pub proof fn law_uuid_v4_digits(id: ServerId)
    ensures
        is_uuid_v4(id) <==> (id >> 76) % 16 == 4 && 8 <= (id >> 60) % 16 <= 11,
{
    assert(id & 0xF000_C000_0000_0000_0000 == 0x4000_8000_0000_0000_0000 <==> (id >> 76) % 16 == 4
        && 8 <= (id >> 60) % 16 && (id >> 60) % 16 <= 11) by (bit_vector);
}

/// Draws an id, by `uuid::Uuid::new_v4`.
///
/// The contract claims that the id has the layout of version 4, and nothing of
/// which one it is: two draws may well give the same. `uuid` panics where the
/// operating system has no random bytes to give.
#[verifier::external_body]
pub(crate) fn draw_id() -> (id: ServerId)
    ensures
        is_uuid_v4(id),
{
    uuid::Uuid::new_v4().as_u128()
}

/// The `n`th neighbour of `id`: the bits of `n` turn bits of `id` over that
/// version 4 leaves free, around the two that tell the variant. The first
/// neighbour, number 0, is `id` itself.
pub(crate) open spec fn neighbour(id: ServerId, n: u64) -> ServerId {
    id ^ ((n as u128 & 0x3FFF_FFFF_FFFF_FFFF) | (n as u128 >> 62) << 64)
}

/// Gives the `n`th neighbour of `id`, which has the layout of version 4 as `id`
/// has.
pub(crate) fn neighbour_id(id: ServerId, n: u64) -> (other: ServerId)
    requires
        is_uuid_v4(id),
    ensures
        other == neighbour(id, n),
        is_uuid_v4(other),
{
    proof {
        assert(is_uuid_v4(id) ==> is_uuid_v4(neighbour(id, n))) by (bit_vector);
    }
    id ^ ((n as u128 & 0x3FFF_FFFF_FFFF_FFFF) | (n as u128 >> 62) << 64)
}

/// No two neighbours of an id are equal.
pub(crate) proof fn lemma_neighbours_differ(id: ServerId, m: u64, n: u64)
    requires
        neighbour(id, m) == neighbour(id, n),
    ensures
        m == n,
{
    assert(neighbour(id, m) == neighbour(id, n) ==> m == n) by (bit_vector);
}

} // verus!
