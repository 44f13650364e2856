//! Item identifiers.
//!
//! An identifier is a version 4 UUID held as the 128-bit number that its
//! sixteen bytes spell in big-endian order.

use vstd::prelude::*;

verus! {

/// The bits of an identifier that hold its version and its variant.
pub const LAYOUT_MASK: u128 = 0x0000_0000_0000_f000_c000_0000_0000_0000u128;

/// The value of those bits in a random (version 4, RFC variant) identifier.
pub const RANDOM_LAYOUT: u128 = 0x0000_0000_0000_4000_8000_0000_0000_0000u128;

/// Whether `id` has the layout of a random identifier.
pub open spec fn is_random_layout(id: u128) -> bool {
    id & LAYOUT_MASK == RANDOM_LAYOUT
}

/// Draws a fresh random identifier with `uuid::Uuid::new_v4` and returns it
/// as a number through `Uuid::as_u128`.
///
/// Trusted: `new_v4` masks 128 random bits so that the version nibble is 4
/// and the two variant bits are `10`; `as_u128` reads the bytes big-endian,
/// which leaves those bits in place. Nothing else is promised: two calls may
/// return the same number. `new_v4` panics if the operating system cannot
/// supply random bytes.
#[verifier::external_body]
pub(crate) fn fresh_id() -> (id: u128)
    ensures
        is_random_layout(id),
{
    uuid::Uuid::new_v4().as_u128()
}

} // verus!
