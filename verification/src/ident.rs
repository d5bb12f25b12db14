use vstd::prelude::*;

verus! {

/// The bits of an identifier that hold the version and the variant.
pub const VERSION_VARIANT_MASK: u128 = 0x0000_0000_0000_F000_C000_0000_0000_0000u128;

/// What those bits hold in a random (version 4) identifier.
pub const RANDOM_VERSION_VARIANT: u128 = 0x0000_0000_0000_4000_8000_0000_0000_0000u128;

/// Whether `id` carries the version and variant bits of a random identifier.
pub open spec fn is_random_id(id: u128) -> bool {
    id & VERSION_VARIANT_MASK == RANDOM_VERSION_VARIANT
}

/// Draws a random identifier with `uuid::Uuid::new_v4` and returns its 128
/// bits as `Uuid::as_u128` packs them.
///
/// Trusted: `new_v4` forces the version nibble to 4 and the two variant bits
/// to `10`; the other 122 bits come from the operating system's random
/// source, so nothing is claimed of them, and two calls may return anything.
/// `new_v4` panics when that source fails.
#[verifier::external_body]
pub(crate) fn random_id() -> (id: u128)
    ensures
        is_random_id(id),
{
    uuid::Uuid::new_v4().as_u128()
}

} // verus!
