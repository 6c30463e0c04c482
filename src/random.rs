use rand::Rng;
use vstd::prelude::*;

verus! {

/// Relies on `rand::thread_rng().gen_range(from..=to)`: a value drawn from the
/// inclusive range; the call panics on an empty range, which `requires` rules out.
#[verifier::external_body]
pub(crate) fn get_random_i32(from: i32, to: i32) -> (r: i32)
    requires
        from <= to,
    ensures
        from <= r <= to,
{
    rand::thread_rng().gen_range(from..=to)
}

/// Relies on `uuid::Uuid::new_v4` and `Uuid::as_u128`: a random version-4 UUID as
/// a big-endian integer, whose version nibble (bits 76 to 79) is always 4.
#[verifier::external_body]
pub(crate) fn get_uuid() -> (r: u128)
    ensures
        (r >> 76u128) & 0xfu128 == 4,
{
    uuid::Uuid::new_v4().as_u128()
}

/// A value drawn uniformly from `from..=to`.
pub fn get_random_i8(from: i8, to: i8) -> (r: i8)
    requires
        from <= to,
    ensures
        from <= r <= to,
{
    get_random_i32(from as i32, to as i32) as i8
}

/// A fair coin.
pub fn coin_flip() -> (r: bool) {
    get_random_i32(0, 1) == 1
}

} // verus!
