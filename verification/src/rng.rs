use vstd::prelude::*;

verus! {

/// Relies on rand::random: draws a fresh 32-bit value from the thread-local
/// generator. Nothing is promised of the value itself.
#[verifier::external_body]
fn next_random_u32() -> u32 {
    rand::random::<u32>()
}

/// A random number in `[0, limit)`, drawn from the external random source
/// and reduced by modulo (the small modulo bias is accepted).
pub fn get_random_num(limit: u32) -> (r: u32)
    requires
        limit > 0,
    ensures
        r < limit,
{
    let random = next_random_u32();
    random % limit
}

} // verus!
