use vstd::prelude::*;

verus! {

/// Draws one byte from `rand::random`, which samples the thread-local
/// generator of the `rand` crate. The byte differs from call to call, so the
/// contract claims nothing of it: callers are verified for every byte. The
/// call takes no input; it panics only where the operating system cannot
/// seed the generator at its first use in a thread.
#[verifier::external_body]
pub(crate) fn random_byte() -> (byte: u8) {
    rand::random()
}

} // verus!
