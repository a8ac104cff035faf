//! Random identifiers.

use vstd::prelude::*;

verus! {

/// Whether `c` is an ASCII letter or digit.
pub open spec fn is_alphanumeric_char(c: char) -> bool {
    ('0' <= c <= '9') || ('A' <= c <= 'Z') || ('a' <= c <= 'z')
}

/// A random string of `len` ASCII letters and digits.
///
/// Calls `rand`'s `Alphanumeric.sample_string` on the thread's generator,
/// which appends `len` samples of `Alphanumeric`, each one of the 62 ASCII
/// letters and digits. Which ones come out is left unsaid: it is chance.
#[verifier::external_body]
pub(crate) fn random_string(len: usize) -> (s: String)
    ensures
        s@.len() == len,
        forall|i: int| 0 <= i < len ==> is_alphanumeric_char(#[trigger] s@[i]),
{
    rand::distributions::DistString::sample_string(
        &rand::distributions::Alphanumeric,
        &mut rand::thread_rng(),
        len,
    )
}

} // verus!
