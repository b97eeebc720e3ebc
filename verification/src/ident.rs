//! Random identifiers for devices and scenes.

use rand::distributions::{Alphanumeric, DistString};
use rand::thread_rng;
use vstd::prelude::*;

verus! {

/// An ASCII letter or digit.
pub open spec fn is_alphanumeric(c: char) -> bool {
    let n = c as u32;
    (48 <= n <= 57) || (65 <= n <= 90) || (97 <= n <= 122)
}

/// A text of the given length that holds ASCII letters and digits only.
pub open spec fn is_token(s: Seq<char>, len: nat) -> bool {
    &&& s.len() == len
    &&& forall|i: int| 0 <= i < s.len() ==> is_alphanumeric(#[trigger] s[i])
}

/// `rand::distributions::DistString::sample_string` of
/// `rand::distributions::Alphanumeric` on the generator of the thread: a
/// text of `len` samples, each one of the sixty-two ASCII letters and
/// digits.  Which ones is left open.
#[verifier::external_body]
fn sample_alphanumeric(len: usize) -> (r: String)
    ensures
        is_token(r@, len as nat),
{
    Alphanumeric.sample_string(&mut thread_rng(), len)
}

/// A fresh random identifier of `len` letters and digits.
pub fn random_token(len: usize) -> (r: String)
    ensures
        is_token(r@, len as nat),
{
    sample_alphanumeric(len)
}

} // verus!
