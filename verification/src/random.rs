use vstd::prelude::*;

use rand::distr::SampleString;

verus! {

/// An ASCII letter or digit.
pub open spec fn is_ascii_alphanumeric(c: char) -> bool {
    ('a' <= c && c <= 'z') || ('A' <= c && c <= 'Z') || ('0' <= c && c <= '9')
}

/// A name of five ASCII letters and digits, as the installer picks for its
/// build directories.
pub open spec fn is_build_name(name: Seq<char>) -> bool {
    name.len() == 5 && forall|i: int| 0 <= i < 5 ==> is_ascii_alphanumeric(#[trigger] name[i])
}

/// `rand::distr::Alphanumeric.sample_string(&mut rand::rng(), len)`: a string
/// of `len` characters, each drawn from `A-Z`, `a-z` and `0-9` by the
/// thread-local random generator. Only the length and the alphabet are
/// claimed; which characters come out is left open, being chance.
#[verifier::external_body]
fn random_alphanumeric(len: usize) -> (res: String)
    ensures
        res@.len() == len,
        forall|i: int| 0 <= i < len ==> is_ascii_alphanumeric(#[trigger] res@[i]),
{
    rand::distr::Alphanumeric.sample_string(&mut rand::rng(), len)
}

/// A fresh random name for a build directory.
pub fn build_name() -> (res: String)
    ensures
        is_build_name(res@),
{
    random_alphanumeric(5)
}

} // verus!
