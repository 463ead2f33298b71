//! The client's constants and the cookie that names its test.
use vstd::prelude::*;

use rand::distributions::Alphanumeric;
use rand::rngs::{OsRng, StdRng};
use rand::{Rng, SeedableRng};

verus! {

/// One mebibyte.
pub const MB: usize = 1048576;

/// The largest control message, in bytes (20 MiB).
pub const MAX_CONTROL_MESSAGE: u32 = 20971520;

/// The block size of a data stream when the options set none (2 MiB).
pub const DEFAULT_BLOCK_SIZE: usize = 2097152;

/// The number of characters of a test's cookie.
pub const COOKIE_LENGTH: usize = 32;

/// An ASCII letter or digit.
pub open spec fn is_alphanumeric(c: char) -> bool {
    ('a' <= c && c <= 'z') || ('A' <= c && c <= 'Z') || ('0' <= c && c <= '9')
}

/// `len` characters drawn from the `Alphanumeric` distribution, which
/// yields ASCII letters and digits, by a `StdRng` seeded through
/// `StdRng::from_rng(OsRng)`. Seeding reports a failure of the system's
/// random source as an error, which gives `None`; drawing from the seeded
/// generator cannot fail. The characters drawn are left unsaid.
#[verifier::external_body]
fn random_alphanumeric(len: usize) -> (s: Option<String>)
    ensures
        s matches Some(s) ==> {
            &&& s@.len() == len
            &&& forall|i: int| 0 <= i < s@.len() ==> is_alphanumeric(#[trigger] s@[i])
        },
{
    match StdRng::from_rng(OsRng) {
        Ok(rng) => Some(rng.sample_iter(&Alphanumeric).take(len).map(char::from).collect()),
        Err(_) => None,
    }
}

/// A fresh random cookie of 32 ASCII letters and digits, or `None` where the
/// system's random source could not seed the generator.
pub fn new_cookie() -> (cookie: Option<String>)
    ensures
        cookie matches Some(c) ==> {
            &&& c@.len() == COOKIE_LENGTH
            &&& forall|i: int| 0 <= i < c@.len() ==> is_alphanumeric(#[trigger] c@[i])
        },
{
    random_alphanumeric(COOKIE_LENGTH)
}

} // verus!
