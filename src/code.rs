//! Candidate short codes.

use vstd::prelude::*;

verus! {

/// Length of a generated short code.
pub const CODE_LENGTH: usize = 6;

/// Length of the random salt handed to the password hasher.
pub const SALT_LENGTH: usize = 16;

/// An ASCII letter or digit: the 62 symbols a code is made of.
pub open spec fn is_alphanumeric(c: char) -> bool {
    ('0' <= c && c <= '9') || ('a' <= c && c <= 'z') || ('A' <= c && c <= 'Z')
}

/// A lower-case hexadecimal digit.
pub open spec fn is_lower_hex(c: char) -> bool {
    ('0' <= c && c <= '9') || ('a' <= c && c <= 'f')
}

/// Every character of `s` is an ASCII letter or digit.
pub open spec fn is_code(s: Seq<char>) -> bool {
    forall|i: int| 0 <= i < s.len() ==> is_alphanumeric(#[trigger] s[i])
}

/// Relies on rand's `Alphanumeric` distribution through
/// `DistString::sample_string`: `len` characters, each one of A-Z, a-z, 0-9.
#[verifier::external_body]
fn sample_alphanumeric(len: usize) -> (r: String)
    ensures
        r@.len() == len,
        is_code(r@),
{
    rand::distributions::DistString::sample_string(
        &rand::distributions::Alphanumeric,
        &mut rand::thread_rng(),
        len,
    )
}

/// Relies on uuid's `Uuid::new_v4` and its `simple` form: 32 lower-case
/// hexadecimal digits of a fresh random identifier.
#[verifier::external_body]
fn random_uuid_simple() -> (r: String)
    ensures
        r@.len() == 32,
        forall|i: int| 0 <= i < r@.len() ==> is_lower_hex(#[trigger] r@[i]),
{
    uuid::Uuid::new_v4().simple().to_string()
}

/// A random code of `length` ASCII letters and digits.
pub fn generate_random_code(length: usize) -> (r: String)
    ensures
        r@.len() == length,
        is_code(r@),
{
    sample_alphanumeric(length)
}

/// The short ID cut from the simple form of a UUID: its first six
/// characters.
pub fn short_id_of(simple: &str) -> (r: String)
    requires
        simple@.len() >= CODE_LENGTH,
    ensures
        r@ == simple@.subrange(0, CODE_LENGTH as int),
{
    simple.substring_char(0, CODE_LENGTH).to_owned()
}

/// A random six-character code taken from a fresh version-4 UUID in its
/// simple (hyphen-free, lower-case hexadecimal) form.
pub fn generate_short_id() -> (r: String)
    ensures
        r@.len() == CODE_LENGTH,
        is_code(r@),
{
    let full = random_uuid_simple();
    let r = short_id_of(full.as_str());
    assert forall|i: int| 0 <= i < r@.len() implies is_alphanumeric(#[trigger] r@[i]) by {
        assert(is_lower_hex(full@[i]));
    }
    r
}

} // verus!
