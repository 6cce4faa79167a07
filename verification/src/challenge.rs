//! Challenge codes: the ephemeral random proof tokens.
//!
//! A challenge code is exactly [`CHALLENGE_LEN`] random alphanumeric
//! characters, regenerated for every verification attempt. It is uniform but
//! not security-critical: it only defends against casual motto collisions.

use vstd::prelude::*;

verus! {

/// Length of a challenge code, in characters.
pub const CHALLENGE_LEN: usize = 5;

/// True for the bytes a challenge code is drawn from: ASCII letters and
/// digits.
pub open spec fn is_challenge_byte(b: u8) -> bool {
    (65 <= b <= 90) || (97 <= b <= 122) || (48 <= b <= 57)
}

/// True for the characters a challenge code is drawn from.
pub open spec fn is_challenge_char(c: char) -> bool {
    ('A' <= c <= 'Z') || ('a' <= c <= 'z') || ('0' <= c <= '9')
}

/// A well-formed challenge code: exactly [`CHALLENGE_LEN`] alphanumeric
/// characters.
pub open spec fn is_challenge_code(s: Seq<char>) -> bool {
    &&& s.len() == CHALLENGE_LEN
    &&& forall|i: int| 0 <= i < s.len() ==> is_challenge_char(#[trigger] s[i])
}

#[verifier::external_type_specification]
#[verifier::external_body]
pub struct ExThreadRng(rand::rngs::ThreadRng);

/// Relies on rand::thread_rng: a handle to the thread-local generator.
#[verifier::external_body]
fn fresh_rng() -> rand::rngs::ThreadRng {
    rand::thread_rng()
}

/// Relies on rand's Alphanumeric distribution (its Distribution<u8> impl):
/// every sample is one of the bytes A-Z, a-z, 0-9.
#[verifier::external_body]
fn sample_alphanumeric(rng: &mut rand::rngs::ThreadRng) -> (b: u8)
    ensures
        is_challenge_byte(b),
{
    rand::Rng::sample(rng, rand::distributions::Alphanumeric)
}

/// Relies on String::from_utf8: bytes below 128 decode to the characters
/// with the same code points.
#[verifier::external_body]
fn ascii_to_string(bytes: Vec<u8>) -> (r: String)
    requires
        forall|i: int| 0 <= i < bytes@.len() ==> bytes@[i] < 128,
    ensures
        r@.len() == bytes@.len(),
        forall|i: int| 0 <= i < bytes@.len() ==> r@[i] == bytes@[i] as char,
{
    String::from_utf8(bytes).unwrap()
}

/// Draw one fresh challenge code: exactly [`CHALLENGE_LEN`] random
/// alphanumeric characters.
pub fn generate_challenge() -> (r: String)
    ensures
        is_challenge_code(r@),
{
    let mut rng = fresh_rng();
    let mut bytes: Vec<u8> = Vec::new();
    let mut i: usize = 0;
    while i < CHALLENGE_LEN
        invariant
            i <= CHALLENGE_LEN,
            bytes@.len() == i,
            forall|k: int| 0 <= k < i ==> is_challenge_byte(#[trigger] bytes@[k]),
        decreases CHALLENGE_LEN - i,
    {
        let b = sample_alphanumeric(&mut rng);
        bytes.push(b);
        i += 1;
    }
    let r = ascii_to_string(bytes);
    proof {
        assert forall|k: int| 0 <= k < r@.len() implies is_challenge_char(#[trigger] r@[k]) by {
            assert(is_challenge_byte(bytes@[k]));
        }
    }
    r
}

} // verus!
