use rand::distributions::DistString;
use rand::SeedableRng;
use vstd::prelude::*;
use vstd::string::StringExecFns;

use crate::token::TokenInfo;
use crate::types::{Password, PasswordHash, Salt};

verus! {

/// The lowercase hexadecimal MD5 digest of the UTF-8 encoding of `payload`:
/// a function of the payload alone, left without a definition here because
/// stating the algorithm is not this library's business.
pub uninterp spec fn md5_hex_of(payload: Seq<char>) -> Seq<char>;

/// Relies on `md5::compute`, whose digest depends on the input bytes alone,
/// rendered by the digest's `LowerHex` as two hexadecimal digits per digest
/// byte: 32 characters for the 16-byte digest.
#[verifier::external_body]
fn md5_hex(payload: &str) -> (r: String)
    ensures
        r@ == md5_hex_of(payload@),
        r@.len() == 32,
{
    let digest = md5::compute(payload.as_bytes());
    format!("{:x}", digest)
}

/// The salted digest the protocol authenticates with: the MD5 of the
/// password immediately followed by the salt, in lowercase hexadecimal.
pub fn salted_md5(password: &Password, salt: &Salt) -> (r: PasswordHash)
    ensures
        r.0@ == md5_hex_of(password.0@ + salt.0@),
        r.0@.len() == 32,
{
    let payload = password.0.clone().concat(salt.0.as_str());
    PasswordHash(md5_hex(payload.as_str()))
}

/// How many characters a generated salt has.
pub const SALT_LENGTH: usize = 7;

/// The characters a generated salt may contain: ASCII letters and digits.
pub open spec fn is_salt_char(c: char) -> bool {
    ('a' <= c && c <= 'z') || ('A' <= c && c <= 'Z') || ('0' <= c && c <= '9')
}

/// Relies on `rand::distributions::Alphanumeric::sample_string`, which
/// draws exactly `len` characters from `[A-Za-z0-9]`; being random, nothing
/// more can be promised of the result.
#[verifier::external_body]
fn sample_alphanumeric(rng: &mut rand::rngs::StdRng, len: usize) -> (r: String)
    ensures
        r@.len() == len,
        forall|k: int| 0 <= k < r@.len() ==> is_salt_char(#[trigger] r@[k]),
{
    rand::distributions::Alphanumeric.sample_string(rng, len)
}

/// Relies on `rand::rngs::StdRng::from_entropy`; nothing can be promised of
/// a freshly seeded generator.
#[verifier::external_body]
fn entropy_rng() -> rand::rngs::StdRng {
    rand::rngs::StdRng::from_entropy()
}

#[verifier::external_type_specification]
#[verifier::external_body]
pub struct ExStdRng(rand::rngs::StdRng);

/// Hashes passwords with freshly drawn salts; owns the randomness it draws
/// the salts from.
pub struct Hasher {
    rng: rand::rngs::StdRng,
}

impl Hasher {
    pub fn new(rng: rand::rngs::StdRng) -> Hasher {
        Hasher { rng }
    }

    /// Draws a fresh salt: `SALT_LENGTH` alphanumeric characters.
    pub fn salt(&mut self) -> (r: Salt)
        ensures
            r.0@.len() == SALT_LENGTH,
            forall|k: int| 0 <= k < r.0@.len() ==> is_salt_char(#[trigger] r.0@[k]),
    {
        Salt(sample_alphanumeric(&mut self.rng, SALT_LENGTH))
    }

    /// Hashes `password` with a freshly drawn salt and returns the digest
    /// together with the salt that went into it.
    pub fn md5_with_random_salt(&mut self, password: &Password) -> (r: TokenInfo)
        ensures
            r.salt.0@.len() == SALT_LENGTH,
            forall|k: int| 0 <= k < r.salt.0@.len() ==> is_salt_char(#[trigger] r.salt.0@[k]),
            r.hash.0@ == md5_hex_of(password.0@ + r.salt.0@),
    {
        let salt = self.salt();
        TokenInfo { hash: salted_md5(password, &salt), salt }
    }
}

/// A hasher drawing from the operating system's entropy.
pub fn default_hasher() -> Hasher {
    Hasher::new(entropy_rng())
}

} // verus!
