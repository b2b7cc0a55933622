//! Password hashing with Argon2 and a random salt.

use vstd::prelude::*;
use vstd::utf8::encode_utf8;

verus! {

#[verifier::external_type_specification]
#[verifier::external_body]
pub struct ExArgon2Error(argon2::Error);

/// Longest password that Argon2 hashes, in bytes.
pub const MAX_PASSWORD_BYTES: u64 = 0xFFFF_FFFF;

/// The Argon2 encoded hash, under the crate's default configuration, of
/// `password` with `salt`.
pub uninterp spec fn argon2_encoding(password: Seq<char>, salt: Seq<u8>) -> Seq<char>;

/// Whether Argon2 accepts `password` against the encoded hash `encoded`: the
/// hash decodes into valid parameters, and the password's bytes hash to it
/// under them.
pub uninterp spec fn argon2_verifies(encoded: Seq<char>, password: Seq<char>) -> bool;

/// Relies on rand::random: sixteen random bytes.
#[verifier::external_body]
fn random_salt() -> [u8; 16] {
    rand::random()
}

/// Relies on argon2::hash_encoded with argon2::Config::default: the encoded
/// hash of the password's bytes. With a 16-byte salt and the default
/// configuration, `Context::new` refuses only a password of more than
/// 0xFFFF_FFFF bytes.
#[verifier::external_body]
fn hash_encoded(password: &str, salt: &[u8; 16]) -> (r: Result<String, argon2::Error>)
    ensures
        r matches Ok(h) ==> h@ == argon2_encoding(password@, salt@),
        encode_utf8(password@).len() <= MAX_PASSWORD_BYTES ==> r is Ok,
{
    argon2::hash_encoded(password.as_bytes(), salt, &argon2::Config::default())
}

/// Relies on argon2::verify_encoded: whether the password's bytes match the
/// encoded hash, or an error when the hash does not decode, its parameters
/// are refused, or the password is too long; in none of those cases is the
/// password accepted.
#[verifier::external_body]
fn verify_encoded(encoded: &str, password: &str) -> (r: Result<bool, argon2::Error>)
    ensures
        r matches Ok(b) ==> b == argon2_verifies(encoded@, password@),
        r is Err ==> !argon2_verifies(encoded@, password@),
{
    argon2::verify_encoded(encoded, password.as_bytes())
}

/// The encoded hash that Argon2 gave, or `None` if it refused.
pub fn hashed(outcome: Result<String, argon2::Error>) -> (r: Option<String>)
    ensures
        match outcome {
            Ok(h) => r == Some(h),
            Err(_) => r is None,
        },
{
    match outcome {
        Ok(encoded) => Some(encoded),
        Err(_) => None,
    }
}

/// Whether Argon2 found the password to match; a hash that it could not
/// decode matches no password.
pub fn verified(outcome: Result<bool, argon2::Error>) -> (r: bool)
    ensures
        r == (outcome matches Ok(true)),
{
    match outcome {
        Ok(matches) => matches,
        Err(_) => false,
    }
}

/// Hash a password with the given salt and the default Argon2 configuration;
/// `None` when Argon2 refuses the password's length.
pub fn hash_with_salt(password: &str, salt: &[u8; 16]) -> (r: Option<String>)
    ensures
        r matches Some(h) ==> h@ == argon2_encoding(password@, salt@),
        encode_utf8(password@).len() <= MAX_PASSWORD_BYTES ==> r is Some,
{
    hashed(hash_encoded(password, salt))
}

/// Hash a password with a random salt and default Argon2 configuration.
pub fn hash(password: &str) -> (r: Option<String>)
    ensures
        r matches Some(h) ==> exists|salt: Seq<u8>|
            salt.len() == 16 && h@ == argon2_encoding(password@, salt),
        encode_utf8(password@).len() <= MAX_PASSWORD_BYTES ==> r is Some,
{
    let salt = random_salt();
    proof {
        broadcast use vstd::array::array_len_matches_n;
    }
    assert(salt@.len() == 16);
    hash_with_salt(password, &salt)
}

/// Check if the password matches against a given hash. A hash that does not
/// decode matches no password.
pub fn verify(password: &str, hash: &str) -> (r: bool)
    ensures
        r == argon2_verifies(hash@, password@),
{
    verified(verify_encoded(hash, password))
}

} // verus!
