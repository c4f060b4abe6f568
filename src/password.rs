//! One-way password hashing with Argon2. The stored string is in PHC format,
//! so it carries the algorithm, its parameters and the salt beside the hash.

use vstd::prelude::*;
use vstd::string::StringSliceAdditionalSpecFns;

use argon2::password_hash::rand_core::OsRng;
use argon2::password_hash::{PasswordHash, PasswordHasher, PasswordVerifier, SaltString};
use argon2::Argon2;

verus! {

/// The largest password, in bytes, that Argon2 accepts.
pub const MAX_PASSWORD_BYTES: usize = 0xFFFF_FFFF;

/// The start of every hash this library makes: the algorithm (Argon2id),
/// its version (0x13) and its cost parameters (19 MiB of memory, two passes,
/// one lane), each behind a `$` separator, before the salt.
pub const PHC_PREFIX: &'static str = "$argon2id$v=19$m=19456,t=2,p=1$";

/// The length of such a hash string: the prefix, 22 base64 characters of a
/// 16-byte salt, a `$`, and 43 base64 characters of a 32-byte hash.
pub const PHC_LEN: usize = 97;

/// Whether a text parses as a PHC hash string.
pub uninterp spec fn phc_parses(hash: Seq<char>) -> bool;

/// Whether Argon2, run with the parameters and salt stored in `hash`,
/// reproduces the hash for `password`.
pub uninterp spec fn argon2_accepts(hash: Seq<char>, password: Seq<char>) -> bool;

/// Whether a text is a salt that Argon2 hashes with: `SaltString::from_b64`
/// accepts it and it decodes as unpadded base64.
pub uninterp spec fn salt_usable(salt: Seq<char>) -> bool;

/// The length of a salt text: 16 random bytes in unpadded base64.
pub const SALT_LEN: usize = 22;

/// Where the salt text stands in a hash string: right after the prefix.
pub open spec fn salt_of(hash: Seq<char>) -> Seq<char> {
    hash.subrange(PHC_PREFIX@.len() as int, PHC_PREFIX@.len() + SALT_LEN)
}

/// Relies on `SaltString::generate(OsRng)`: 16 bytes from the operating
/// system's secure source, encoded as unpadded base64, which `from_b64`
/// accepts and which decodes.
#[verifier::external_body]
fn fresh_salt() -> (r: String)
    ensures
        r@.len() == SALT_LEN,
        salt_usable(r@),
{
    SaltString::generate(&mut OsRng).as_str().to_owned()
}

/// Relies on argon2's `PasswordHasher::hash_password` (default Argon2id
/// parameters) with the salt given, rendered as a PHC string. It fails only
/// on passwords over `MAX_PASSWORD_BYTES` or a salt that is not usable.
/// Verification reruns the same function with the stored salt and
/// parameters, so the string parses and accepts the password it was made of.
/// `PasswordHash`'s `Display` writes `$argon2id$v=19$` and the parameters
/// `m=19456,t=2,p=1` of `Params::default()`, then `$`, the salt text as
/// given, `$` and the unpadded base64 output (32 bytes).
#[verifier::external_body]
fn argon2_hash(password: &str, salt: &str) -> (r: String)
    requires
        password.spec_bytes().len() <= MAX_PASSWORD_BYTES,
        salt_usable(salt@),
        salt@.len() == SALT_LEN,
    ensures
        phc_parses(r@),
        argon2_accepts(r@, password@),
        r@.len() == PHC_LEN,
        r@.subrange(0, PHC_PREFIX@.len() as int) == PHC_PREFIX@,
        salt_of(r@) == salt@,
{
    let salt = SaltString::from_b64(salt).expect("usable salt");
    Argon2::default().hash_password(password.as_bytes(), &salt).expect("password within bounds").to_string()
}

/// Relies on `password_hash::PasswordHash::new`, which parses a PHC string,
/// and argon2's `PasswordVerifier::verify_password` on the parsed hash.
#[verifier::external_body]
fn argon2_verify(hash: &str, password: &str) -> (r: Option<bool>)
    ensures
        r is Some <==> phc_parses(hash@),
        r matches Some(b) ==> b == argon2_accepts(hash@, password@),
{
    match PasswordHash::new(hash) {
        Ok(parsed) => Some(Argon2::default().verify_password(password.as_bytes(), &parsed).is_ok()),
        Err(_) => None,
    }
}

/// A stored hash that does not parse.
#[derive(Clone, Copy, Debug, PartialEq, Eq, Structural)]
pub struct HashFormatError {}

/// What checking `password` against the stored text `hash` answers.
pub open spec fn password_check(hash: Seq<char>, password: Seq<char>) -> Result<bool, HashFormatError> {
    if phc_parses(hash) {
        Ok(argon2_accepts(hash, password))
    } else {
        Err(HashFormatError {})
    }
}

/// Whether a text could be a hash this library makes: the right length and
/// the fixed prefix.
pub open spec fn hash_shaped(s: Seq<char>) -> bool {
    s.len() == PHC_LEN && s.subrange(0, PHC_PREFIX@.len() as int) == PHC_PREFIX@
}

/// Hashes a password with the salt given. The result names the algorithm
/// and its parameters, carries the salt, verifies against the password it
/// was made of, and differs from every password not shaped like such a hash.
pub fn hash_password_with_salt(password: &str, salt: &str) -> (r: String)
    requires
        password.spec_bytes().len() <= MAX_PASSWORD_BYTES,
        salt_usable(salt@),
        salt@.len() == SALT_LEN,
    ensures
        phc_parses(r@),
        argon2_accepts(r@, password@),
        hash_shaped(r@),
        salt_of(r@) == salt@,
        r@[0] == '$',
        !hash_shaped(password@) ==> r@ != password@,
        password_check(r@, password@) == Ok::<bool, HashFormatError>(true),
{
    let r = argon2_hash(password, salt);
    proof {
        reveal_strlit("$argon2id$v=19$m=19456,t=2,p=1$");
        assert(r@[0] == r@.subrange(0, PHC_PREFIX@.len() as int)[0]);
    }
    r
}

/// Hashes a password with a fresh random salt, which the result carries.
pub fn hash_password(password: &str) -> (r: String)
    requires
        password.spec_bytes().len() <= MAX_PASSWORD_BYTES,
    ensures
        phc_parses(r@),
        argon2_accepts(r@, password@),
        hash_shaped(r@),
        salt_usable(salt_of(r@)),
        r@[0] == '$',
        !hash_shaped(password@) ==> r@ != password@,
        password_check(r@, password@) == Ok::<bool, HashFormatError>(true),
{
    let salt = fresh_salt();
    hash_password_with_salt(password, salt.as_str())
}

/// Hashes made with different salts differ, whatever the passwords.
pub proof fn lemma_salt_separates(h1: Seq<char>, h2: Seq<char>)
    requires
        hash_shaped(h1),
        hash_shaped(h2),
        salt_of(h1) != salt_of(h2),
    ensures
        h1 != h2,
{
}

/// Checks a password against a stored hash; an error when the stored text is
/// not a hash.
pub fn verify_password(hash: &str, password: &str) -> (r: Result<bool, HashFormatError>)
    ensures
        r == password_check(hash@, password@),
{
    match argon2_verify(hash, password) {
        Some(b) => Ok(b),
        None => Err(HashFormatError {}),
    }
}

} // verus!
