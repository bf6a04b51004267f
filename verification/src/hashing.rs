use argon2::password_hash::rand_core::OsRng;
use argon2::password_hash::{PasswordHash, PasswordHasher, PasswordVerifier, SaltString};
use argon2::Argon2;
use vstd::prelude::*;

verus! {

/// Whether `PasswordHash::new` (password-hash) accepts `hash` as a PHC string.
pub uninterp spec fn phc_string_parses(hash: Seq<char>) -> bool;

/// Whether `Argon2::default().verify_password` accepts `password` against the
/// parsed PHC string `hash`.
pub uninterp spec fn argon2_accepts(password: Seq<char>, hash: Seq<char>) -> bool;

/// The head of every PHC string that `Argon2::default().hash_password`
/// prints: algorithm Argon2id, version 19, and the default costs
/// (19456 KiB of memory, 2 passes, 1 lane).
pub open spec fn argon2_default_prefix() -> Seq<char> {
    "$argon2id$v=19$m=19456,t=2,p=1$"@
}

/// `hash` begins with the default Argon2 head.
pub open spec fn has_argon2_default_prefix(hash: Seq<char>) -> bool {
    hash.len() >= argon2_default_prefix().len() && hash.take(argon2_default_prefix().len() as int)
        == argon2_default_prefix()
}

/// Argon2 refuses passwords longer than `u32::MAX` bytes.
pub open spec fn password_fits_argon2(password: Seq<char>) -> bool {
    vstd::utf8::encode_utf8(password).len() <= 0xFFFF_FFFF
}

/// A password takes at most four bytes per character.
pub proof fn lemma_password_byte_bound(password: Seq<char>)
    ensures
        vstd::utf8::encode_utf8(password).len() <= 4 * password.len(),
    decreases password.len(),
{
    if password.len() > 0 {
        lemma_password_byte_bound(password.drop_first());
    }
}

/// A password of at most 2^30 - 1 characters fits Argon2.
pub proof fn lemma_short_password_fits(password: Seq<char>)
    requires
        password.len() <= 0x3FFF_FFFF,
    ensures
        password_fits_argon2(password),
{
    lemma_password_byte_bound(password);
}

/// Hashes `password` with `Argon2::default().hash_password` (argon2 crate)
/// under a salt drawn by `SaltString::generate` from `OsRng`, and returns the
/// PHC string that `PasswordHash` prints.
///
/// Trusted: the salt is random, so nothing names the result. What the contract
/// claims holds of every salt: the printed hash parses again
/// (`PasswordHash::new`), and `verify_password` accepts the same password
/// against it (the hash is recomputed from the password, salt and parameters
/// that the string records), and the string begins with
/// `$argon2id$v=19$m=19456,t=2,p=1$` (the default algorithm, version and
/// costs, printed by `PasswordHash`'s `Display`). A failure of the operating system's random source
/// panics inside `OsRng`; nothing here states it.
#[verifier::external_body]
pub(crate) fn argon2_hash_fresh_salt(password: &str) -> (hash: String)
    requires
        password_fits_argon2(password@),
    ensures
        phc_string_parses(hash@),
        argon2_accepts(password@, hash@),
        has_argon2_default_prefix(hash@),
{
    let salt = SaltString::generate(&mut OsRng);
    Argon2::default().hash_password(password.as_bytes(), &salt).expect("argon2 hashing").to_string()
}

/// Tells whether `PasswordHash::new` (password-hash crate) parses `hash`.
///
/// Trusted: the result is given the name `phc_string_parses`.
#[verifier::external_body]
pub(crate) fn phc_parses(hash: &str) -> (parses: bool)
    ensures
        parses == phc_string_parses(hash@),
{
    PasswordHash::new(hash).is_ok()
}

/// Calls `Argon2::default().verify_password` on `password` and the parsed
/// PHC string `hash`, and reports whether it succeeded.
///
/// Trusted: the result is given the name `argon2_accepts`; verification is
/// deterministic in the password and the string (salt and parameters are read
/// from it).
#[verifier::external_body]
pub(crate) fn argon2_verify(password: &str, hash: &str) -> (accepted: bool)
    requires
        phc_string_parses(hash@),
    ensures
        accepted == argon2_accepts(password@, hash@),
{
    match PasswordHash::new(hash) {
        Ok(parsed) => Argon2::default().verify_password(password.as_bytes(), &parsed).is_ok(),
        Err(_) => false,
    }
}

} // verus!
