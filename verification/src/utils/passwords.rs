use vstd::prelude::*;

verus! {

/// What the check of `password` against the stored hash `stored` gives:
/// `None` where `password-hash` cannot parse `stored` as a hash in the PHC
/// string format, and otherwise whether Argon2 with its default settings
/// accepts the password for the parsed hash.
pub uninterp spec fn verification_of(password: Seq<char>, stored: Seq<char>) -> Option<bool>;

/// Calls `PasswordHash::new` on the stored text and, where that parses,
/// `verify_password` of `Argon2::default()` on the password. Nothing is
/// proved of it; the contract names the result, which depends on the two
/// texts alone.
#[verifier::external_body]
pub(crate) fn verify_password(password: &str, stored: &str) -> (verified: Option<bool>)
    ensures
        verified == verification_of(password@, stored@),
{
    match argon2::PasswordHash::new(stored) {
        Ok(hash) => Some(
            argon2::PasswordVerifier::verify_password(
                &argon2::Argon2::default(),
                password.as_bytes(),
                &hash,
            ).is_ok(),
        ),
        Err(_) => None,
    }
}

/// What the check of a password against a stored hash found.
#[derive(Clone, Copy, Debug, PartialEq, Eq, Structural)]
pub enum PasswordCheck {
    /// The stored text is no password hash.
    Malformed,
    /// The password is not the one that was hashed.
    Mismatch,
    /// The password is the one that was hashed.
    Match,
}

/// What the check of `password` against `stored` finds.
pub open spec fn password_check(password: Seq<char>, stored: Seq<char>) -> PasswordCheck {
    match verification_of(password, stored) {
        None => PasswordCheck::Malformed,
        Some(false) => PasswordCheck::Mismatch,
        Some(true) => PasswordCheck::Match,
    }
}

/// Checks `password` against the stored hash `stored`.
pub fn check_password(password: &str, stored: &str) -> (outcome: PasswordCheck)
    ensures
        outcome == password_check(password@, stored@),
{
    match verify_password(password, stored) {
        None => PasswordCheck::Malformed,
        Some(false) => PasswordCheck::Mismatch,
        Some(true) => PasswordCheck::Match,
    }
}

/// The hash of a password, or the reason why it could not be hashed, as
/// plain mathematical values.
pub open spec fn hashed_view(hashed: Result<String, String>) -> Result<Seq<char>, Seq<char>> {
    match hashed {
        Ok(hash) => Ok(hash@),
        Err(reason) => Err(reason@),
    }
}

/// What hashing `password` under the salt `salt` gives: the hash in the
/// PHC string format that Argon2 with its default settings computes, or
/// what `password-hash` reports where it refuses the salt or the
/// password.
pub uninterp spec fn salted_hash_of(password: Seq<char>, salt: Seq<char>) -> Result<
    Seq<char>,
    Seq<char>,
>;

/// Draws as many bytes as a salt should have from the random source of
/// the system with `OsRng::try_fill_bytes`, and writes them as a salt
/// with `SaltString::encode_b64`. The result depends on chance, so
/// nothing is stated of it; a failure of the random source is reported,
/// not raised.
#[verifier::external_body]
pub(crate) fn random_salt() -> (salt: Result<String, String>) {
    let mut bytes = [0u8; argon2::password_hash::Salt::RECOMMENDED_LENGTH];
    let mut source = argon2::password_hash::rand_core::OsRng;
    match argon2::password_hash::rand_core::RngCore::try_fill_bytes(&mut source, &mut bytes) {
        Ok(()) => match argon2::password_hash::SaltString::encode_b64(&bytes) {
            Ok(salt) => Ok(salt.as_str().to_string()),
            Err(error) => Err(error.to_string()),
        },
        Err(error) => Err(error.to_string()),
    }
}

/// Calls `SaltString::from_b64` on the salt and `hash_password` of
/// `Argon2::default()` on the password. Nothing is proved of it. The
/// contract names the result, which depends on the two texts alone, and
/// states what the crates' sources show of a hash: that `verify_password`
/// accepts the password for it, since it computes the hash again from the
/// settings and the salt that the hash names.
#[verifier::external_body]
pub(crate) fn hash_with_salt(password: &str, salt: &str) -> (hashed: Result<String, String>)
    ensures
        hashed_view(hashed) == salted_hash_of(password@, salt@),
        hashed matches Ok(hash) ==> verification_of(password@, hash@) == Some(true),
{
    match argon2::password_hash::SaltString::from_b64(salt) {
        Ok(salt) => match argon2::PasswordHasher::hash_password(
            &argon2::Argon2::default(),
            password.as_bytes(),
            &salt,
        ) {
            Ok(hash) => Ok(hash.to_string()),
            Err(error) => Err(error.to_string()),
        },
        Err(error) => Err(error.to_string()),
    }
}

/// Hashes `password` under the salt `salt`. A hash that comes out is one
/// that the password is checked against with success.
pub fn hash_password_with_salt(password: &str, salt: &str) -> (hashed: Result<String, String>)
    ensures
        hashed_view(hashed) == salted_hash_of(password@, salt@),
        hashed matches Ok(hash) ==> password_check(password@, hash@) == PasswordCheck::Match,
{
    hash_with_salt(password, salt)
}

/// Hashes `pwd` under a salt of its own, drawn at random. Whatever the
/// salt, a hash that comes out is one that the password is checked
/// against with success; where no salt can be drawn or the password
/// cannot be hashed, the reason is reported.
pub fn hash_password(pwd: &str) -> (hashed: Result<String, String>)
    ensures
        hashed matches Ok(hash) ==> password_check(pwd@, hash@) == PasswordCheck::Match,
{
    match random_salt() {
        Ok(salt) => hash_password_with_salt(pwd, salt.as_str()),
        Err(reason) => Err(reason),
    }
}

} // verus!
