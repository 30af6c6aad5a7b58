//! Passwords: hashed with a fresh salt when an account registers, verified
//! against the stored hash when it logs in.

use vstd::prelude::*;
use vstd::string::*;
use vstd::utf8::*;
use crate::api_error::{failure, outcome, ApiError, ApiErrorView};

verus! {

/// The bytes of a salt.
pub const SALT_LENGTH: usize = 32;

/// What `argon2::hash_encoded` gives for a password and a salt under the
/// default configuration: the encoded hash, which holds the salt and the
/// parameters beside the hash itself, or the text of the error.
pub uninterp spec fn argon2_hash_encoded(password: Seq<u8>, salt: Seq<u8>) -> Result<
    Seq<char>,
    Seq<char>,
>;

/// What `argon2::verify_encoded` gives for an encoded hash and a password:
/// whether the password hashes to the same under the salt and the parameters
/// that the encoding holds, or the text of the error.
pub uninterp spec fn argon2_verify_encoded(encoded: Seq<char>, password: Seq<u8>) -> Result<
    bool,
    Seq<char>,
>;

/// A text or the text of an error, by their views.
pub open spec fn text_result(result: Result<String, String>) -> Result<Seq<char>, Seq<char>> {
    match result {
        Ok(text) => Ok(text@),
        Err(reason) => Err(reason@),
    }
}

/// A verdict or the text of an error, the latter by its view.
pub open spec fn verdict_result(result: Result<bool, String>) -> Result<bool, Seq<char>> {
    match result {
        Ok(matches) => Ok(matches),
        Err(reason) => Err(reason@),
    }
}

/// `Rng::gen` of rand on the thread's generator, which is seeded by the
/// system and cryptographically secure: 32 bytes of which nothing is known.
#[verifier::external_body]
fn random_salt() -> (salt: [u8; 32]) {
    rand::Rng::gen(&mut rand::thread_rng())
}

/// `argon2::hash_encoded` under `Config::default()`. With a salt of 32 bytes
/// and that configuration the only input it refuses is a password of more
/// than `u32::MAX` bytes. What it encodes, `argon2::verify_encoded` decodes,
/// so that the password verifies against its own hash.
#[verifier::external_body]
fn hash_encoded(password: &[u8], salt: &[u8; 32]) -> (hash: Result<String, String>)
    ensures
        text_result(hash) == argon2_hash_encoded(password@, salt@),
        password@.len() <= u32::MAX ==> hash is Ok,
        hash matches Ok(encoded) ==> argon2_verify_encoded(encoded@, password@) matches Ok(true),
{
    match argon2::hash_encoded(password, salt, &argon2::Config::default()) {
        Ok(encoded) => Ok(encoded),
        Err(error) => Err(error.to_string()),
    }
}

/// `argon2::verify_encoded`. An encoding that asks for more memory than the
/// machine has ends the process, as any such allocation does.
#[verifier::external_body]
fn verify_encoded(encoded: &str, password: &[u8]) -> (verdict: Result<bool, String>)
    ensures
        verdict_result(verdict) == argon2_verify_encoded(encoded@, password@),
{
    match argon2::verify_encoded(encoded, password) {
        Ok(matches) => Ok(matches),
        Err(error) => Err(error.to_string()),
    }
}

/// What hashing amounts to: the encoded hash, or an internal failure that
/// says why there is none.
pub open spec fn spec_hashed(hash: Result<Seq<char>, Seq<char>>) -> Result<
    Seq<char>,
    ApiErrorView,
> {
    match hash {
        Ok(encoded) => Ok(encoded),
        Err(reason) => Err(failure(500, "Couldn't hash password: "@ + reason)),
    }
}

/// What verifying amounts to: the verdict, or an internal failure that says
/// why there is none. A password that does not match is a verdict, not a
/// failure.
pub open spec fn spec_verified(verdict: Result<bool, Seq<char>>) -> Result<bool, ApiErrorView> {
    match verdict {
        Ok(matches) => Ok(matches),
        Err(reason) => Err(failure(500, "Couldn't verify hash: "@ + reason)),
    }
}

/// The encoded hash of a password under a salt.
pub open spec fn spec_hash(password: Seq<char>, salt: Seq<u8>) -> Result<Seq<char>, ApiErrorView> {
    spec_hashed(argon2_hash_encoded(encode_utf8(password), salt))
}

/// Whether a password matches an encoded hash.
pub open spec fn spec_verify(password: Seq<char>, encoded: Seq<char>) -> Result<
    bool,
    ApiErrorView,
> {
    spec_verified(argon2_verify_encoded(encoded, encode_utf8(password)))
}

/// An encoded hash or an error, the hash by its view too.
pub open spec fn hash_outcome(result: Result<String, ApiError>) -> Result<Seq<char>, ApiErrorView> {
    match result {
        Ok(encoded) => Ok(encoded@),
        Err(error) => Err(error@),
    }
}

/// Classifies what hashing gave.
pub fn hashed(hash: Result<String, String>) -> (res: Result<String, ApiError>)
    ensures
        hash_outcome(res) == spec_hashed(text_result(hash)),
{
    match hash {
        Ok(encoded) => Ok(encoded),
        Err(reason) => {
            let mut message = String::from_str("Couldn't hash password: ");
            message.append(reason.as_str());
            Err(ApiError::new(500, message))
        },
    }
}

/// Classifies what verifying gave.
pub fn verified(verdict: Result<bool, String>) -> (res: Result<bool, ApiError>)
    ensures
        outcome(res) == spec_verified(verdict_result(verdict)),
{
    match verdict {
        Ok(matches) => Ok(matches),
        Err(reason) => {
            let mut message = String::from_str("Couldn't verify hash: ");
            message.append(reason.as_str());
            Err(ApiError::new(500, message))
        },
    }
}

/// A salt, fresh from the system's source of randomness.
pub fn fresh_salt() -> (salt: [u8; 32]) {
    random_salt()
}

/// Hashes a password under the given salt. The encoded hash holds the salt,
/// so nothing else needs to be stored. The password verifies against it.
pub fn hash_with(password: &str, salt: &[u8; 32]) -> (res: Result<String, ApiError>)
    ensures
        hash_outcome(res) == spec_hash(password@, salt@),
        encode_utf8(password@).len() <= u32::MAX ==> res is Ok,
        res matches Ok(encoded) ==> spec_verify(password@, encoded@) matches Ok(true),
{
    hashed(hash_encoded(password.as_bytes(), salt))
}

/// Hashes a password under a fresh salt. The password verifies against the
/// hash.
pub fn hash(password: &str) -> (res: Result<String, ApiError>)
    ensures
        encode_utf8(password@).len() <= u32::MAX ==> res is Ok,
        res matches Ok(encoded) ==> spec_verify(password@, encoded@) matches Ok(true),
        res matches Err(error) ==> error.status_code == 500,
{
    let salt = fresh_salt();
    hash_with(password, &salt)
}

/// Whether a password matches an encoded hash, by the salt and the
/// parameters that the encoding holds. An encoding that cannot be read is an
/// internal failure.
pub fn verify(password: &str, encoded: &str) -> (res: Result<bool, ApiError>)
    ensures
        outcome(res) == spec_verify(password@, encoded@),
{
    verified(verify_encoded(encoded, password.as_bytes()))
}

} // verus!
