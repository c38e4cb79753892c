//! Salted, memory-hard password hashing and verification.
//!
//! The hashing itself is Argon2 as the `argon2` crate implements it. This
//! module draws the salt, hands password and salt to the hasher, and turns
//! what comes back into the library's own results.

use crate::error::{ApplicationError, ApplicationErrorView};
use argon2::password_hash::rand_core::OsRng;
use argon2::password_hash::{Salt, SaltString};
use argon2::{Argon2, PasswordHash, PasswordHasher, PasswordVerifier};
use vstd::prelude::*;

verus! {

/// The error type of the `argon2` crate's password-hash interface. The
/// library only ever tells it apart from success.
#[verifier::external_type_specification]
#[verifier::external_body]
pub struct ExPasswordHashError(argon2::password_hash::Error);

/// The PHC string that Argon2, with the crate's default algorithm, version
/// and parameters, derives from `password` under the B64-encoded `salt`;
/// `None` where the salt is not accepted or the hasher reports an error.
pub uninterp spec fn argon2_phc(password: Seq<char>, salt: Seq<char>) -> Option<Seq<char>>;

/// Whether `text` parses as a PHC string.
pub uninterp spec fn phc_parses(text: Seq<char>) -> bool;

/// Whether `hash` parses as a PHC string and Argon2, run on `candidate` with
/// the algorithm, parameters and salt that `hash` names, reproduces the
/// output that `hash` carries.
pub uninterp spec fn argon2_accepts(hash: Seq<char>, candidate: Seq<char>) -> bool;

/// A character of the unpadded standard Base64 alphabet.
pub open spec fn is_b64_char(c: char) -> bool {
    ('a' <= c && c <= 'z') || ('A' <= c && c <= 'Z') || ('0' <= c && c <= '9') || c == '+' || c
        == '/'
}

/// The shape of a freshly drawn salt: sixteen bytes in unpadded Base64,
/// which is twenty-two characters.
pub open spec fn is_fresh_salt(salt: Seq<char>) -> bool {
    &&& salt.len() == 22
    &&& forall|i: int| 0 <= i < salt.len() ==> is_b64_char(#[trigger] salt[i])
}

/// Calls `SaltString::generate` with the operating system's random number
/// generator. Which salt comes back is left open; the crate fills sixteen
/// random bytes and encodes them in unpadded Base64, so every outcome has
/// the shape [`is_fresh_salt`]. Where the operating system has no
/// randomness to give, the generator does not return.
#[verifier::external_body]
fn generate_salt() -> (salt: String)
    ensures
        is_fresh_salt(salt@),
{
    SaltString::generate(&mut OsRng).as_str().to_string()
}

/// How every hash of the default hasher begins: the algorithm, its version
/// and its three cost parameters, each after a `$`, and the `$` before the
/// salt.
pub open spec fn phc_prefix() -> Seq<char> {
    "$argon2id$v=19$m=19456,t=2,p=1$"@
}

/// `phc` begins with [`phc_prefix`], the text of `salt` and a `$`, and goes
/// on after that.
pub open spec fn names_salt(phc: Seq<char>, salt: Seq<char>) -> bool {
    let head = phc_prefix() + salt + seq!['$'];
    head.len() < phc.len() && phc.subrange(0, head.len() as int) == head
}

/// Calls `Argon2::default().hash_password` on the bytes of `password` and
/// the salt parsed from `salt`, and renders the hash it returns as a PHC
/// string. The result is [`argon2_phc`] of the two arguments. Of a string
/// that comes back the contract adds two things. One is the crate's
/// documented round trip: the string parses, and verification of the same
/// password against it succeeds. The other is how the crate writes the
/// string: `$`, the name of the default algorithm, `$v=` and the default
/// version, `$` and the default parameters, `$` and the salt as it was
/// given, `$` and the digest.
#[verifier::external_body]
fn argon2_hash(password: &str, salt: &str) -> (r: Result<String, argon2::password_hash::Error>)
    ensures
        match r {
            Ok(phc) => argon2_phc(password@, salt@) == Some(phc@) && phc_parses(phc@)
                && argon2_accepts(phc@, password@) && names_salt(phc@, salt@),
            Err(_) => argon2_phc(password@, salt@) is None,
        },
{
    let salt = Salt::from_b64(salt)?;
    let hash = Argon2::default().hash_password(password.as_bytes(), salt)?;
    Ok(hash.to_string())
}

/// Calls `PasswordHash::new` and keeps only whether it succeeded, which is
/// [`phc_parses`] of the text.
#[verifier::external_body]
fn parse_phc(text: &str) -> (r: Result<(), argon2::password_hash::Error>)
    ensures
        r is Ok <==> phc_parses(text@),
{
    match PasswordHash::new(text) {
        Ok(_) => Ok(()),
        Err(e) => Err(e),
    }
}

/// Parses `hash` with `PasswordHash::new` and calls
/// `Argon2::default().verify_password` on the bytes of `candidate` and the
/// parsed hash. It succeeds exactly where [`argon2_accepts`] holds.
#[verifier::external_body]
fn argon2_verify(hash: &str, candidate: &str) -> (r: Result<(), argon2::password_hash::Error>)
    ensures
        r is Ok <==> argon2_accepts(hash@, candidate@),
{
    let parsed = PasswordHash::new(hash)?;
    Argon2::default().verify_password(candidate.as_bytes(), &parsed)
}

/// The detail of the error that reports a failed hashing.
pub open spec fn hash_failure_message() -> Seq<char> {
    "Failed to hash password"@
}

/// The detail of the error that reports a stored hash that does not parse.
pub open spec fn parse_failure_message() -> Seq<char> {
    "Failed to parse password hash"@
}

/// `phc` is the hash of `password` under `salt`: Argon2 derived it from the
/// two, it names algorithm, parameters and salt, it parses, it verifies
/// against the password, and it is not the password itself.
pub open spec fn is_hash_under(phc: Seq<char>, password: Seq<char>, salt: Seq<char>) -> bool {
    &&& argon2_phc(password, salt) == Some(phc)
    &&& names_salt(phc, salt)
    &&& phc_parses(phc)
    &&& argon2_accepts(phc, password)
    &&& phc != password
}

/// `phc` is a hash of `password`: its hash under some fresh salt.
pub open spec fn is_hash_of(phc: Seq<char>, password: Seq<char>) -> bool {
    exists|salt: Seq<char>| is_fresh_salt(salt) && #[trigger] is_hash_under(phc, password, salt)
}

/// Under `salt` the hasher gives nothing that can be stored for `password`:
/// it reports an error, or it hands the password back.
pub open spec fn hasher_gives_nothing(password: Seq<char>, salt: Seq<char>) -> bool {
    argon2_phc(password, salt) is None || argon2_phc(password, salt) == Some(password)
}

/// Some fresh salt is one under which the hasher gives nothing for
/// `password`. Hashing fails on no other ground.
pub open spec fn hashing_can_fail(password: Seq<char>) -> bool {
    exists|salt: Seq<char>| is_fresh_salt(salt) && #[trigger] hasher_gives_nothing(password, salt)
}

/// What verifying `candidate` against `stored` comes to: a stored string
/// that does not parse is an application error, a mismatch is an incorrect
/// password, and a match is success.
pub open spec fn verification_outcome(stored: Seq<char>, candidate: Seq<char>) -> Result<
    (),
    ApplicationErrorView,
> {
    if !phc_parses(stored) {
        Err(ApplicationErrorView::ApplicationError(parse_failure_message()))
    } else if argon2_accepts(stored, candidate) {
        Ok(())
    } else {
        Err(ApplicationErrorView::IncorrectPassword)
    }
}

/// Turns what the hasher returned for `password` into the library's result.
/// A string that came back is kept unless it equals the password, which is
/// treated like an error of the hasher: nothing that this function lets
/// through is the plaintext.
pub fn hashing_result(password: &str, outcome: Result<String, argon2::password_hash::Error>) -> (r:
    Result<String, ApplicationError>)
    ensures
        match r {
            Ok(phc) => outcome matches Ok(made) && made@ == phc@ && phc@ != password@,
            Err(e) => {
                &&& outcome matches Ok(made) ==> made@ == password@
                &&& e@ == ApplicationErrorView::ApplicationError(hash_failure_message())
            },
        },
{
    match outcome {
        Ok(made) => {
            let plain = String::from_str(password);
            if made == plain {
                Err(ApplicationError::application("Failed to hash password"))
            } else {
                Ok(made)
            }
        },
        Err(_) => Err(ApplicationError::application("Failed to hash password")),
    }
}

/// Turns the outcome of parsing a stored hash into the library's result.
pub fn parsing_result(outcome: Result<(), argon2::password_hash::Error>) -> (r: Result<
    (),
    ApplicationError,
>)
    ensures
        r is Ok <==> outcome is Ok,
        r matches Err(e) ==> e@ == ApplicationErrorView::ApplicationError(parse_failure_message()),
{
    match outcome {
        Ok(_) => Ok(()),
        Err(_) => Err(ApplicationError::application("Failed to parse password hash")),
    }
}

/// Turns the outcome of a verification into the library's result: whatever
/// the verifier objects to is an incorrect password.
pub fn verification_result(outcome: Result<(), argon2::password_hash::Error>) -> (r: Result<
    (),
    ApplicationError,
>)
    ensures
        r is Ok <==> outcome is Ok,
        r matches Err(e) ==> e@ == ApplicationErrorView::IncorrectPassword,
{
    match outcome {
        Ok(_) => Ok(()),
        Err(_) => Err(ApplicationError::IncorrectPassword),
    }
}

/// Hashes `password` under `salt`, which is the Base64 text of the salt.
/// The result is decided by the two arguments: the hash that Argon2 derives
/// from them, or the failure where the hasher gives nothing.
pub fn hash_with_salt(password: &str, salt: &str) -> (r: Result<String, ApplicationError>)
    ensures
        match r {
            Ok(phc) => is_hash_under(phc@, password@, salt@),
            Err(e) => {
                &&& hasher_gives_nothing(password@, salt@)
                &&& e@ == ApplicationErrorView::ApplicationError(hash_failure_message())
            },
        },
{
    let outcome = argon2_hash(password, salt);
    hashing_result(password, outcome)
}

/// Hashes `password` under a salt drawn for this call. The string that
/// comes back names algorithm, parameters and salt, so that verification
/// needs nothing else. Hashing fails only where the hasher gives nothing
/// under the salt that was drawn; every failure is reported with the same
/// message.
pub fn hash(password: &str) -> (r: Result<String, ApplicationError>)
    ensures
        match r {
            Ok(phc) => is_hash_of(phc@, password@),
            Err(e) => {
                &&& hashing_can_fail(password@)
                &&& e@ == ApplicationErrorView::ApplicationError(hash_failure_message())
            },
        },
{
    let salt = generate_salt();
    let r = hash_with_salt(password, salt.as_str());
    proof {
        if r is Ok {
            assert(is_hash_under(r->Ok_0@, password@, salt@));
        } else {
            assert(hasher_gives_nothing(password@, salt@));
        }
    }
    r
}

/// Verifies `candidate` against the stored hash.
pub fn verify(stored: &str, candidate: &str) -> (r: Result<(), ApplicationError>)
    ensures
        match r {
            Ok(_) => verification_outcome(stored@, candidate@) is Ok,
            Err(e) => verification_outcome(stored@, candidate@) == Err::<
                (),
                ApplicationErrorView,
            >(e@),
        },
{
    match parsing_result(parse_phc(stored)) {
        Ok(_) => verification_result(argon2_verify(stored, candidate)),
        Err(e) => Err(e),
    }
}

/// A hash made from a password verifies against that password.
pub proof fn lemma_hash_verifies(phc: Seq<char>, password: Seq<char>)
    requires
        is_hash_of(phc, password),
    ensures
        verification_outcome(phc, password) is Ok,
        phc != password,
{
    let salt = choose|salt: Seq<char>| is_fresh_salt(salt) && is_hash_under(phc, password, salt);
    assert(is_hash_under(phc, password, salt));
}

/// Verifying any candidate against a hash made by [`hash`] never reports a
/// parse failure: a candidate that Argon2 does not accept is an incorrect
/// password, and nothing else.
pub proof fn lemma_hash_always_parses(phc: Seq<char>, password: Seq<char>, candidate: Seq<char>)
    requires
        is_hash_of(phc, password),
    ensures
        verification_outcome(phc, candidate) is Ok <==> argon2_accepts(phc, candidate),
        !argon2_accepts(phc, candidate) ==> verification_outcome(phc, candidate) == Err::<
            (),
            ApplicationErrorView,
        >(ApplicationErrorView::IncorrectPassword),
{
    let salt = choose|salt: Seq<char>| is_fresh_salt(salt) && is_hash_under(phc, password, salt);
    assert(is_hash_under(phc, password, salt));
}

/// Two hashes under two fresh salts are two strings, whatever was hashed:
/// each names its own salt. So hashing one password twice gives two hashes
/// unless the same salt is drawn twice, and both verify against the
/// password.
pub proof fn lemma_fresh_salts_give_distinct_hashes(
    password: Seq<char>,
    first_salt: Seq<char>,
    second_salt: Seq<char>,
    first: Seq<char>,
    second: Seq<char>,
)
    requires
        is_fresh_salt(first_salt),
        is_fresh_salt(second_salt),
        first_salt != second_salt,
        is_hash_under(first, password, first_salt),
        is_hash_under(second, password, second_salt),
    ensures
        first != second,
        first != password,
        second != password,
        verification_outcome(first, password) is Ok,
        verification_outcome(second, password) is Ok,
{
    let start = phc_prefix().len() as int;
    let first_head = phc_prefix() + first_salt + seq!['$'];
    let second_head = phc_prefix() + second_salt + seq!['$'];
    if first == second {
        assert forall|k: int| 0 <= k < 22 implies first_salt[k] == second_salt[k] by {
            assert(first_head[start + k] == first_salt[k]);
            assert(second_head[start + k] == second_salt[k]);
            assert(first.subrange(0, first_head.len() as int)[start + k] == first[start + k]);
            assert(second.subrange(0, second_head.len() as int)[start + k] == second[start + k]);
        }
        assert(first_salt =~= second_salt);
    }
}

} // verus!
