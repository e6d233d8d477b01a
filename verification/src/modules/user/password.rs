//! Password hashing with bcrypt.

use vstd::prelude::*;
use crate::error::AppError;
use crate::text::decimal;

verus! {

#[verifier::external_type_specification]
#[verifier::external_body]
pub struct ExBcryptError(bcrypt::BcryptError);

/// The bcrypt cost the service hashes with (bcrypt's default).
pub const HASH_COST: u32 = 12;

/// What `bcrypt::verify` answers for a password and a stored hash:
/// `Some(verdict)`, or `None` when it fails (a malformed hash).
pub uninterp spec fn bcrypt_verdict(password: Seq<char>, hash: Seq<char>) -> Option<bool>;

/// The stored hash accepts the password.
pub open spec fn password_matches(hash: Seq<char>, password: Seq<char>) -> bool {
    bcrypt_verdict(password, hash) == Some(true)
}

/// The cost as a bcrypt hash writes it: two decimal digits.
pub open spec fn cost_text(cost: nat) -> Seq<char> {
    if cost < 10 {
        "0"@ + decimal(cost)
    } else {
        decimal(cost)
    }
}

/// The first seven characters of a bcrypt hash of version `2b` made at `cost`.
pub open spec fn bcrypt_prefix(cost: nat) -> Seq<char> {
    "$2b$"@ + cost_text(cost) + "$"@
}

/// A bcrypt hash of version `2b` made at cost 12: sixty characters that
/// start with `$2b$12$`.
pub open spec fn is_cost12_hash(h: Seq<char>) -> bool {
    h.len() == 60 && h.subrange(0, 7) == "$2b$12$"@
}

/// Trusted: `bcrypt::hash`, which draws a random salt, so its result is not
/// named. Its source shows that the hash is written as `$2b$`, the cost in
/// two digits, `$`, the salt and the digest, sixty characters in all, and
/// that `bcrypt::verify` recomputes the hash from the cost and salt written
/// into it, so a hash it returns accepts the password it was made from.
/// Nothing about the salt or the digest themselves is stated.
#[verifier::external_body]
fn bcrypt_hash(password: &str, cost: u32) -> (res: Result<String, bcrypt::BcryptError>)
    requires
        4 <= cost <= 31,
    ensures
        res matches Ok(h) ==> bcrypt_verdict(password@, h@) == Some(true),
        res matches Ok(h) ==> h@.len() == 60 && h@.subrange(0, 7) == bcrypt_prefix(cost as nat),
{
    bcrypt::hash(password, cost)
}

/// Trusted: `bcrypt::verify`, whose result is named by `bcrypt_verdict`. Its
/// source shows that it fails on a hash that is not 60 ASCII characters.
#[verifier::external_body]
fn bcrypt_verify(password: &str, hash: &str) -> (res: Result<bool, bcrypt::BcryptError>)
    ensures
        match res {
            Ok(b) => bcrypt_verdict(password@, hash@) == Some(b),
            Err(_) => bcrypt_verdict(password@, hash@) is None,
        },
        res is Ok ==> hash@.len() == 60 && vstd::utf8::is_ascii_chars(hash@),
{
    bcrypt::verify(password, hash)
}

/// Hashes a password for storage at bcrypt's default cost of 12. The hash it
/// returns is a cost-12 bcrypt hash that accepts the password; when bcrypt
/// fails (it cannot draw a salt) the result is an internal error.
pub fn hash_password(password: &str) -> (res: Result<String, AppError>)
    ensures
        res matches Ok(h) ==> password_matches(h@, password@) && is_cost12_hash(h@),
        res matches Err(e) ==> e matches AppError::InternalServerError(m) && m@ == "Failed to hash password"@,
{
    match bcrypt_hash(password, HASH_COST) {
        Ok(h) => {
            proof {
                lemma_cost12_prefix();
            }
            Ok(h)
        },
        Err(_) => Err(AppError::InternalServerError(String::from_str("Failed to hash password"))),
    }
}

/// The prefix of a hash at cost 12 is `$2b$12$`.
proof fn lemma_cost12_prefix()
    ensures
        bcrypt_prefix(12) == "$2b$12$"@,
{
    reveal_strlit("$2b$");
    reveal_strlit("$");
    reveal_strlit("$2b$12$");
    assert(decimal(1) == seq!['1']);
    assert(decimal(12) =~= seq!['1', '2']);
    assert(bcrypt_prefix(12) =~= "$2b$12$"@);
}

/// Whether a stored hash accepts a password; a malformed hash accepts
/// nothing, in particular one that is not 60 ASCII characters.
pub fn verify_passwrod(hash: &str, password: &str) -> (ok: bool)
    ensures
        ok == password_matches(hash@, password@),
        !(hash@.len() == 60 && vstd::utf8::is_ascii_chars(hash@)) ==> !ok,
{
    match bcrypt_verify(password, hash) {
        Ok(b) => b,
        Err(_) => false,
    }
}

/// A hash made by `hash_password` accepts the password it was made from:
/// `verify_passwrod` answers `true` for it. `hash` is what
/// `hash_password` returned and `verdict` what `verify_passwrod` answered
/// for the hash and the same password, each as its contract states.
pub proof fn lemma_hashed_password_verifies(password: Seq<char>, hash: Seq<char>, verdict: bool)
    requires
        password_matches(hash, password) && is_cost12_hash(hash),
        verdict == password_matches(hash, password),
        !(hash.len() == 60 && vstd::utf8::is_ascii_chars(hash)) ==> !verdict,
    ensures
        verdict,
{
}

} // verus!
