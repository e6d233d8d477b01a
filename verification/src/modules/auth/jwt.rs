//! Access tokens: the claims they carry, how they are signed with HS256,
//! and how a token is opened and its expiry checked.

use vstd::prelude::*;
use crate::error::AppError;
use crate::text::{decimal, json_string, push_decimal, push_json_string, push_uuid, uuid_text};

verus! {

#[verifier::external_type_specification]
#[verifier::external_body]
pub struct ExJwtError(jsonwebtoken::errors::Error);

/// The claims of an access token: the user's id, the expiry and issue
/// times in seconds since the Unix epoch, and the user's e-mail address.
#[derive(Debug, Clone, PartialEq, Eq)]
pub struct Claims {
    pub sub: u128,
    pub exp: usize,
    pub iat: usize,
    pub email: String,
}

/// Who a token is issued to.
#[derive(Debug, Clone, PartialEq, Eq)]
pub struct JwtPaylaod {
    pub sub: u128,
    pub email: String,
}

/// How long a token is valid: 24 hours.
pub const TOKEN_LIFETIME_SECS: i64 = 86400;

/// How long after its expiry a token is still accepted.
pub const EXPIRY_LEEWAY_SECS: u64 = 60;

/// The JSON document of a token's claims: `sub` as a hyphenated UUID
/// string, `exp` and `iat` as numbers, `email` as a string, in that order
/// and without spaces.
pub open spec fn claims_text(sub: u128, exp: nat, iat: nat, email: Seq<char>) -> Seq<char> {
    "{\"sub\":\""@ + uuid_text(sub) + "\",\"exp\":"@ + decimal(exp) + ",\"iat\":"@ + decimal(iat)
        + ",\"email\":"@ + json_string(email) + "}"@
}

/// The text is the claims document of some claims whose `exp` and `iat`
/// fit in 64 bits.
pub open spec fn is_claims_document(s: Seq<char>) -> bool {
    exists|sub: u128, exp: nat, iat: nat, email: Seq<char>|
        #![trigger claims_text(sub, exp, iat, email)]
        exp <= u64::MAX && iat <= u64::MAX && s == claims_text(sub, exp, iat, email)
}

impl Claims {
    /// The JSON document these claims are signed as.
    pub open spec fn document(&self) -> Seq<char> {
        claims_text(self.sub, self.exp as nat, self.iat as nat, self.email@)
    }
}

/// The claims of a token issued at `now` (seconds since the epoch): valid
/// for 24 hours from then.
pub open spec fn issued_claims(data: JwtPaylaod, now: i64) -> Claims {
    Claims { sub: data.sub, exp: (now + TOKEN_LIFETIME_SECS) as usize, iat: now as usize, email: data.email }
}

/// Whether claims with this expiry are refused at time `now`: more than a
/// minute has passed since the expiry.
pub open spec fn expired(exp: nat, now: nat) -> bool {
    exp + EXPIRY_LEEWAY_SECS < now
}

/// A configuration error whose text starts with `prefix`.
pub open spec fn config_error_with_prefix(e: AppError, prefix: Seq<char>) -> bool {
    e matches AppError::Config(m) && prefix.is_prefix_of(m@)
}

/// The token `jsonwebtoken::encode` makes from a claims document carried
/// verbatim, with the default header (HS256) and the secret as HMAC key, or
/// `None` when it fails.
pub uninterp spec fn hs256_signed(claims_json: Seq<char>, secret: Seq<char>) -> Option<Seq<char>>;

/// The claims document `jsonwebtoken::decode` takes out of a token with
/// the secret as HMAC key, checking the signature, the algorithm (HS256)
/// and that an `exp` claim is present, but not the clock; `None` when it
/// refuses the token.
pub uninterp spec fn hs256_opened(token: Seq<char>, secret: Seq<char>) -> Option<Seq<char>>;

/// The `exp` member of a JSON document as `serde_json` reads it, when it is
/// an unsigned 64-bit number; `None` when the text is not JSON, or its `exp`
/// is missing or not such a number.
pub uninterp spec fn json_exp(doc: Seq<char>) -> Option<u64>;

/// The message of a clock that cannot be used to issue or check a token.
pub open spec fn is_clock_failure(e: AppError) -> bool {
    e matches AppError::Config(m) && m@ == "JWT encoding failed: system clock out of range"@
}

/// Trusted: `jsonwebtoken::encode` with `Header::default()` and
/// `EncodingKey::from_secret`, over a `serde_json` `RawValue` that holds the
/// claims document as it is. Its result is named by `hs256_signed`. Its
/// source shows that a claims document (valid JSON) is always signed, since
/// an HMAC key may have any length, and that `jsonwebtoken::decode` with the
/// same secret verifies the signature and gives back the same document, since
/// the document carries a numeric `exp`.
#[verifier::external_body]
fn hs256_encode(claims_json: &str, secret: &str) -> (res: Result<String, jsonwebtoken::errors::Error>)
    ensures
        match res {
            Ok(t) => hs256_signed(claims_json@, secret@) == Some(t@),
            Err(_) => hs256_signed(claims_json@, secret@) is None,
        },
        is_claims_document(claims_json@) ==> res is Ok,
        is_claims_document(claims_json@) ==> (res matches Ok(t) ==> hs256_opened(t@, secret@) == Some(claims_json@)),
{
    match serde_json::value::RawValue::from_string(claims_json.to_string()) {
        Ok(raw) => jsonwebtoken::encode(
            &jsonwebtoken::Header::default(),
            &raw,
            &jsonwebtoken::EncodingKey::from_secret(secret.as_bytes()),
        ),
        Err(e) => Err(e.into()),
    }
}

/// Trusted: `jsonwebtoken::decode` into a `serde_json` `RawValue`, with
/// `DecodingKey::from_secret` and `Validation::default()` except that
/// `validate_exp` is off, so that the call does not read the clock (the
/// expiry is checked by `verify_jwt_at`, with the same rule). Its result is
/// named by `hs256_opened`.
#[verifier::external_body]
fn hs256_decode(token: &str, secret: &str) -> (res: Result<String, jsonwebtoken::errors::Error>)
    ensures
        match res {
            Ok(j) => hs256_opened(token@, secret@) == Some(j@),
            Err(_) => hs256_opened(token@, secret@) is None,
        },
{
    let mut validation = jsonwebtoken::Validation::default();
    validation.validate_exp = false;
    jsonwebtoken::decode::<Box<serde_json::value::RawValue>>(
        token,
        &jsonwebtoken::DecodingKey::from_secret(secret.as_bytes()),
        &validation,
    ).map(|data| data.claims.get().to_string())
}

/// Trusted: `serde_json::from_str` into a `serde_json::Value`, then its
/// `exp` member read with `Value::as_u64`. Its result is named by
/// `json_exp`; the source shows that in a claims document whose `exp` and
/// `iat` are numbers of at most 64 bits it reads that `exp`. (A number too
/// large even for an `f64` makes the parse fail, so the bound on `iat` is
/// needed too.)
#[verifier::external_body]
fn claims_exp(doc: &str) -> (res: Option<u64>)
    ensures
        res == json_exp(doc@),
        forall|sub: u128, exp: nat, iat: nat, email: Seq<char>|
            #![trigger claims_text(sub, exp, iat, email)]
            exp <= u64::MAX && iat <= u64::MAX && doc@ == claims_text(sub, exp, iat, email)
                ==> res == Some(exp as u64),
{
    serde_json::from_str::<serde_json::Value>(doc).ok().and_then(|v| v.get("exp").and_then(|e| e.as_u64()))
}

/// Trusted: the `Display` text of a `jsonwebtoken` error; nothing is stated of it.
#[verifier::external_body]
fn jwt_error_text(e: &jsonwebtoken::errors::Error) -> String {
    format!("{}", e)
}

#[verifier::external_type_specification]
#[verifier::external_body]
pub struct ExSystemTime(std::time::SystemTime);

/// Trusted: `SystemTime::now`, the system clock; nothing is stated of it.
#[verifier::external_body]
fn system_now() -> std::time::SystemTime {
    std::time::SystemTime::now()
}

/// Trusted: `SystemTime::duration_since(UNIX_EPOCH)`, `None` when the time
/// lies before the epoch; nothing is stated of the duration.
#[verifier::external_body]
fn since_epoch(t: &std::time::SystemTime) -> Option<std::time::Duration> {
    t.duration_since(std::time::UNIX_EPOCH).ok()
}

/// Trusted: `Duration::as_secs`, the whole seconds of a duration; nothing is
/// stated of it.
#[verifier::external_body]
fn whole_seconds(d: &std::time::Duration) -> u64 {
    d.as_secs()
}

/// The clock in whole seconds since the epoch, or `None` when it reads
/// before the epoch. It depends on the clock, so nothing is stated of it.
fn unix_now() -> Option<u64> {
    match since_epoch(&system_now()) {
        Some(d) => Some(whole_seconds(&d)),
        None => None,
    }
}

/// Writes the claims document of some claims.
pub fn claims_document(claims: &Claims) -> (doc: String)
    ensures
        doc@ == claims.document(),
{
    let mut out = String::new();
    out.append("{\"sub\":\"");
    push_uuid(&mut out, claims.sub);
    out.append("\",\"exp\":");
    push_decimal(&mut out, claims.exp as u64);
    out.append(",\"iat\":");
    push_decimal(&mut out, claims.iat as u64);
    out.append(",\"email\":");
    push_json_string(&mut out, claims.email.as_str());
    out.append("}");
    assert(out@ =~= claims.document());
    out
}

/// The error that prefixes a `jsonwebtoken` error text, as the service reports it.
fn jwt_failure(e: &jsonwebtoken::errors::Error) -> (err: AppError)
    ensures
        config_error_with_prefix(err, "JWT encoding failed: "@),
{
    let text = jwt_error_text(e);
    let m = String::from_str("JWT encoding failed: ").concat(text.as_str());
    assert(m@.subrange(0, "JWT encoding failed: "@.len() as int) =~= "JWT encoding failed: "@);
    AppError::Config(m)
}

/// The error for a missing secret.
fn missing_secret() -> (err: AppError)
    ensures
        err matches AppError::Config(m) && m@ == "JWT_SECRET must be set in .env"@,
{
    AppError::Config(String::from_str("JWT_SECRET must be set in .env"))
}

/// The error for a clock that reads before the epoch or beyond what a token
/// can carry.
fn clock_failure() -> (err: AppError)
    ensures
        is_clock_failure(err),
        config_error_with_prefix(err, "JWT encoding failed: "@),
{
    let m = String::from_str("JWT encoding failed: system clock out of range");
    proof {
        reveal_strlit("JWT encoding failed: system clock out of range");
        reveal_strlit("JWT encoding failed: ");
    }
    assert(m@.subrange(0, "JWT encoding failed: "@.len() as int) =~= "JWT encoding failed: "@);
    AppError::Config(m)
}

/// Issues a token at time `now`: the claims of `data` valid for 24 hours,
/// signed with `secret`. Signing always succeeds, and the token opens, with
/// the same secret, to exactly the claims it was issued with.
pub fn create_jwt_at(data: JwtPaylaod, secret: &str, now: i64) -> (res: Result<String, AppError>)
    requires
        now <= i64::MAX - TOKEN_LIFETIME_SECS,
    ensures
        res matches Ok(r) && hs256_signed(issued_claims(data, now).document(), secret@) == Some(r@)
            && hs256_opened(r@, secret@) == Some(issued_claims(data, now).document()),
{
    let exp_at: i64 = now + TOKEN_LIFETIME_SECS;
    let claims = Claims {
        sub: data.sub,
        exp: #[verifier::truncate] (exp_at as usize),
        iat: #[verifier::truncate] (now as usize),
        email: data.email,
    };
    let doc = claims_document(&claims);
    assert(claims == issued_claims(data, now));
    assert(is_claims_document(doc@)) by {
        assert(doc@ == claims_text(claims.sub, claims.exp as nat, claims.iat as nat, claims.email@));
    }
    match hs256_encode(doc.as_str(), secret) {
        Ok(t) => Ok(t),
        Err(e) => Err(jwt_failure(&e)),
    }
}

/// Issues a token now, with the secret from the configuration. Without a
/// secret it fails with a configuration error, and with a clock that reads
/// before the epoch with the clock error. Otherwise the token is the one
/// issued at the time the clock read, and opens to its claims.
pub fn create_jwt(data: JwtPaylaod, secret: Option<String>) -> (res: Result<String, AppError>)
    ensures
        secret is None ==> (res matches Err(AppError::Config(m)) && m@ == "JWT_SECRET must be set in .env"@),
        secret matches Some(s) ==> (res matches Ok(t) ==> exists|now: i64|
            0 <= now && hs256_signed(#[trigger] issued_claims(data, now).document(), s@) == Some(t@)
                && hs256_opened(t@, s@) == Some(issued_claims(data, now).document())),
        secret is Some ==> (res matches Err(e) ==> is_clock_failure(e)),
{
    match secret {
        None => Err(missing_secret()),
        Some(s) => match unix_now() {
            None => Err(clock_failure()),
            Some(t) => {
                if t > (i64::MAX - TOKEN_LIFETIME_SECS) as u64 {
                    Err(clock_failure())
                } else {
                    let now = t as i64;
                    let res = create_jwt_at(data, s.as_str(), now);
                    assert(hs256_signed(issued_claims(data, now).document(), s@) is Some);
                    res
                }
            },
        },
    }
}

/// The answer to a token at time `now`: a token `jsonwebtoken` refuses, or
/// whose `exp` is not a whole number, fails with a configuration error;
/// one that expired more than a minute earlier fails with the expiry error;
/// any other comes back as its claims document.
pub open spec fn verify_answer(token: Seq<char>, secret: Seq<char>, now: u64, res: Result<String, AppError>) -> bool {
    match hs256_opened(token, secret) {
        None => res matches Err(e) && config_error_with_prefix(e, "JWT encoding failed: "@),
        Some(j) => match json_exp(j) {
            None => res matches Err(AppError::Config(m)) && m@ == "JWT encoding failed: Invalid format for claim: exp"@,
            Some(e) => if expired(e as nat, now as nat) {
                res matches Err(AppError::Config(m)) && m@ == "JWT encoding failed: ExpiredSignature"@
            } else {
                res matches Ok(r) && r@ == j
            },
        },
    }
}

/// Opens a token with `secret` at time `now` and gives back its claims
/// document, refusing it once it expired more than a minute earlier. A
/// token that carries a claims document is accepted exactly until a minute
/// after its expiry.
pub fn verify_jwt_at(token: &str, secret: &str, now: u64) -> (res: Result<String, AppError>)
    ensures
        verify_answer(token@, secret@, now, res),
        forall|sub: u128, exp: nat, iat: nat, email: Seq<char>|
            #![trigger claims_text(sub, exp, iat, email)]
            exp <= u64::MAX && iat <= u64::MAX && hs256_opened(token@, secret@) == Some(claims_text(sub, exp, iat, email))
                ==> (res is Ok <==> !expired(exp, now as nat)),
{
    match hs256_decode(token, secret) {
        Err(e) => Err(jwt_failure(&e)),
        Ok(j) => match claims_exp(j.as_str()) {
            None => Err(AppError::Config(String::from_str("JWT encoding failed: Invalid format for claim: exp"))),
            Some(exp) => {
                if now >= EXPIRY_LEEWAY_SECS && exp < now - EXPIRY_LEEWAY_SECS {
                    Err(AppError::Config(String::from_str("JWT encoding failed: ExpiredSignature")))
                } else {
                    Ok(j)
                }
            },
        },
    }
}

/// Opens a token with the secret from the configuration, at the time the
/// clock reads, and gives back its claims document. Without a secret it
/// fails with a configuration error; otherwise the answer is that of
/// `verify_jwt_at` at the clock reading, or the clock error when the clock
/// reads before the epoch.
pub fn verify_jwt(token: &str, secret: Option<String>) -> (res: Result<String, AppError>)
    ensures
        secret is None ==> (res matches Err(AppError::Config(m)) && m@ == "JWT_SECRET must be set in .env"@),
        secret matches Some(s) ==> ((exists|now: u64| #[trigger] verify_answer(token@, s@, now, res))
            || (res matches Err(e) && is_clock_failure(e))),
        secret matches Some(s) ==> (hs256_opened(token@, s@) is None ==> res is Err),
        secret matches Some(s) ==> (res matches Ok(j) ==> hs256_opened(token@, s@) == Some(j@)),
        secret is Some ==> (res matches Err(e) ==> config_error_with_prefix(e, "JWT encoding failed: "@)),
{
    match secret {
        None => Err(missing_secret()),
        Some(s) => match unix_now() {
            None => Err(clock_failure()),
            Some(now) => {
                let res = verify_jwt_at(token, s.as_str(), now);
                assert(verify_answer(token@, s@, now, res));
                proof {
                    reveal_strlit("JWT encoding failed: ");
                    reveal_strlit("JWT encoding failed: Invalid format for claim: exp");
                    reveal_strlit("JWT encoding failed: ExpiredSignature");
                    if res is Err {
                        let e = res->Err_0;
                        assert(config_error_with_prefix(e, "JWT encoding failed: "@)) by {
                            if let AppError::Config(m) = e {
                                assert(m@.subrange(0, "JWT encoding failed: "@.len() as int) =~= "JWT encoding failed: "@);
                            }
                        }
                    }
                }
                res
            },
        },
    }
}

/// A token issued at a time `now` after the epoch, checked with its secret
/// at a time `later`, is accepted exactly when `later` is at most a minute
/// past its expiry 24 hours after `now`, and is then answered with the
/// claims it was issued with: the user's id and e-mail, issued at `now` and
/// expiring 24 hours later. `token` is what `create_jwt_at` returned and
/// `answer` what `verify_jwt_at` returned, each as its contract states.
pub proof fn lemma_issued_token_is_accepted(
    data: JwtPaylaod,
    secret: Seq<char>,
    token: Seq<char>,
    now: i64,
    later: u64,
    answer: Result<String, AppError>,
)
    requires
        0 <= now,
        now + TOKEN_LIFETIME_SECS <= usize::MAX,
        hs256_opened(token, secret) == Some(issued_claims(data, now).document()),
        verify_answer(token, secret, later, answer),
        forall|sub: u128, exp: nat, iat: nat, email: Seq<char>|
            #![trigger claims_text(sub, exp, iat, email)]
            exp <= u64::MAX && iat <= u64::MAX && hs256_opened(token, secret) == Some(claims_text(sub, exp, iat, email))
                ==> (answer is Ok <==> !expired(exp, later as nat)),
    ensures
        answer is Ok <==> later <= now + TOKEN_LIFETIME_SECS + EXPIRY_LEEWAY_SECS,
        answer matches Ok(j) ==> j@ == claims_text(data.sub, (now + TOKEN_LIFETIME_SECS) as nat, now as nat, data.email@),
        issued_claims(data, now).sub == data.sub,
        issued_claims(data, now).email == data.email,
        issued_claims(data, now).iat == now,
        issued_claims(data, now).exp == now + TOKEN_LIFETIME_SECS,
{
    let exp = (now + TOKEN_LIFETIME_SECS) as nat;
    assert(issued_claims(data, now).document() == claims_text(data.sub, exp, now as nat, data.email@));
    assert(hs256_opened(token, secret) == Some(claims_text(data.sub, exp, now as nat, data.email@)));
}

} // verus!
