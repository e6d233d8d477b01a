//! Login and registration.

use vstd::prelude::*;
use crate::error::AppError;
use crate::modules::user::dto::{UserCreateDto, UserItemWithPassword};
use crate::modules::user::entities::NewUser;
use crate::modules::user::password::{is_cost12_hash, password_matches, verify_passwrod};
use crate::modules::user::repository::UserRepository;
use super::dto::{LoginResponse, LoginUserDto};
use super::jwt::{
    create_jwt, create_jwt_at, hs256_opened, hs256_signed, issued_claims, JwtPaylaod,
    TOKEN_LIFETIME_SECS,
};

verus! {

/// The authentication service.
pub struct AuthService;

/// The answer to a login that is refused: the same for an unknown e-mail
/// address and for a wrong password.
pub open spec fn is_bad_credentials(e: AppError) -> bool {
    e matches AppError::BadRequest(m) && m@ == "Invalid Login credenditals"@
}

/// The answer when no token can be made.
pub open spec fn is_token_failure(e: AppError) -> bool {
    e matches AppError::InternalServerError(m) && m@ == "Access token generation failed!"@
}

/// The user a token is issued to.
pub open spec fn payload_of(u: UserItemWithPassword) -> JwtPaylaod {
    JwtPaylaod { sub: u.id, email: u.email }
}

/// The login is refused before any token is made.
pub open spec fn credentials_refused(lookup: Result<UserItemWithPassword, AppError>, dto: LoginUserDto) -> bool {
    match lookup {
        Err(_) => true,
        Ok(u) => !password_matches(u.password@, dto.password@),
    }
}

fn bad_credentials() -> (e: AppError)
    ensures
        is_bad_credentials(e),
{
    AppError::BadRequest(String::from_str("Invalid Login credenditals"))
}

fn token_failure() -> (e: AppError)
    ensures
        is_token_failure(e),
{
    AppError::InternalServerError(String::from_str("Access token generation failed!"))
}

fn answer(token: String) -> (r: LoginResponse)
    ensures
        r.acess_token@ == token@,
        r.refresh_token@ == "_"@,
{
    LoginResponse { acess_token: token, refresh_token: String::from_str("_") }
}

impl AuthService {
    /// Logs a user in at time `now`, given the lookup of the user by the
    /// e-mail address of the login. An unknown address and a wrong password
    /// are refused alike; without a secret no token can be made; otherwise
    /// the answer carries the token issued at `now`, which opens to the
    /// user's claims, and the refresh token `_`.
    pub fn login_at(
        lookup: Result<UserItemWithPassword, AppError>,
        dto: LoginUserDto,
        secret: Option<String>,
        now: i64,
    ) -> (res: Result<LoginResponse, AppError>)
        requires
            now <= i64::MAX - TOKEN_LIFETIME_SECS,
        ensures
            credentials_refused(lookup, dto) ==> (res matches Err(e) && is_bad_credentials(e)),
            !credentials_refused(lookup, dto) ==> match (lookup, secret) {
                (Ok(u), Some(s)) => res matches Ok(r)
                    && hs256_signed(issued_claims(payload_of(u), now).document(), s@) == Some(r.acess_token@)
                    && hs256_opened(r.acess_token@, s@) == Some(issued_claims(payload_of(u), now).document())
                    && r.refresh_token@ == "_"@,
                _ => res matches Err(e) && is_token_failure(e),
            },
    {
        let user = match lookup {
            Ok(u) => u,
            Err(_) => return Err(bad_credentials()),
        };
        if !verify_passwrod(user.password.as_str(), dto.password.as_str()) {
            return Err(bad_credentials());
        }
        let ghost u = user;
        let payload = JwtPaylaod { email: user.email, sub: user.id };
        assert(payload == payload_of(u));
        match secret {
            None => Err(token_failure()),
            Some(s) => match create_jwt_at(payload, s.as_str(), now) {
                Ok(t) => Ok(answer(t)),
                Err(_) => Err(token_failure()),
            },
        }
    }

    /// Logs a user in now. Refusals are as for `login_at`; a login that is not
    /// refused fails only when there is no secret or the clock reads before the
    /// epoch, and otherwise carries the token issued to the user at the time
    /// the clock read, which opens with the secret to the user's claims, and
    /// the refresh token `_`.
    pub fn login(
        lookup: Result<UserItemWithPassword, AppError>,
        dto: LoginUserDto,
        secret: Option<String>,
    ) -> (res: Result<LoginResponse, AppError>)
        ensures
            credentials_refused(lookup, dto) ==> (res matches Err(e) && is_bad_credentials(e)),
            !credentials_refused(lookup, dto) ==> (res matches Err(e) ==> is_token_failure(e)),
            !credentials_refused(lookup, dto) && secret is None ==> (res matches Err(e) && is_token_failure(e)),
            res matches Ok(r) ==> r.refresh_token@ == "_"@ && match (lookup, secret) {
                (Ok(u), Some(s)) => exists|now: i64| 0 <= now &&
                    hs256_signed(#[trigger] issued_claims(payload_of(u), now).document(), s@) == Some(r.acess_token@)
                        && hs256_opened(r.acess_token@, s@) == Some(issued_claims(payload_of(u), now).document()),
                _ => false,
            },
    {
        let user = match lookup {
            Ok(u) => u,
            Err(_) => return Err(bad_credentials()),
        };
        if !verify_passwrod(user.password.as_str(), dto.password.as_str()) {
            return Err(bad_credentials());
        }
        let ghost u = user;
        let payload = JwtPaylaod { email: user.email, sub: user.id };
        assert(payload == payload_of(u));
        match create_jwt(payload, secret) {
            Ok(t) => Ok(answer(t)),
            Err(_) => Err(token_failure()),
        }
    }

    /// Registers a user: the values to insert, with the password hashed.
    pub fn register(dto: UserCreateDto) -> (res: Result<NewUser, AppError>)
        ensures
            res matches Ok(u) ==> u.name@ == dto.name@ && u.email@ == dto.email@
                && password_matches(u.password@, dto.password@) && is_cost12_hash(u.password@),
            res matches Err(e) ==> e matches AppError::InternalServerError(m) && m@ == "Failed to hash password"@,
    {
        UserRepository::create(dto)
    }
}

} // verus!
