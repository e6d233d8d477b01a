use axum_todo::error::AppError;
use axum_todo::modules::auth::dto::LoginUserDto;
use axum_todo::modules::auth::guard::{authorize, bearer_token};
use axum_todo::modules::auth::jwt::{
    claims_document, create_jwt, create_jwt_at, verify_jwt, verify_jwt_at, Claims, JwtPaylaod,
};
use axum_todo::modules::auth::service::AuthService;
use axum_todo::modules::user::dto::{UserCreateDto, UserItemWithPassword};
use axum_todo::modules::user::password::{hash_password, verify_passwrod};

const SECRET: &str = "test-secret";
const USER_ID: u128 = 0x67e5_5044_10b1_426f_9247_bb68_0e5f_e0c8;

fn payload() -> JwtPaylaod {
    JwtPaylaod { sub: USER_ID, email: String::from("ada@example.com") }
}

fn secret() -> Option<String> {
    Some(String::from(SECRET))
}

#[test]
fn claims_document_is_the_json_of_the_claims() {
    let claims = Claims { sub: USER_ID, exp: 1_700_086_400, iat: 1_700_000_000, email: String::from("a\"b@example.com") };
    let doc = claims_document(&claims);
    assert_eq!(
        doc,
        "{\"sub\":\"67e55044-10b1-426f-9247-bb680e5fe0c8\",\"exp\":1700086400,\"iat\":1700000000,\"email\":\"a\\\"b@example.com\"}"
    );
    let parsed: serde_json::Value = serde_json::from_str(&doc).unwrap();
    assert_eq!(parsed["sub"], "67e55044-10b1-426f-9247-bb680e5fe0c8");
    assert_eq!(parsed["exp"], 1_700_086_400u64);
    assert_eq!(parsed["iat"], 1_700_000_000u64);
    assert_eq!(parsed["email"], "a\"b@example.com");
}

#[test]
fn issued_token_opens_to_its_claims() {
    let now: i64 = 1_700_000_000;
    let token = create_jwt_at(payload(), SECRET, now).unwrap();
    assert_eq!(token.split('.').count(), 3);
    let doc = verify_jwt_at(&token, SECRET, 1_700_000_000).unwrap();
    let expected = Claims { sub: USER_ID, exp: 1_700_086_400, iat: 1_700_000_000, email: String::from("ada@example.com") };
    assert_eq!(doc, claims_document(&expected));
}

#[test]
fn issued_token_is_a_standard_hs256_token() {
    let now: i64 = 1_700_000_000;
    let token = create_jwt_at(payload(), SECRET, now).unwrap();
    let header = jsonwebtoken::decode_header(&token).unwrap();
    assert_eq!(header.alg, jsonwebtoken::Algorithm::HS256);
}

#[test]
fn token_is_refused_with_another_secret() {
    let token = create_jwt_at(payload(), SECRET, 1_700_000_000).unwrap();
    match verify_jwt(&token, Some(String::from("other-secret"))) {
        Err(AppError::Config(m)) => assert!(m.starts_with("JWT encoding failed: ")),
        other => panic!("unexpected {:?}", other),
    }
}

#[test]
fn tampered_token_is_refused() {
    let token = create_jwt_at(payload(), SECRET, 1_700_000_000).unwrap();
    let mut tampered = token.clone();
    tampered.push('x');
    assert!(matches!(verify_jwt(&tampered, secret()), Err(AppError::Config(_))));
    assert!(matches!(verify_jwt("not-a-token", secret()), Err(AppError::Config(_))));
}

#[test]
fn missing_secret_is_a_configuration_error() {
    assert_eq!(
        create_jwt(payload(), None),
        Err(AppError::Config(String::from("JWT_SECRET must be set in .env")))
    );
    assert_eq!(
        verify_jwt("a.b.c", None),
        Err(AppError::Config(String::from("JWT_SECRET must be set in .env")))
    );
}

#[test]
fn token_issued_now_is_valid_for_a_day() {
    let token = create_jwt(payload(), secret()).unwrap();
    let doc = verify_jwt(&token, secret()).unwrap();
    let parsed: serde_json::Value = serde_json::from_str(&doc).unwrap();
    let exp = parsed["exp"].as_u64().unwrap();
    let iat = parsed["iat"].as_u64().unwrap();
    assert_eq!(exp - iat, 86400);
    assert_eq!(parsed["email"], "ada@example.com");
}

#[test]
fn expiry_allows_a_minute_of_leeway() {
    let now: i64 = 1_700_000_000;
    let token = create_jwt_at(payload(), SECRET, now).unwrap();
    let exp: u64 = 1_700_086_400;
    let doc = verify_jwt_at(&token, SECRET, 1_700_000_000).unwrap();
    assert_eq!(verify_jwt_at(&token, SECRET, exp), Ok(doc.clone()));
    assert_eq!(verify_jwt_at(&token, SECRET, exp + 60), Ok(doc.clone()));
    assert_eq!(
        verify_jwt_at(&token, SECRET, exp + 61),
        Err(AppError::Config(String::from("JWT encoding failed: ExpiredSignature")))
    );
    assert_eq!(verify_jwt_at(&token, SECRET, 30), Ok(doc));
}

#[test]
fn expired_token_is_refused_against_the_clock() {
    let token = create_jwt_at(payload(), SECRET, 1000).unwrap();
    assert_eq!(
        verify_jwt(&token, secret()),
        Err(AppError::Config(String::from("JWT encoding failed: ExpiredSignature")))
    );
}

#[test]
fn token_without_whole_number_expiry_is_refused() {
    let header = jsonwebtoken::Header::default();
    let key = jsonwebtoken::EncodingKey::from_secret(SECRET.as_bytes());
    let mut claims = serde_json::Map::new();
    claims.insert(String::from("exp"), serde_json::Value::from(1.0e12));
    let token = jsonwebtoken::encode(&header, &claims, &key).unwrap();
    assert_eq!(
        verify_jwt_at(&token, SECRET, 1_700_000_000),
        Err(AppError::Config(String::from("JWT encoding failed: Invalid format for claim: exp")))
    );
}

#[test]
fn bearer_token_takes_what_follows_the_scheme() {
    assert_eq!(bearer_token(Some("Bearer abc.def.ghi")), Ok("abc.def.ghi"));
    assert_eq!(bearer_token(Some("Bearer ")), Ok(""));
    let refused = Err(AppError::Unauthorized(String::from("Unauthorized")));
    assert_eq!(bearer_token(Some("bearer abc")), refused);
    assert_eq!(bearer_token(Some("Basic abc")), refused);
    assert_eq!(bearer_token(Some("Bearer")), refused);
    assert_eq!(bearer_token(None), refused);
}

#[test]
fn guard_answers_every_refusal_with_unauthorized() {
    let refused: Result<u8, AppError> = Err(AppError::Unauthorized(String::from("Unauthorized")));
    assert_eq!(authorize::<u8>(Ok(3)), Ok(3));
    assert_eq!(authorize::<u8>(Err(AppError::Config(String::from("JWT encoding failed: x")))), refused);
    assert_eq!(authorize::<u8>(Err(AppError::NotFound(String::from("gone")))), refused);
}

#[test]
fn stored_hash_accepts_only_its_password() {
    let hash = hash_password("correct horse").unwrap();
    assert_eq!(hash.len(), 60);
    assert!(hash.starts_with("$2b$12$"));
    assert_ne!(hash, "correct horse");
    assert!(verify_passwrod(&hash, "correct horse"));
    assert!(!verify_passwrod(&hash, "correct horsf"));
    assert!(!verify_passwrod("not a bcrypt hash", "correct horse"));
}

fn stored_user(password: &str) -> UserItemWithPassword {
    UserItemWithPassword {
        id: USER_ID,
        name: String::from("Ada"),
        email: String::from("ada@example.com"),
        password: hash_password(password).unwrap(),
    }
}

fn login_dto(password: &str) -> LoginUserDto {
    LoginUserDto { email: String::from("ada@example.com"), password: String::from(password) }
}

#[test]
fn login_refuses_unknown_user_and_wrong_password_alike() {
    let bad = Err(AppError::BadRequest(String::from("Invalid Login credenditals")));
    let unknown = AuthService::login_at(
        Err(AppError::NotFound(String::from("User not found"))),
        login_dto("whatever1"),
        secret(),
        1_700_000_000,
    );
    assert_eq!(unknown, bad);
    let wrong = AuthService::login_at(Ok(stored_user("password1")), login_dto("password2"), secret(), 1_700_000_000);
    assert_eq!(wrong, bad);
}

#[test]
fn login_answers_with_a_token_for_the_user() {
    let res = AuthService::login_at(Ok(stored_user("password1")), login_dto("password1"), secret(), 1_700_000_000).unwrap();
    assert_eq!(res.refresh_token, "_");
    assert_eq!(res.acess_token, create_jwt_at(payload(), SECRET, 1_700_000_000).unwrap());
    let doc = verify_jwt_at(&res.acess_token, SECRET, 1_700_000_000).unwrap();
    let parsed: serde_json::Value = serde_json::from_str(&doc).unwrap();
    assert_eq!(parsed["sub"], uuid::Uuid::from_u128(USER_ID).to_string());
}

#[test]
fn login_without_secret_cannot_make_a_token() {
    let res = AuthService::login_at(Ok(stored_user("password1")), login_dto("password1"), None, 1_700_000_000);
    assert_eq!(res, Err(AppError::InternalServerError(String::from("Access token generation failed!"))));
    let res_now = AuthService::login(Ok(stored_user("password1")), login_dto("password1"), None);
    assert_eq!(res_now, Err(AppError::InternalServerError(String::from("Access token generation failed!"))));
}

#[test]
fn login_now_gives_a_token_that_opens() {
    let res = AuthService::login(Ok(stored_user("password1")), login_dto("password1"), secret()).unwrap();
    assert_eq!(res.refresh_token, "_");
    assert!(verify_jwt(&res.acess_token, secret()).is_ok());
}

#[test]
fn register_stores_a_hash_of_the_password() {
    let dto = UserCreateDto {
        name: String::from("Ada"),
        email: String::from("ada@example.com"),
        password: String::from("password1"),
    };
    let user = AuthService::register(dto).unwrap();
    assert_eq!(user.name, "Ada");
    assert_eq!(user.email, "ada@example.com");
    assert_ne!(user.password, "password1");
    assert!(verify_passwrod(&user.password, "password1"));
}
