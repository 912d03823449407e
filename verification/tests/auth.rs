use todo_backend::domains::auth::graphql::AuthMutation;
use todo_backend::errors::AppError;
use todo_backend::routes::auth::{token_without_bearer, AuthUser as RouteAuthUser};
use todo_backend::utils::authuser::{bearer_token, require_user, AuthUser};
use todo_backend::utils::jwt::{new_claims, Claims, MAX_TIMESTAMP, TOKEN_LIFETIME_SECS};

#[test]
fn bearer_token_takes_what_follows_the_prefix() {
    assert_eq!(bearer_token("Bearer abc.def.ghi"), Some("abc.def.ghi"));
    assert_eq!(bearer_token("Bearer "), Some(""));
    assert_eq!(bearer_token("Bearer Bearer x"), Some("Bearer x"));
}

#[test]
fn bearer_token_rejects_other_schemes() {
    assert_eq!(bearer_token("bearer abc"), None);
    assert_eq!(bearer_token("Basic abc"), None);
    assert_eq!(bearer_token("Bearer"), None);
    assert_eq!(bearer_token(""), None);
    assert_eq!(bearer_token(" Bearer abc"), None);
}

#[test]
fn bearer_token_handles_non_ascii() {
    assert_eq!(bearer_token("Bearer é✓"), Some("é✓"));
    assert_eq!(bearer_token("Béarer x"), None);
}

#[test]
fn token_from_header_decisions() {
    assert!(matches!(AuthUser::token_from_header(None), Err(AppError::Unauthorized)));
    assert!(matches!(AuthUser::token_from_header(Some("Token x")), Err(AppError::Unauthorized)));
    assert_eq!(AuthUser::token_from_header(Some("Bearer x")).ok(), Some("x"));
}

#[test]
fn auth_user_from_claims() {
    let claims = Claims { sub: 42, exp: 10 };
    assert_eq!(AuthUser::from_claims(Some(claims)).ok(), Some(AuthUser { id: 42 }));
    assert!(matches!(AuthUser::from_claims(None), Err(AppError::Unauthorized)));
}

#[test]
fn route_extractor_removes_every_bearer() {
    assert_eq!(token_without_bearer("Bearer abc"), "abc");
    assert_eq!(token_without_bearer("abc"), "abc");
    assert_eq!(token_without_bearer("Bearer Bearer abc"), "abc");
    assert_eq!(token_without_bearer("xBearer yBearer "), "xy");
    assert_eq!(token_without_bearer("BearerBearer z"), "Bearerz");
    assert_eq!(token_without_bearer(""), "");
    for s in ["Bearer abc", "aBearer b", "BeBearer r ", "Bearer", "é Bearer ü"] {
        assert_eq!(token_without_bearer(s), s.replace("Bearer ", ""));
    }
}

#[test]
fn route_extractor_decisions() {
    assert!(matches!(RouteAuthUser::from_request_parts(false, None), Err(AppError::Unauthorized)));
    assert!(matches!(
        RouteAuthUser::from_request_parts(false, Some(Claims { sub: 1, exp: 2 })),
        Err(AppError::Unauthorized)
    ));
    assert!(matches!(RouteAuthUser::from_request_parts(true, None), Err(AppError::Authorization)));
    let user = RouteAuthUser::from_request_parts(true, Some(Claims { sub: 5, exp: 2 })).ok().unwrap();
    assert_eq!(user.id, 5);
}

#[test]
fn claims_expire_seven_days_later() {
    let c = new_claims(99, 1_700_000_000);
    assert_eq!(c.sub, 99);
    assert_eq!(c.exp, 1_700_604_800);
    assert_eq!(TOKEN_LIFETIME_SECS, 7 * 24 * 3600);
}

#[test]
fn claims_at_the_last_representable_time() {
    let c = new_claims(1, MAX_TIMESTAMP - TOKEN_LIFETIME_SECS);
    assert_eq!(c.exp as i64, MAX_TIMESTAMP);
    let max = chrono::DateTime::<chrono::Utc>::MAX_UTC.timestamp();
    assert_eq!(max, MAX_TIMESTAMP);
}

#[test]
fn claims_before_the_epoch_wrap() {
    let c = new_claims(1, -1_000_000);
    assert_eq!(c.exp, (-1_000_000i64 + 604_800) as usize);
}

#[test]
fn require_user_messages() {
    let u = AuthUser { id: 3 };
    assert_eq!(require_user(Some(&u), "Unauthorized").ok(), Some(3));
    assert_eq!(require_user(None, "Unauthorized: Please log in").err().unwrap().message, "Unauthorized: Please log in");
}

#[test]
fn login_decisions() {
    let m = AuthMutation;
    assert_eq!(m.login(Some(8), Ok(true)).ok(), Some(8));
    assert_eq!(m.login(None, Ok(true)).err().unwrap().message, "Invalid credentials");
    assert_eq!(m.login(Some(8), Ok(false)).err().unwrap().message, "Invalid credentials");
    assert_eq!(
        m.login(Some(8), Err("bad hash".to_string())).err().unwrap().message,
        "Password verification error: bad hash"
    );
}

#[test]
fn registration_hash_decisions() {
    let m = AuthMutation;
    assert_eq!(m.stored_hash(Ok("$argon2id$x".to_string())).ok().unwrap(), "$argon2id$x");
    assert_eq!(
        m.stored_hash(Err("salt".to_string())).err().unwrap().message,
        "Failed to hash password: salt"
    );
}

#[test]
fn new_user_ids_are_random_v4() {
    let m = AuthMutation;
    let a = m.new_user_id();
    let b = m.new_user_id();
    assert_ne!(a, b);
    assert_eq!(uuid::Uuid::from_u128(a).get_version_num(), 4);
}

#[test]
fn extractors_agree_on_bearer_headers() {
    for token in ["abc", "eyJhbGciOiJIUzI1NiJ9.e30.sig", "", "Bearer"] {
        let header = format!("Bearer {}", token);
        assert_eq!(bearer_token(&header), Some(token));
        assert_eq!(token_without_bearer(&header), token);
    }
}
