use gamehub_auth::claims::Claims;
use gamehub_auth::error::AuthError;
use gamehub_auth::middleware::{
    check_role, extract_token_from_request, get_user_from_request, AuthMiddleware, GuardState,
    RequestContext,
};
use gamehub_auth::token::encode;

const SECRET: &[u8] = b"guard-secret";
const NOW: i64 = 1_700_000_000;

fn token_for(role: &str) -> String {
    let c = Claims {
        sub: "6f1c2a9e-3b1d-4c52-9a77-0d1e2f3a4b5c".to_string(),
        email: "a@x.com".to_string(),
        role: role.to_string(),
        exp: 1_800_000_000,
    };
    encode(&c, SECRET).unwrap()
}

#[test]
fn bearer_prefix_is_required() {
    assert_eq!(extract_token_from_request("Bearer abc"), Some("abc".to_string()));
    assert_eq!(extract_token_from_request("Bearer "), Some("".to_string()));
    assert_eq!(extract_token_from_request("Bearer"), None);
    assert_eq!(extract_token_from_request("bearer abc"), None);
    assert_eq!(extract_token_from_request("Basic abc"), None);
    assert_eq!(extract_token_from_request(""), None);
}

#[test]
fn missing_or_malformed_header_is_missing_token() {
    let guard = AuthMiddleware::new().new_transform(SECRET.to_vec());
    assert_eq!(guard.call(None, NOW).unwrap_err(), AuthError::MissingToken);
    assert_eq!(guard.call(Some("Token abc"), NOW).unwrap_err(), AuthError::MissingToken);
}

#[test]
fn bad_token_is_invalid_token() {
    let guard = AuthMiddleware::new().new_transform(SECRET.to_vec());
    assert_eq!(guard.call(Some("Bearer nonsense"), NOW).unwrap_err(), AuthError::InvalidToken);
    let other = AuthMiddleware::new().new_transform(b"another".to_vec());
    let header = format!("Bearer {}", token_for("admin"));
    assert_eq!(other.call(Some(&header), NOW).unwrap_err(), AuthError::InvalidToken);
    assert_eq!(guard.call(Some(&header), 1_800_000_000).unwrap_err(), AuthError::InvalidToken);
}

#[test]
fn role_guard_admits_and_forbids() {
    let header = format!("Bearer {}", token_for("creator"));
    let open = AuthMiddleware::new().new_transform(SECRET.to_vec());
    let games = AuthMiddleware::with_role("creator".to_string()).new_transform(SECRET.to_vec());
    let admin = AuthMiddleware::with_role("admin".to_string()).new_transform(SECRET.to_vec());
    let shouting = AuthMiddleware::with_role("Creator".to_string()).new_transform(SECRET.to_vec());
    let ctx = open.call(Some(&header), NOW).unwrap();
    assert_eq!(ctx.claims.as_ref().unwrap().role, "creator");
    let ctx = games.call(Some(&header), NOW).unwrap();
    assert_eq!(ctx.claims.as_ref().unwrap().email, "a@x.com");
    assert_eq!(admin.call(Some(&header), NOW).unwrap_err(), AuthError::Forbidden);
    assert_eq!(shouting.call(Some(&header), NOW).unwrap_err(), AuthError::Forbidden);
}

#[test]
fn middleware_builders_keep_the_role() {
    assert!(AuthMiddleware::new().required_role.is_none());
    assert_eq!(AuthMiddleware::with_role("admin".to_string()).required_role, Some("admin".to_string()));
    let svc = AuthMiddleware::with_role("admin".to_string()).new_transform(vec![1, 2]);
    assert_eq!(svc.required_role, Some("admin".to_string()));
    assert_eq!(svc.secret, vec![1, 2]);
}

#[test]
fn role_check_is_exact() {
    let c = Claims { sub: "s".to_string(), email: "e".to_string(), role: "admin".to_string(), exp: 1 };
    assert_eq!(check_role(&None, &c), Ok(()));
    assert_eq!(check_role(&Some("admin".to_string()), &c), Ok(()));
    assert_eq!(check_role(&Some("admin ".to_string()), &c), Err(AuthError::Forbidden));
}

#[test]
fn context_without_claims_is_missing_context() {
    let ctx = RequestContext::empty();
    assert_eq!(get_user_from_request(&ctx).unwrap_err(), AuthError::MissingContext);
    let header = format!("Bearer {}", token_for("admin"));
    let guard = AuthMiddleware::new().new_transform(SECRET.to_vec());
    let ctx = guard.call(Some(&header), NOW).unwrap();
    assert_eq!(get_user_from_request(&ctx).unwrap().role, "admin");
}

#[test]
fn error_messages() {
    assert_eq!(AuthError::MissingToken.message(), "No token provided");
    assert_eq!(AuthError::Forbidden.message(), "Insufficient permissions");
    assert_eq!(AuthError::InvalidCredentials.message(), "Invalid email or password");
}

#[test]
fn guard_moves_through_its_states() {
    let header = format!("Bearer {}", token_for("creator"));
    let svc = AuthMiddleware::with_role("creator".to_string()).new_transform(SECRET.to_vec());
    let s = svc.step(GuardState::Unauthenticated, Some(&header), NOW);
    assert!(matches!(&s, GuardState::TokenExtracted { token } if *token == token_for("creator")));
    let s = svc.step(s, Some(&header), NOW);
    assert!(matches!(&s, GuardState::ClaimsAttached { ctx } if ctx.claims.as_ref().unwrap().role == "creator"));
    let s = svc.step(s, Some(&header), NOW);
    assert!(matches!(&s, GuardState::Admitted { .. }));
    let s = svc.step(s, Some(&header), NOW);
    assert!(matches!(&s, GuardState::Admitted { .. }));
    let r = svc.step(GuardState::Unauthenticated, None, NOW);
    assert!(matches!(r, GuardState::Rejected { error: AuthError::MissingToken }));
    let r = svc.step(GuardState::ClaimsAttached { ctx: RequestContext::empty() }, None, NOW);
    assert!(matches!(r, GuardState::Rejected { error: AuthError::MissingContext }));
    let admin = AuthMiddleware::with_role("admin".to_string()).new_transform(SECRET.to_vec());
    let s = admin.step(GuardState::TokenExtracted { token: token_for("creator") }, None, NOW);
    let r = admin.step(s, None, NOW);
    assert!(matches!(r, GuardState::Rejected { error: AuthError::Forbidden }));
}
