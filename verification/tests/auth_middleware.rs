use account_auth::auth::create_jwt;
use account_auth::auth::create_jwt_at;
use account_auth::auth_middleware::attach_claims;
use account_auth::auth_middleware::bearer_token;
use account_auth::auth_middleware::check_auth_middleware;
use account_auth::auth_middleware::check_auth_middleware_at;
use account_auth::auth_middleware::downstream_failure;
use account_auth::auth::Claims;
use account_auth::auth::TokenError;
use account_auth::models::User;

const GUARD_SECRET: &str = "guard-secret";

fn admin() -> User {
    User {
        id: 7,
        name: String::from("Root"),
        email: String::from("root@x.com"),
        role: String::from("admin"),
        password: String::new(),
    }
}

#[test]
fn bearer_token_takes_what_follows_the_prefix() {
    assert_eq!(bearer_token("Bearer abc.def.ghi"), Some("abc.def.ghi"));
    assert_eq!(bearer_token("  Bearer abc  "), Some("abc"));
    assert_eq!(bearer_token("Bearer    abc"), Some("abc"));
    assert_eq!(bearer_token("Bearer a b"), Some("a b"));
    assert_eq!(bearer_token("\tBearer \u{a0}abc\r\n"), Some("abc"));
}

#[test]
fn bearer_token_takes_one_prefix_only() {
    assert_eq!(bearer_token("Bearer Bearer abc"), Some("Bearer abc"));
    assert_eq!(bearer_token("Bearer Bearer Bearer x"), Some("Bearer Bearer x"));
    assert_eq!(bearer_token("Bearer Bearer"), Some("Bearer"));
    assert_eq!(bearer_token("Bearer  Bearer abc"), Some("Bearer abc"));
    assert_eq!(bearer_token("Bearer Bearer "), Some("Bearer"));
}

#[test]
fn bearer_token_wants_the_exact_prefix() {
    for header in ["", " ", "Bearer", "Bearer ", "  Bearer  ", "bearer abc", "BEARER abc", "Bearerabc", "Basic abc", "abc", "Token Bearer abc", "Bearer\tabc"] {
        assert_eq!(bearer_token(header), None, "{:?}", header);
    }
}

#[test]
fn bearer_token_agrees_with_the_standard_library() {
    for header in [
        "Bearer abc",
        " Bearer  a ",
        "Bearer Bearer ",
        "Bearer Bearer  Bearer z ",
        "x",
        "Bearer \u{3000}t\u{3000}",
        "BearerBearer x",
        "Bearer",
        "",
    ] {
        let expected = header.trim().strip_prefix("Bearer ").map(str::trim);
        assert_eq!(bearer_token(header), expected, "{:?}", header);
    }
}

#[test]
fn a_repeated_prefix_before_a_valid_token_is_unauthenticated() {
    let token = create_jwt_at(&admin(), GUARD_SECRET, 1000).unwrap();
    let plain = format!("Bearer {}", token);
    assert!(check_auth_middleware_at(Some(plain.as_str()), GUARD_SECRET, 1000).is_ok());
    let doubled = format!("Bearer Bearer {}", token);
    let reply = check_auth_middleware_at(Some(doubled.as_str()), GUARD_SECRET, 1000).unwrap_err();
    assert_eq!(reply.status_code, 401);
    assert_eq!(reply.body, "Invalid or expired token");
}

#[test]
fn a_call_without_a_header_is_unauthenticated() {
    let reply = check_auth_middleware_at(None, GUARD_SECRET, 0).unwrap_err();
    assert_eq!(reply.status_code, 401);
    assert_eq!(reply.body, "Unauthorized");
    let reply = check_auth_middleware(None, GUARD_SECRET).unwrap_err();
    assert_eq!(reply.status_code, 401);
    assert_eq!(reply.body, "Unauthorized");
}

#[test]
fn a_header_of_another_shape_is_unauthenticated() {
    for header in ["", "abc", "Basic abc", "bearer abc", "Bearer"] {
        let reply = check_auth_middleware_at(Some(header), GUARD_SECRET, 0).unwrap_err();
        assert_eq!(reply.status_code, 401);
        assert_eq!(reply.body, "Invalid token format");
        let reply = check_auth_middleware(Some(header), GUARD_SECRET).unwrap_err();
        assert_eq!(reply.status_code, 401);
        assert_eq!(reply.body, "Invalid token format");
    }
}

#[test]
fn a_rejected_token_is_unauthenticated_whatever_the_reason() {
    let token = create_jwt_at(&admin(), GUARD_SECRET, 1000).unwrap();
    let expired = format!("Bearer {}", token);
    let forged = format!("Bearer {}", create_jwt_at(&admin(), "other", 1000).unwrap());
    for (header, now) in [(expired.as_str(), 4600i64), (forged.as_str(), 1000), ("Bearer not-a-token", 1000)] {
        let reply = check_auth_middleware_at(Some(header), GUARD_SECRET, now).unwrap_err();
        assert_eq!(reply.status_code, 401);
        assert_eq!(reply.body, "Invalid or expired token");
    }
    let reply = check_auth_middleware(Some(expired.as_str()), GUARD_SECRET).unwrap_err();
    assert_eq!(reply.status_code, 401);
    assert_eq!(reply.body, "Invalid or expired token");
}

#[test]
fn a_valid_token_yields_its_claim() {
    let token = create_jwt_at(&admin(), GUARD_SECRET, 1000).unwrap();
    let header = format!("  Bearer {} ", token);
    let claims = check_auth_middleware_at(Some(header.as_str()), GUARD_SECRET, 4599).unwrap();
    assert_eq!(claims.sub, "root@x.com");
    assert_eq!(claims.role, "admin");
    assert_eq!(claims.exp, 4600);
}

#[test]
fn a_fresh_token_passes_the_guard_by_the_clock() {
    let header = format!("Bearer {}", create_jwt(&admin(), GUARD_SECRET).unwrap());
    let claims = check_auth_middleware(Some(header.as_str()), GUARD_SECRET).unwrap();
    assert_eq!(claims.sub, "root@x.com");
    assert_eq!(claims.role, "admin");
}

#[test]
fn attach_claims_hands_the_claim_on() {
    let claims = Claims { sub: String::from("a"), role: String::from("user"), exp: 9 };
    let attached = attach_claims(Ok(claims)).unwrap();
    assert_eq!(attached.sub, "a");
    assert_eq!(attached.role, "user");
    assert_eq!(attached.exp, 9);
    for error in [TokenError::Malformed, TokenError::BadSignature, TokenError::Expired] {
        let reply = attach_claims(Err(error)).unwrap_err();
        assert_eq!(reply.status_code, 401);
        assert_eq!(reply.body, "Invalid or expired token");
    }
}

#[test]
fn a_failed_operation_is_an_internal_error() {
    let reply = downstream_failure(String::from("Json deserialize error"));
    assert_eq!(reply.status_code, 500);
    assert_eq!(reply.body, "Json deserialize error");
}
