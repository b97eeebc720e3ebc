use lifx_api_server::auth::{
    authenticate_elevated_request, authenticate_locked, authenticate_request,
    authenticate_request_at, check_elevated, AuthResult, Denial,
};
use lifx_api_server::rate_limit::{
    check_and_update_locked, check_config_change_locked, RateLimiter, MAX_AUTH_ATTEMPTS,
    MAX_CONFIG_CHANGES,
};

const SECRET: &str = "test_secret";

fn client() -> String {
    "192.168.1.50".to_string()
}

#[test]
fn test_missing_auth_header() {
    let mut limiter = RateLimiter::new();
    let verdict = authenticate_request(None, client(), SECRET, &mut limiter);
    assert_eq!(verdict, AuthResult::Unauthorized(Denial::MissingHeader));
    assert_eq!(Denial::MissingHeader.status(), 401);
    assert_eq!(Denial::MissingHeader.message(), "Unauthorized: Missing Authorization header");
    let (name, value) = Denial::MissingHeader.header().unwrap();
    assert_eq!(name, "WWW-Authenticate");
    assert_eq!(value, "Bearer realm=\"LIFX API\"");
}

#[test]
fn test_invalid_token() {
    let mut limiter = RateLimiter::new();
    let verdict =
        authenticate_request(Some("Bearer wrong_token"), client(), SECRET, &mut limiter);
    assert_eq!(verdict, AuthResult::Unauthorized(Denial::InvalidToken));
    assert_eq!(Denial::InvalidToken.status(), 401);
    assert_eq!(Denial::InvalidToken.message(), "Unauthorized: Invalid token");
}

#[test]
fn test_valid_token() {
    let mut limiter = RateLimiter::new();
    for _ in 0..20 {
        let verdict =
            authenticate_request(Some("Bearer test_secret"), client(), SECRET, &mut limiter);
        assert_eq!(verdict, AuthResult::Authorized);
    }
    let verdict = authenticate_request(Some("Bearer nope"), client(), SECRET, &mut limiter);
    assert_eq!(verdict, AuthResult::Unauthorized(Denial::InvalidToken));
}

#[test]
fn test_rate_limiting() {
    let mut limiter = RateLimiter::new();
    for _ in 0..MAX_AUTH_ATTEMPTS {
        let verdict =
            authenticate_request_at(Some("Bearer wrong"), client(), SECRET, &mut limiter, 1_000);
        assert_eq!(verdict, AuthResult::Unauthorized(Denial::InvalidToken));
    }
    let verdict =
        authenticate_request_at(Some("Bearer wrong"), client(), SECRET, &mut limiter, 2_000);
    assert_eq!(verdict, AuthResult::Unauthorized(Denial::TooManyAttempts));
    assert_eq!(Denial::TooManyAttempts.status(), 429);
    assert_eq!(
        Denial::TooManyAttempts.message(),
        "Too many authentication attempts. Please try again later."
    );
    let (name, value) = Denial::TooManyAttempts.header().unwrap();
    assert_eq!(name, "Retry-After");
    assert_eq!(value, "60");

    let other =
        authenticate_request_at(None, "10.0.0.9".to_string(), SECRET, &mut limiter, 2_000);
    assert_eq!(other, AuthResult::Unauthorized(Denial::MissingHeader));

    let valid =
        authenticate_request_at(Some("Bearer test_secret"), client(), SECRET, &mut limiter, 2_000);
    assert_eq!(valid, AuthResult::Authorized);

    let later =
        authenticate_request_at(Some("Bearer wrong"), client(), SECRET, &mut limiter, 61_001);
    assert_eq!(later, AuthResult::Unauthorized(Denial::InvalidToken));
}

#[test]
fn test_malformed_auth_header() {
    let malformed = [
        "Bearer",
        "Bearer ",
        "Basic dGVzdDp0ZXN0",
        "test_secret",
        "bearer test_secret",
        "Bearer  test_secret",
        "Bearer test_secret ",
        " Bearer test_secret",
        "Bearer test_secre",
        "",
    ];
    for (i, header) in malformed.iter().enumerate() {
        let mut limiter = RateLimiter::new();
        let verdict =
            authenticate_request(Some(header), format!("10.0.0.{}", i), SECRET, &mut limiter);
        assert_eq!(verdict, AuthResult::Unauthorized(Denial::InvalidToken), "header {:?}", header);
    }
}

#[test]
fn test_elevated_token_is_required_for_destructive_operations() {
    let mut limiter = RateLimiter::new();
    let ok = authenticate_elevated_request(
        Some("Bearer test_secret"),
        Some("ELEVATED-abc"),
        client(),
        SECRET,
        &mut limiter,
    );
    assert_eq!(ok, AuthResult::Authorized);

    let missing = authenticate_elevated_request(
        Some("Bearer test_secret"),
        None,
        client(),
        SECRET,
        &mut limiter,
    );
    assert_eq!(missing, AuthResult::Unauthorized(Denial::ElevatedMissing));
    assert_eq!(Denial::ElevatedMissing.status(), 403);
    assert!(Denial::ElevatedMissing.header().is_none());

    assert_eq!(check_elevated(Some("ELEVATED-")), AuthResult::Unauthorized(Denial::ElevatedRejected));
    assert_eq!(check_elevated(Some("elevated-abc")), AuthResult::Unauthorized(Denial::ElevatedRejected));
    assert_eq!(check_elevated(Some("ELEVATED-x")), AuthResult::Authorized);
    assert_eq!(Denial::ElevatedRejected.status(), 403);
    assert_eq!(
        Denial::ElevatedRejected.message(),
        "Elevated permissions required for this operation"
    );

    let unauthenticated = authenticate_elevated_request(
        Some("Bearer wrong"),
        Some("ELEVATED-abc"),
        client(),
        SECRET,
        &mut limiter,
    );
    assert_eq!(unauthenticated, AuthResult::Unauthorized(Denial::InvalidToken));
}

#[test]
fn test_auth_result_enum() {
    let unauth = AuthResult::Unauthorized(Denial::InvalidToken);
    match unauth {
        AuthResult::Unauthorized(_) => assert!(true),
        AuthResult::Authorized => assert!(false, "Should be unauthorized"),
    }

    let auth = AuthResult::Authorized;
    match auth {
        AuthResult::Authorized => assert!(true),
        AuthResult::Unauthorized(_) => assert!(false, "Should be authorized"),
    }
}

#[test]
fn test_without_the_lock_only_the_credential_admits() {
    let header = format!("Bearer {}", SECRET);
    assert_eq!(
        authenticate_locked(None, None, client(), SECRET),
        AuthResult::Unauthorized(Denial::TooManyAttempts)
    );
    assert_eq!(
        authenticate_locked(None, Some("Bearer wrong"), client(), SECRET),
        AuthResult::Unauthorized(Denial::TooManyAttempts)
    );
    assert_eq!(
        authenticate_locked(None, Some("test_secret"), client(), SECRET),
        AuthResult::Unauthorized(Denial::TooManyAttempts)
    );
    assert_eq!(authenticate_locked(None, Some(&header), client(), SECRET), AuthResult::Authorized);
    assert!(!check_config_change_locked(None, client()));
    assert!(!check_and_update_locked(None, client()));
}

#[test]
fn test_behind_a_lock_the_limiter_decides() {
    let mut limiter = RateLimiter::new();
    let header = format!("Bearer {}", SECRET);
    assert_eq!(
        authenticate_locked(Some(&mut limiter), Some(&header), client(), SECRET),
        AuthResult::Authorized
    );
    assert_eq!(
        authenticate_locked(Some(&mut limiter), None, client(), SECRET),
        AuthResult::Unauthorized(Denial::MissingHeader)
    );
    assert_eq!(
        authenticate_locked(Some(&mut limiter), Some("Bearer wrong"), client(), SECRET),
        AuthResult::Unauthorized(Denial::InvalidToken)
    );
    let mut strict = RateLimiter::new();
    for _ in 0..MAX_AUTH_ATTEMPTS {
        assert_eq!(
            authenticate_locked(Some(&mut strict), Some("Bearer wrong"), client(), SECRET),
            AuthResult::Unauthorized(Denial::InvalidToken)
        );
    }
    assert_eq!(
        authenticate_locked(Some(&mut strict), Some("Bearer wrong"), client(), SECRET),
        AuthResult::Unauthorized(Denial::TooManyAttempts)
    );
    let mut fresh = RateLimiter::new();
    for _ in 0..MAX_CONFIG_CHANGES {
        assert!(check_config_change_locked(Some(&mut fresh), client()));
    }
    assert!(!check_config_change_locked(Some(&mut fresh), client()));
    for _ in 0..MAX_AUTH_ATTEMPTS {
        assert!(check_and_update_locked(Some(&mut fresh), client()));
    }
    assert!(!check_and_update_locked(Some(&mut fresh), client()));
    assert!(check_and_update_locked(Some(&mut fresh), "10.1.1.1".to_string()));
}
