use conduit::app_error::AppError;
use conduit::config::{AppConfig, AppContext, DatabaseConfig, JwtConfig};
use conduit::extractor::{resolve_optional, resolve_required, AuthUser, JWT_EXPIRES_IN};

fn ctx() -> AppContext {
    AppContext {
        config: AppConfig {
            port: 8080,
            log_level: String::from("info"),
            db: DatabaseConfig { url: String::new() },
            jwt: JwtConfig { secret: String::from("a-test-signing-secret"), exp_in_sec: 604800 },
        },
    }
}

fn header_for(token: &str) -> String {
    format!("Token {}", token)
}

#[test]
fn issue_then_validate_within_window() {
    let ctx = ctx();
    let au = AuthUser { user_id: 42 };
    let t0: i64 = 1_000_000;
    let token = au.to_jwt(&ctx, t0);
    let header = header_for(&token);
    let got = AuthUser::from_authorization(&ctx, &header, t0).expect("valid at issuance");
    assert_eq!(got.user_id, 42);
    let got = AuthUser::from_authorization(&ctx, &header, t0 + JWT_EXPIRES_IN - 1)
        .expect("valid just before expiration");
    assert_eq!(got.user_id, 42);
}

#[test]
fn validate_rejects_expired_token() {
    let ctx = ctx();
    let au = AuthUser { user_id: 7 };
    let t0: i64 = 1_000_000;
    let token = au.to_jwt(&ctx, t0);
    let header = header_for(&token);
    let r = AuthUser::from_authorization(&ctx, &header, t0 + JWT_EXPIRES_IN);
    assert!(matches!(r, Err(AppError::Unauthorized(_))));
    let r = AuthUser::from_authorization(&ctx, &header, t0 + JWT_EXPIRES_IN + 5000);
    assert!(matches!(r, Err(AppError::Unauthorized(_))));
}

#[test]
fn validate_rejects_wrong_secret() {
    let ctx_a = ctx();
    let mut ctx_b = ctx();
    ctx_b.config.jwt.secret = String::from("another-secret");
    let token = AuthUser { user_id: 3 }.to_jwt(&ctx_a, 500);
    let header = header_for(&token);
    let r = AuthUser::from_authorization(&ctx_b, &header, 500);
    assert!(matches!(r, Err(AppError::Unauthorized(_))));
}

#[test]
fn tampered_token_is_rejected() {
    let ctx = ctx();
    let token = AuthUser { user_id: 11 }.to_jwt(&ctx, 2_000);
    // Flip one character of the signature (the part after the last dot).
    let dot = token.rfind('.').unwrap();
    let sig_pos = dot + 1 + (token.len() - dot - 1) / 2;
    let tampered = flip_char_at(&token, sig_pos);
    let r = AuthUser::from_authorization(&ctx, &header_for(&tampered), 2_000);
    assert!(matches!(r, Err(AppError::Unauthorized(_))));
    // Flip one character of the payload (the part between the two dots).
    let first_dot = token.find('.').unwrap();
    let payload_pos = first_dot + 1 + (dot - first_dot - 1) / 2;
    let tampered = flip_char_at(&token, payload_pos);
    let r = AuthUser::from_authorization(&ctx, &header_for(&tampered), 2_000);
    assert!(matches!(r, Err(AppError::Unauthorized(_))));
}

fn flip_char_at(token: &str, pos: usize) -> String {
    let mut chars: Vec<char> = token.chars().collect();
    chars[pos] = if chars[pos] == 'A' { 'B' } else { 'A' };
    chars.into_iter().collect()
}

#[test]
fn wrong_scheme_is_rejected() {
    let ctx = ctx();
    let token = AuthUser { user_id: 5 }.to_jwt(&ctx, 100);
    let r = AuthUser::from_authorization(&ctx, &format!("Bearer {}", token), 100);
    assert!(matches!(r, Err(AppError::Unauthorized(_))));
    // The scheme is case-sensitive, including the trailing space.
    let r = AuthUser::from_authorization(&ctx, &format!("token {}", token), 100);
    assert!(matches!(r, Err(AppError::Unauthorized(_))));
    let r = AuthUser::from_authorization(&ctx, "Token", 100);
    assert!(matches!(r, Err(AppError::Unauthorized(_))));
}

#[test]
fn garbage_token_is_rejected() {
    let ctx = ctx();
    let r = AuthUser::from_authorization(&ctx, "Token not.a.jwt", 100);
    assert!(matches!(r, Err(AppError::Unauthorized(_))));
    let r = AuthUser::from_authorization(&ctx, "Token ", 100);
    assert!(matches!(r, Err(AppError::Unauthorized(_))));
}

#[test]
fn resolve_required_needs_a_header() {
    let ctx = ctx();
    let r = resolve_required(&ctx, None, 100);
    assert!(matches!(r, Err(AppError::Unauthorized(_))));
    let token = AuthUser { user_id: 9 }.to_jwt(&ctx, 100);
    let header = header_for(&token);
    let got = resolve_required(&ctx, Some(header.as_str()), 100).unwrap();
    assert_eq!(got.user_id, 9);
}

#[test]
fn resolve_optional_allows_absence_but_not_bad_credentials() {
    let ctx = ctx();
    let r = resolve_optional(&ctx, None, 100).unwrap();
    assert!(r.0.is_none());
    let token = AuthUser { user_id: 9 }.to_jwt(&ctx, 100);
    let header = header_for(&token);
    let r = resolve_optional(&ctx, Some(header.as_str()), 100).unwrap();
    assert_eq!(r.0.unwrap().user_id, 9);
    // A present but invalid credential is an error, not anonymous access.
    let r = resolve_optional(&ctx, Some("Token nonsense"), 100);
    assert!(matches!(r, Err(AppError::Unauthorized(_))));
}
