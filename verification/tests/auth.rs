use conduit::app_error::AppError;
use conduit::config::{AppConfig, AppContext, DatabaseConfig, JwtConfig};
use conduit::extractor::AuthUser;
use conduit::store::Store;
use conduit::users::{UserCreateInput, UserLoginInput, UserUpdateInput, UsersService};

fn ctx() -> AppContext {
    AppContext {
        config: AppConfig {
            port: 8080,
            log_level: String::from("info"),
            db: DatabaseConfig { url: String::new() },
            jwt: JwtConfig { secret: String::from("a-test-signing-secret"), exp_in_sec: 604800 },
        },
    }
}

fn register(store: &mut Store, ctx: &AppContext, username: &str, email: &str, password: &str) -> i32 {
    let input = UserCreateInput {
        username: String::from(username),
        email: String::from(email),
        password: String::from(password),
    };
    let body = UsersService::create_user(store, ctx, input, 1_000).expect("registration succeeds");
    body.user.id
}

#[test]
fn register_then_login_with_correct_password() {
    let ctx = ctx();
    let mut store = Store::new();
    let id = register(&mut store, &ctx, "alice", "a@x.com", "pw1");
    let input = UserLoginInput { email: String::from("a@x.com"), password: String::from("pw1") };
    let body = UsersService::login(&store, &ctx, input, 1_000).expect("login succeeds");
    assert_eq!(body.user.id, id);
    assert_eq!(body.user.username, "alice");
    // The token the login returns validates to the user's identity.
    let token = body.user.token.expect("login returns a token");
    let header = format!("Token {}", token);
    let got = AuthUser::from_authorization(&ctx, &header, 1_000).unwrap();
    assert_eq!(got.user_id, id);
}

#[test]
fn login_with_wrong_password_is_unauthorized() {
    let ctx = ctx();
    let mut store = Store::new();
    register(&mut store, &ctx, "alice", "a@x.com", "pw1");
    let input = UserLoginInput { email: String::from("a@x.com"), password: String::from("pw2") };
    let r = UsersService::login(&store, &ctx, input, 1_000);
    match r {
        Err(e @ AppError::Unauthorized(_)) => assert_eq!(e.status_code(), 401),
        other => panic!("expected Unauthorized, got {:?}", other.map(|b| b.user.id)),
    }
}

#[test]
fn login_with_unknown_email_is_not_found() {
    let ctx = ctx();
    let store = Store::new();
    let input = UserLoginInput { email: String::from("b@x.com"), password: String::from("pw") };
    let r = UsersService::login(&store, &ctx, input, 1_000);
    assert!(matches!(r, Err(AppError::NotFound(_))));
}

#[test]
fn stored_credential_is_a_hash_not_the_password() {
    let ctx = ctx();
    let mut store = Store::new();
    register(&mut store, &ctx, "alice", "a@x.com", "pw1");
    let stored = &store.users[0].password_hash;
    assert_ne!(stored, "pw1");
    assert!(stored.starts_with("$argon2"));
}

#[test]
fn same_password_hashes_differently_each_time() {
    let ctx = ctx();
    let mut store = Store::new();
    register(&mut store, &ctx, "alice", "a@x.com", "shared-password");
    register(&mut store, &ctx, "bob", "b@x.com", "shared-password");
    // A fresh random salt per hash: equal passwords, different hash strings.
    assert_ne!(store.users[0].password_hash, store.users[1].password_hash);
}

#[test]
fn duplicate_email_or_username_is_a_conflict() {
    let ctx = ctx();
    let mut store = Store::new();
    register(&mut store, &ctx, "alice", "a@x.com", "pw1");
    let dup_email = UserCreateInput {
        username: String::from("someone"),
        email: String::from("a@x.com"),
        password: String::from("pw"),
    };
    let r = UsersService::create_user(&mut store, &ctx, dup_email, 1_000);
    match r {
        Err(e @ AppError::Conflict(_)) => assert_eq!(e.status_code(), 409),
        _ => panic!("expected Conflict for duplicate email"),
    }
    let dup_username = UserCreateInput {
        username: String::from("alice"),
        email: String::from("c@x.com"),
        password: String::from("pw"),
    };
    let r = UsersService::create_user(&mut store, &ctx, dup_username, 1_000);
    assert!(matches!(r, Err(AppError::Conflict(_))));
    assert_eq!(store.users.len(), 1);
}

#[test]
fn get_current_user_returns_the_record() {
    let ctx = ctx();
    let mut store = Store::new();
    let id = register(&mut store, &ctx, "alice", "a@x.com", "pw1");
    let auth = AuthUser { user_id: id };
    let body = UsersService::get_current_user(&store, &ctx, &auth, 2_000).unwrap();
    assert_eq!(body.user.email, "a@x.com");
    assert!(body.user.token.is_some());
    let missing = AuthUser { user_id: id + 1 };
    let r = UsersService::get_current_user(&store, &ctx, &missing, 2_000);
    assert!(matches!(r, Err(AppError::NotFound(_))));
}

#[test]
fn update_user_replaces_given_fields_and_keeps_the_rest() {
    let ctx = ctx();
    let mut store = Store::new();
    let id = register(&mut store, &ctx, "alice", "a@x.com", "pw1");
    let auth = AuthUser { user_id: id };
    let input = UserUpdateInput {
        email: None,
        username: None,
        bio: Some(String::from("verifier of things")),
        image: None,
        password: Some(String::from("pw2")),
    };
    let body = UsersService::update_user(&mut store, &ctx, &auth, input, 2_000).unwrap();
    assert_eq!(body.user.email, "a@x.com");
    assert_eq!(body.user.bio.as_deref(), Some("verifier of things"));
    // The old password no longer logs in; the new one does.
    let r = UsersService::login(
        &store,
        &ctx,
        UserLoginInput { email: String::from("a@x.com"), password: String::from("pw1") },
        2_000,
    );
    assert!(matches!(r, Err(AppError::Unauthorized(_))));
    let body = UsersService::login(
        &store,
        &ctx,
        UserLoginInput { email: String::from("a@x.com"), password: String::from("pw2") },
        2_000,
    )
    .unwrap();
    assert_eq!(body.user.id, id);
}

#[test]
fn update_user_rejects_taken_email() {
    let ctx = ctx();
    let mut store = Store::new();
    let id = register(&mut store, &ctx, "alice", "a@x.com", "pw1");
    register(&mut store, &ctx, "bob", "b@x.com", "pw2");
    let auth = AuthUser { user_id: id };
    let input = UserUpdateInput {
        email: Some(String::from("b@x.com")),
        username: None,
        bio: None,
        image: None,
        password: None,
    };
    let r = UsersService::update_user(&mut store, &ctx, &auth, input, 2_000);
    assert!(matches!(r, Err(AppError::Conflict(_))));
    assert_eq!(store.users[0].email, "a@x.com");
}
