use conduit::app_error::AppError;
use conduit::articles::{ArticleCreateInput, ArticlesService};
use conduit::config::{AppConfig, AppContext, DatabaseConfig, JwtConfig};
use conduit::extractor::{AuthUser, OptionalAuthUser};
use conduit::profiles::ProfilesService;
use conduit::store::Store;
use conduit::users::{UserCreateInput, UsersService};

fn ctx() -> AppContext {
    AppContext {
        config: AppConfig {
            port: 8080,
            log_level: String::from("info"),
            db: DatabaseConfig { url: String::new() },
            jwt: JwtConfig { secret: String::from("a-test-signing-secret"), exp_in_sec: 604800 },
        },
    }
}

fn register(store: &mut Store, ctx: &AppContext, username: &str, email: &str) -> AuthUser {
    let input = UserCreateInput {
        username: String::from(username),
        email: String::from(email),
        password: String::from("pw"),
    };
    let body = UsersService::create_user(store, ctx, input, 1_000).expect("registration succeeds");
    AuthUser { user_id: body.user.id }
}

fn post_article(store: &mut Store, auth: &AuthUser, title: &str) -> String {
    let input = ArticleCreateInput {
        title: String::from(title),
        description: String::from("d"),
        body: String::from("b"),
        tag_list: None,
    };
    let body = ArticlesService::create_article(store, auth, input, 1_000).expect("creation succeeds");
    body.article.slug
}

#[test]
fn following_twice_keeps_exactly_one_edge() {
    let ctx = ctx();
    let mut store = Store::new();
    let alice = register(&mut store, &ctx, "alice", "a@x.com");
    register(&mut store, &ctx, "bob", "b@x.com");
    let body = ProfilesService::follow_profile(&mut store, &alice, "bob").unwrap();
    assert!(body.profile.following);
    assert_eq!(store.follows.len(), 1);
    // The second follow succeeds and creates nothing.
    let body = ProfilesService::follow_profile(&mut store, &alice, "bob").unwrap();
    assert!(body.profile.following);
    assert_eq!(store.follows.len(), 1);
}

#[test]
fn unfollowing_a_non_followed_user_succeeds() {
    let ctx = ctx();
    let mut store = Store::new();
    let alice = register(&mut store, &ctx, "alice", "a@x.com");
    register(&mut store, &ctx, "bob", "b@x.com");
    let body = ProfilesService::unfollow_profile(&mut store, &alice, "bob").unwrap();
    assert!(!body.profile.following);
    assert_eq!(store.follows.len(), 0);
    // Follow, then unfollow twice: the second removal is also a success.
    ProfilesService::follow_profile(&mut store, &alice, "bob").unwrap();
    ProfilesService::unfollow_profile(&mut store, &alice, "bob").unwrap();
    assert_eq!(store.follows.len(), 0);
    ProfilesService::unfollow_profile(&mut store, &alice, "bob").unwrap();
    assert_eq!(store.follows.len(), 0);
}

#[test]
fn self_follow_is_a_bad_request() {
    let ctx = ctx();
    let mut store = Store::new();
    let alice = register(&mut store, &ctx, "alice", "a@x.com");
    let r = ProfilesService::follow_profile(&mut store, &alice, "alice");
    match r {
        Err(e @ AppError::BadRequest(_)) => assert_eq!(e.status_code(), 400),
        _ => panic!("expected BadRequest for a self-follow"),
    }
    assert_eq!(store.follows.len(), 0);
}

#[test]
fn get_profile_reports_the_following_flag() {
    let ctx = ctx();
    let mut store = Store::new();
    let alice = register(&mut store, &ctx, "alice", "a@x.com");
    register(&mut store, &ctx, "bob", "b@x.com");
    let anon = OptionalAuthUser(None);
    let body = ProfilesService::get_profile(&store, &anon, "bob").unwrap();
    assert!(!body.profile.following);
    ProfilesService::follow_profile(&mut store, &alice, "bob").unwrap();
    let viewer = OptionalAuthUser(Some(AuthUser { user_id: alice.user_id }));
    let body = ProfilesService::get_profile(&store, &viewer, "bob").unwrap();
    assert!(body.profile.following);
    let r = ProfilesService::get_profile(&store, &viewer, "nobody");
    assert!(matches!(r, Err(AppError::NotFound(_))));
}

#[test]
fn favoriting_increments_the_count_by_exactly_one() {
    let ctx = ctx();
    let mut store = Store::new();
    let alice = register(&mut store, &ctx, "alice", "a@x.com");
    let bob = register(&mut store, &ctx, "bob", "b@x.com");
    let slug = post_article(&mut store, &alice, "Counted Words");
    let body = ArticlesService::favorite_article(&mut store, &bob, &slug).unwrap();
    assert!(body.article.favorited);
    assert_eq!(body.article.favorites_count, 1);
    assert_eq!(store.favorites.len(), 1);
    // Favoriting again neither errors nor double-increments.
    let body = ArticlesService::favorite_article(&mut store, &bob, &slug).unwrap();
    assert_eq!(body.article.favorites_count, 1);
    assert_eq!(store.favorites.len(), 1);
    // A second user raises the count to two.
    let body = ArticlesService::favorite_article(&mut store, &alice, &slug).unwrap();
    assert_eq!(body.article.favorites_count, 2);
    assert_eq!(store.favorites.len(), 2);
}

#[test]
fn unfavoriting_decrements_the_count_by_exactly_one() {
    let ctx = ctx();
    let mut store = Store::new();
    let alice = register(&mut store, &ctx, "alice", "a@x.com");
    let bob = register(&mut store, &ctx, "bob", "b@x.com");
    let slug = post_article(&mut store, &alice, "Counted Words");
    ArticlesService::favorite_article(&mut store, &bob, &slug).unwrap();
    let body = ArticlesService::unfavorite_article(&mut store, &bob, &slug).unwrap();
    assert!(!body.article.favorited);
    assert_eq!(body.article.favorites_count, 0);
    assert_eq!(store.favorites.len(), 0);
    // Unfavoriting an article one never favorited is a no-op success.
    let body = ArticlesService::unfavorite_article(&mut store, &bob, &slug).unwrap();
    assert_eq!(body.article.favorites_count, 0);
    assert_eq!(store.favorites.len(), 0);
}

#[test]
fn favoriting_a_missing_article_is_not_found() {
    let ctx = ctx();
    let mut store = Store::new();
    let alice = register(&mut store, &ctx, "alice", "a@x.com");
    let r = ArticlesService::favorite_article(&mut store, &alice, "no-such-slug");
    match r {
        Err(e @ AppError::NotFound(_)) => assert_eq!(e.status_code(), 404),
        _ => panic!("expected NotFound"),
    }
}

#[test]
fn check_following_and_check_favorited_report_the_edges() {
    let ctx = ctx();
    let mut store = Store::new();
    let alice = register(&mut store, &ctx, "alice", "a@x.com");
    let bob = register(&mut store, &ctx, "bob", "b@x.com");
    let slug = post_article(&mut store, &alice, "Edges");
    let article_id = store.articles[0].id;
    assert!(!ProfilesService::check_following(&store, &bob, alice.user_id).unwrap());
    assert!(!ArticlesService::check_favorited(&store, &bob, article_id).unwrap());
    ProfilesService::follow_profile(&mut store, &bob, "alice").unwrap();
    ArticlesService::favorite_article(&mut store, &bob, &slug).unwrap();
    assert!(ProfilesService::check_following(&store, &bob, alice.user_id).unwrap());
    assert!(ArticlesService::check_favorited(&store, &bob, article_id).unwrap());
}
