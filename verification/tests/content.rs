use conduit::app_error::AppError;
use conduit::articles::{
    ArticleCreateInput, ArticleListQuery, ArticleUpdateInput, ArticlesService, CommentCreateInput,
};
use conduit::config::{value_to_seconds, AppConfig, AppContext, DatabaseConfig, JwtConfig};
use conduit::extractor::{AuthUser, OptionalAuthUser};
use conduit::store::Store;
use conduit::tags::TagsService;
use conduit::users::{UserCreateInput, UsersService};

fn ctx() -> AppContext {
    AppContext {
        config: AppConfig {
            port: 8080,
            log_level: String::from("info"),
            db: DatabaseConfig { url: String::new() },
            jwt: JwtConfig { secret: String::from("a-test-signing-secret"), exp_in_sec: 604800 },
        },
    }
}

fn register(store: &mut Store, ctx: &AppContext, username: &str, email: &str) -> AuthUser {
    let input = UserCreateInput {
        username: String::from(username),
        email: String::from(email),
        password: String::from("pw"),
    };
    let body = UsersService::create_user(store, ctx, input, 1_000).expect("registration succeeds");
    AuthUser { user_id: body.user.id }
}

fn post_article(store: &mut Store, auth: &AuthUser, title: &str, tags: Option<Vec<&str>>) -> String {
    let input = ArticleCreateInput {
        title: String::from(title),
        description: String::from("d"),
        body: String::from("b"),
        tag_list: tags.map(|v| v.into_iter().map(String::from).collect()),
    };
    let body = ArticlesService::create_article(store, auth, input, 1_000).expect("creation succeeds");
    body.article.slug
}

fn no_query() -> ArticleListQuery {
    ArticleListQuery { tag: None, author: None, favorited: None, limit: None, offset: None }
}

#[test]
fn slugify_lowercases_and_dashes() {
    assert_eq!(ArticlesService::slugify("Hello World"), "hello-world");
    assert_eq!(ArticlesService::slugify("ALL CAPS TITLE"), "all-caps-title");
    assert_eq!(ArticlesService::slugify("nodash"), "nodash");
}

#[test]
fn slug_hash_is_deterministic() {
    let a = ArticlesService::slug_hash("hello-world");
    let b = ArticlesService::slug_hash("hello-world");
    assert_eq!(a, b);
    // 64-bit FNV-1a of the characters of "hello-world".
    assert_eq!(a, 12_777_936_878_424_084_750);
    assert_ne!(a, ArticlesService::slug_hash("hello-worle"));
    assert_eq!(ArticlesService::slug_hash(""), 0xcbf29ce484222325);
}

#[test]
fn deleting_as_non_author_is_rejected_and_changes_nothing() {
    let ctx = ctx();
    let mut store = Store::new();
    let alice = register(&mut store, &ctx, "alice", "a@x.com");
    let bob = register(&mut store, &ctx, "bob", "b@x.com");
    let slug = post_article(&mut store, &alice, "Hello World", None);
    let r = ArticlesService::delete_article(&mut store, &bob, &slug, 2_000);
    assert!(matches!(r, Err(AppError::BadRequest(_))));
    assert_eq!(store.articles[0].slug, "hello-world");
    assert!(store.articles[0].deleted_at.is_none());
}

#[test]
fn deleting_as_author_recycles_the_slug() {
    let ctx = ctx();
    let mut store = Store::new();
    let alice = register(&mut store, &ctx, "alice", "a@x.com");
    let slug = post_article(&mut store, &alice, "Hello World", None);
    let msg = ArticlesService::delete_article(&mut store, &alice, &slug, 2_000).unwrap();
    assert_eq!(msg, "Article deleted");
    assert_eq!(store.articles[0].deleted_at, Some(2_000));
    assert_ne!(store.articles[0].slug, "hello-world");
    // The recycled slug is the decimal rendering of a 64-bit hash.
    assert!(store.articles[0].slug.chars().all(|c| c.is_ascii_digit()));
    // The freed slug can be reused by a new article with the same title.
    let slug2 = post_article(&mut store, &alice, "Hello World", None);
    assert_eq!(slug2, "hello-world");
    assert_ne!(store.articles[0].slug, store.articles[1].slug);
}

#[test]
fn slug_recycling_is_deterministic_and_distinct_per_slug() {
    let ctx = ctx();
    let mut store = Store::new();
    let alice = register(&mut store, &ctx, "alice", "a@x.com");
    // Similarly titled articles recycle to distinct slugs, each the decimal
    // rendering of the hash of its own slug.
    let slug_a = post_article(&mut store, &alice, "Hello World", None);
    let slug_b = post_article(&mut store, &alice, "Hello Worlds", None);
    ArticlesService::delete_article(&mut store, &alice, &slug_a, 2_000).unwrap();
    ArticlesService::delete_article(&mut store, &alice, &slug_b, 2_100).unwrap();
    let first = store.articles[0].slug.clone();
    let second = store.articles[1].slug.clone();
    assert_eq!(first, format!("{}", ArticlesService::slug_hash("hello-world")));
    assert_eq!(second, format!("{}", ArticlesService::slug_hash("hello-worlds")));
    assert_ne!(first, second);
    // Deleting a reused slug recycles to the same value as before; the store
    // already holds it, so the unique-slug rule reports a conflict.
    let slug_c = post_article(&mut store, &alice, "Hello World", None);
    let r = ArticlesService::delete_article(&mut store, &alice, &slug_c, 3_000);
    assert!(matches!(r, Err(AppError::Conflict(_))));
    assert!(store.articles[2].deleted_at.is_none());
}

#[test]
fn duplicate_slug_on_creation_is_a_conflict() {
    let ctx = ctx();
    let mut store = Store::new();
    let alice = register(&mut store, &ctx, "alice", "a@x.com");
    post_article(&mut store, &alice, "Hello World", None);
    let input = ArticleCreateInput {
        title: String::from("Hello World"),
        description: String::from("other"),
        body: String::from("other"),
        tag_list: None,
    };
    let r = ArticlesService::create_article(&mut store, &alice, input, 1_500);
    assert!(matches!(r, Err(AppError::Conflict(_))));
    assert_eq!(store.articles.len(), 1);
}

#[test]
fn update_article_rewrites_slug_only_for_a_new_title() {
    let ctx = ctx();
    let mut store = Store::new();
    let alice = register(&mut store, &ctx, "alice", "a@x.com");
    let bob = register(&mut store, &ctx, "bob", "b@x.com");
    let slug = post_article(&mut store, &alice, "Hello World", None);
    let input = ArticleUpdateInput {
        title: None,
        description: Some(String::from("new description")),
        body: None,
    };
    let body = ArticlesService::update_article(&mut store, &alice, &slug, input, 2_000).unwrap();
    assert_eq!(body.article.slug, "hello-world");
    assert_eq!(body.article.description, "new description");
    let input = ArticleUpdateInput { title: Some(String::from("Fresh Title")), description: None, body: None };
    let body = ArticlesService::update_article(&mut store, &alice, &slug, input, 2_500).unwrap();
    assert_eq!(body.article.slug, "fresh-title");
    // A non-author may not update.
    let input = ArticleUpdateInput { title: None, description: None, body: Some(String::from("x")) };
    let r = ArticlesService::update_article(&mut store, &bob, "fresh-title", input, 3_000);
    assert!(matches!(r, Err(AppError::BadRequest(_))));
}

#[test]
fn get_article_reports_viewer_flags() {
    let ctx = ctx();
    let mut store = Store::new();
    let alice = register(&mut store, &ctx, "alice", "a@x.com");
    let bob = register(&mut store, &ctx, "bob", "b@x.com");
    let slug = post_article(&mut store, &alice, "Hello World", None);
    ArticlesService::favorite_article(&mut store, &bob, &slug).unwrap();
    let viewer = OptionalAuthUser(Some(AuthUser { user_id: bob.user_id }));
    let body = ArticlesService::get_article(&store, &viewer, &slug).unwrap();
    assert!(body.article.favorited);
    assert_eq!(body.article.author.username, "alice");
    let anon = OptionalAuthUser(None);
    let body = ArticlesService::get_article(&store, &anon, &slug).unwrap();
    assert!(!body.article.favorited);
    let r = ArticlesService::get_article(&store, &anon, "missing");
    assert!(matches!(r, Err(AppError::NotFound(_))));
}

#[test]
fn listing_filters_live_articles_newest_first() {
    let ctx = ctx();
    let mut store = Store::new();
    let alice = register(&mut store, &ctx, "alice", "a@x.com");
    let bob = register(&mut store, &ctx, "bob", "b@x.com");
    post_article(&mut store, &alice, "First Post", Some(vec!["rust"]));
    post_article(&mut store, &bob, "Second Post", Some(vec!["rust", "verus"]));
    let deleted = post_article(&mut store, &alice, "Third Post", None);
    ArticlesService::delete_article(&mut store, &alice, &deleted, 2_000).unwrap();
    let anon = OptionalAuthUser(None);
    let body = ArticlesService::get_articles(&store, &anon, &no_query()).unwrap();
    assert_eq!(body.articles_count, 2);
    assert_eq!(body.articles.len(), 2);
    assert_eq!(body.articles[0].slug, "second-post");
    assert_eq!(body.articles[1].slug, "first-post");
    let mut q = no_query();
    q.author = Some(String::from("alice"));
    let body = ArticlesService::get_articles(&store, &anon, &q).unwrap();
    assert_eq!(body.articles_count, 1);
    assert_eq!(body.articles[0].slug, "first-post");
    let mut q = no_query();
    q.tag = Some(String::from("verus"));
    let body = ArticlesService::get_articles(&store, &anon, &q).unwrap();
    assert_eq!(body.articles_count, 1);
    assert_eq!(body.articles[0].slug, "second-post");
    let mut q = no_query();
    q.limit = Some(1);
    let body = ArticlesService::get_articles(&store, &anon, &q).unwrap();
    assert_eq!(body.articles_count, 2);
    assert_eq!(body.articles.len(), 1);
    assert_eq!(body.articles[0].slug, "second-post");
    let mut q = no_query();
    q.offset = Some(1);
    let body = ArticlesService::get_articles(&store, &anon, &q).unwrap();
    assert_eq!(body.articles.len(), 1);
    assert_eq!(body.articles[0].slug, "first-post");
}

#[test]
fn listing_by_favorited_username() {
    let ctx = ctx();
    let mut store = Store::new();
    let alice = register(&mut store, &ctx, "alice", "a@x.com");
    let bob = register(&mut store, &ctx, "bob", "b@x.com");
    let slug = post_article(&mut store, &alice, "Liked Post", None);
    post_article(&mut store, &alice, "Plain Post", None);
    ArticlesService::favorite_article(&mut store, &bob, &slug).unwrap();
    let anon = OptionalAuthUser(None);
    let mut q = no_query();
    q.favorited = Some(String::from("bob"));
    let body = ArticlesService::get_articles(&store, &anon, &q).unwrap();
    assert_eq!(body.articles_count, 1);
    assert_eq!(body.articles[0].slug, "liked-post");
}

#[test]
fn feed_lists_only_followed_authors() {
    let ctx = ctx();
    let mut store = Store::new();
    let alice = register(&mut store, &ctx, "alice", "a@x.com");
    let bob = register(&mut store, &ctx, "bob", "b@x.com");
    let carol = register(&mut store, &ctx, "carol", "c@x.com");
    post_article(&mut store, &alice, "From Alice", None);
    post_article(&mut store, &bob, "From Bob", None);
    conduit::profiles::ProfilesService::follow_profile(&mut store, &carol, "alice").unwrap();
    let body = ArticlesService::get_articles_feed(&store, &carol, &no_query()).unwrap();
    assert_eq!(body.articles_count, 1);
    assert_eq!(body.articles[0].slug, "from-alice");
    assert!(body.articles[0].author.following);
}

#[test]
fn comments_are_created_listed_and_soft_deleted() {
    let ctx = ctx();
    let mut store = Store::new();
    let alice = register(&mut store, &ctx, "alice", "a@x.com");
    let bob = register(&mut store, &ctx, "bob", "b@x.com");
    let slug = post_article(&mut store, &alice, "Hello World", None);
    let input = CommentCreateInput { body: String::from("nice article") };
    let body = ArticlesService::create_comment(&mut store, &bob, &slug, input, 2_000).unwrap();
    let comment_id = body.comment.id;
    assert_eq!(body.comment.body, "nice article");
    assert_eq!(body.comment.author.username, "bob");
    let anon = OptionalAuthUser(None);
    let listing = ArticlesService::get_comments(&store, &anon, &slug).unwrap();
    assert_eq!(listing.comments.len(), 1);
    // Only the comment's author may delete it.
    let r = ArticlesService::delete_comment(&mut store, &alice, comment_id, 3_000);
    assert!(matches!(r, Err(AppError::BadRequest(_))));
    let msg = ArticlesService::delete_comment(&mut store, &bob, comment_id, 3_000).unwrap();
    assert_eq!(msg, "Comment deleted");
    let listing = ArticlesService::get_comments(&store, &anon, &slug).unwrap();
    assert_eq!(listing.comments.len(), 0);
    let r = ArticlesService::delete_comment(&mut store, &bob, comment_id + 1, 3_000);
    assert!(matches!(r, Err(AppError::NotFound(_))));
}

#[test]
fn tags_lists_every_tag_in_store_order() {
    let ctx = ctx();
    let mut store = Store::new();
    let alice = register(&mut store, &ctx, "alice", "a@x.com");
    post_article(&mut store, &alice, "First Post", Some(vec!["rust", "verus"]));
    post_article(&mut store, &alice, "Second Post", Some(vec!["proofs"]));
    let body = TagsService::get_tags(&store).unwrap();
    assert_eq!(body.tags, vec!["rust", "verus", "proofs"]);
}

#[test]
fn init_builds_the_configuration_from_plain_values() {
    let c = AppConfig::init(
        3000,
        String::from("debug"),
        String::from("postgres://localhost/db"),
        String::from("s3cret"),
        7,
        String::from("days"),
    );
    assert_eq!(c.port, 3000);
    assert_eq!(c.log_level, "debug");
    assert_eq!(c.db.url, "postgres://localhost/db");
    assert_eq!(c.jwt.secret, "s3cret");
    assert_eq!(c.jwt.exp_in_sec, 604_800);
}

#[test]
fn value_to_seconds_converts_each_unit() {
    assert_eq!(value_to_seconds(30, String::from("seconds")), 30);
    assert_eq!(value_to_seconds(2, String::from("minutes")), 120);
    assert_eq!(value_to_seconds(3, String::from("hours")), 10_800);
    assert_eq!(value_to_seconds(2, String::from("days")), 172_800);
    assert_eq!(value_to_seconds(1, String::from("weeks")), 604_800);
    assert_eq!(value_to_seconds(1, String::from("months")), 2_592_000);
    assert_eq!(value_to_seconds(1, String::from("years")), 31_536_000);
}

#[test]
fn error_kinds_map_to_their_status_codes() {
    assert_eq!(AppError::NotFound(String::from("m")).status_code(), 404);
    assert_eq!(AppError::Unauthorized(String::from("m")).status_code(), 401);
    assert_eq!(AppError::BadRequest(String::from("m")).status_code(), 400);
    assert_eq!(AppError::Conflict(String::from("m")).status_code(), 409);
    assert_eq!(AppError::Internal(String::from("m")).status_code(), 500);
    assert_eq!(AppError::NotFound(String::from("gone")).message(), "gone");
}

#[test]
fn end_to_end_register_publish_delete_reuse() {
    let ctx = ctx();
    let mut store = Store::new();
    // Register A; log in with the right password; the token proves A.
    let alice = register(&mut store, &ctx, "alice", "a@x.com");
    let login = UsersService::login(
        &store,
        &ctx,
        conduit::users::UserLoginInput {
            email: String::from("a@x.com"),
            password: String::from("pw"),
        },
        1_000,
    )
    .unwrap();
    let token = login.user.token.unwrap();
    let got =
        AuthUser::from_authorization(&ctx, &format!("Token {}", token), 1_000).unwrap();
    assert_eq!(got.user_id, alice.user_id);
    // A wrong password is Unauthorized.
    let r = UsersService::login(
        &store,
        &ctx,
        conduit::users::UserLoginInput {
            email: String::from("a@x.com"),
            password: String::from("wrong"),
        },
        1_000,
    );
    assert!(matches!(r, Err(AppError::Unauthorized(_))));
    // A publishes "Hello World" -> slug "hello-world".
    let slug = post_article(&mut store, &alice, "Hello World", None);
    assert_eq!(slug, "hello-world");
    // B cannot delete A's article.
    let bob = register(&mut store, &ctx, "bob", "b@x.com");
    let r = ArticlesService::delete_article(&mut store, &bob, &slug, 2_000);
    assert!(matches!(r, Err(AppError::BadRequest(_))));
    // A deletes it: timestamp set, slug changed, and the title is reusable.
    ArticlesService::delete_article(&mut store, &alice, &slug, 2_000).unwrap();
    assert!(store.articles[0].deleted_at.is_some());
    assert_ne!(store.articles[0].slug, "hello-world");
    let slug2 = post_article(&mut store, &alice, "Hello World", None);
    assert_eq!(slug2, "hello-world");
}
