//! Articles and comments: creation with slug derivation, ownership-checked
//! mutation, soft delete with slug recycling, the favorite relationship with
//! its denormalized counter, and the read-through listings.

use vstd::prelude::*;

use crate::app_error::AppError;
use crate::extractor::{AuthUser, OptionalAuthUser};
use crate::profiles::{profile_matches, Profile};
use crate::store::{
    add_edge, clone_string_vec, fav_count, fav_pred, find_article_by_slug, find_comment_by_id,
    find_favorite, find_follow, find_user_by_id, has_article_id, has_article_slug, has_comment_id,
    has_favorite,
    has_follow, has_user_id, lemma_fav_count_none, lemma_fav_count_push, lemma_fav_count_remove,
    lemma_has_article_id_push, lemma_has_article_id_same_ids,
    lemma_remove_edge_absent, lemma_remove_edge_unique, remove_edge, ArticleRecord, CommentRecord,
    FavoriteEdge, Store, UserRecord,
};
use crate::text::{dec_of, lower_of, push_char, str_eq, u64_to_dec};

verus! {

/// The body wrapper around a single article.
#[derive(Debug)]
pub struct ArticleBody<T> {
    pub article: T,
}

/// The body wrapper around an article listing.
#[derive(Debug)]
pub struct ArticlesBody<T> {
    pub articles: Vec<T>,
    pub articles_count: usize,
}

/// The body wrapper around a single comment.
#[derive(Debug)]
pub struct CommentBody<T> {
    pub comment: T,
}

/// The body wrapper around a comment listing.
#[derive(Debug)]
pub struct CommentsBody<T> {
    pub comments: Vec<T>,
}

/// The article-creation input.
#[derive(Debug)]
pub struct ArticleCreateInput {
    pub title: String,
    pub description: String,
    pub body: String,
    pub tag_list: Option<Vec<String>>,
}

/// The article-update input: absent fields are left unchanged.
#[derive(Debug)]
pub struct ArticleUpdateInput {
    pub title: Option<String>,
    pub description: Option<String>,
    pub body: Option<String>,
}

/// The listing filters: each absent filter matches everything.
#[derive(Debug)]
pub struct ArticleListQuery {
    pub tag: Option<String>,
    pub author: Option<String>,
    pub favorited: Option<String>,
    pub limit: Option<i64>,
    pub offset: Option<i64>,
}

/// The comment-creation input.
#[derive(Debug)]
pub struct CommentCreateInput {
    pub body: String,
}

/// The article response, as seen by a viewer.
#[derive(Debug)]
pub struct Article {
    pub id: i32,
    pub slug: String,
    pub title: String,
    pub description: String,
    pub body: String,
    pub tag_list: Vec<String>,
    pub created_at: i64,
    pub updated_at: i64,
    pub favorited: bool,
    pub favorites_count: i32,
    pub author: Profile,
}

/// The comment response, as seen by a viewer.
#[derive(Debug)]
pub struct Comment {
    pub id: i32,
    pub body: String,
    pub created_at: i64,
    pub updated_at: i64,
    pub deleted_at: Option<i64>,
    pub author: Profile,
}

/// Whether the response `a` shows the record `rec` with its author and the
/// viewer's flags.
pub open spec fn article_matches(
    a: Article,
    rec: ArticleRecord,
    author: UserRecord,
    favorited: bool,
    following: bool,
) -> bool {
    &&& a.id == rec.id
    &&& a.slug == rec.slug
    &&& a.title == rec.title
    &&& a.description == rec.description
    &&& a.body == rec.body
    &&& a.tag_list@ == rec.tags@
    &&& a.created_at == rec.created_at
    &&& a.updated_at == rec.updated_at
    &&& a.favorited == favorited
    &&& a.favorites_count == rec.favorites_count
    &&& profile_matches(a.author, author, following)
}

/// Whether the response `c` shows the record `rec` with its author profile.
pub open spec fn comment_matches(
    c: Comment,
    rec: CommentRecord,
    author: UserRecord,
    following: bool,
) -> bool {
    &&& c.id == rec.id
    &&& c.body == rec.body
    &&& c.created_at == rec.created_at
    &&& c.updated_at == rec.updated_at
    &&& c.deleted_at == rec.deleted_at
    &&& profile_matches(c.author, author, following)
}

impl ArticleRecord {
    /// The response view of this record, given its author and the viewer's
    /// flags.
    pub fn to_article(&self, author: &UserRecord, favorited: bool, following: bool) -> (a: Article)
        ensures
            article_matches(a, *self, *author, favorited, following),
    {
        Article {
            id: self.id,
            slug: self.slug.clone(),
            title: self.title.clone(),
            description: self.description.clone(),
            body: self.body.clone(),
            tag_list: clone_string_vec(&self.tags),
            created_at: self.created_at,
            updated_at: self.updated_at,
            favorited,
            favorites_count: self.favorites_count,
            author: author.to_profile(following),
        }
    }
}

impl CommentRecord {
    /// The response view of this record, given its author and the viewer's
    /// following flag.
    pub fn to_comment(&self, author: &UserRecord, following: bool) -> (c: Comment)
        ensures
            comment_matches(c, *self, *author, following),
    {
        Comment {
            id: self.id,
            body: self.body.clone(),
            created_at: self.created_at,
            updated_at: self.updated_at,
            deleted_at: match self.deleted_at {
                Some(t) => Some(t),
                None => None,
            },
            author: author.to_profile(following),
        }
    }
}

/// Every space replaced by a dash.
pub open spec fn dashed(s: Seq<char>) -> Seq<char> {
    s.map_values(
        |c: char|
            if c == ' ' {
                '-'
            } else {
                c
            },
    )
}

/// The slug derived from a title: spaces become dashes, then the whole is
/// lowercased.
pub open spec fn slug_of(title: Seq<char>) -> Seq<char> {
    lower_of(dashed(title))
}

/// One step of the 64-bit FNV-1a hash.
pub open spec fn fnv_step(h: u64, c: char) -> u64 {
    vstd::wrapping::u64_specs::wrapping_mul(h ^ (c as u64), 0x100000001b3)
}

/// The 64-bit FNV-1a hash of a character sequence: deterministic, with a
/// wide and well-distributed output space.
pub open spec fn fnv1a(s: Seq<char>) -> u64
    decreases s.len(),
{
    if s.len() == 0 {
        0xcbf29ce484222325
    } else {
        fnv_step(fnv1a(s.drop_last()), s.last())
    }
}

/// The slug a soft-deleted article receives: the decimal rendering of a
/// 64-bit hash of its old slug. Deterministic per input, and wide enough
/// that it does not collide with plausible human-chosen slugs.
pub open spec fn recycled_slug(slug: Seq<char>) -> Seq<char> {
    dec_of(fnv1a(slug))
}

/// Whether the article with slug `slug` is authored by `user_id`.
pub open spec fn author_of_slug(articles: Seq<ArticleRecord>, slug: Seq<char>, user_id: i32) -> bool {
    exists|i: int|
        0 <= i < articles.len() && (#[trigger] articles[i]).slug@ == slug && articles[i].author_id
            == user_id
}

/// How an updated article record relates to the old one: each given field is
/// replaced, a new title also rewrites the slug, everything else is kept.
pub open spec fn article_updated(
    oldr: ArticleRecord,
    newr: ArticleRecord,
    input: ArticleUpdateInput,
    now: i64,
) -> bool {
    &&& newr.id == oldr.id
    &&& newr.author_id == oldr.author_id
    &&& newr.slug@ == (match input.title {
        Some(t) => slug_of(t@),
        None => oldr.slug@,
    })
    &&& newr.title == (match input.title {
        Some(t) => t,
        None => oldr.title,
    })
    &&& newr.description == (match input.description {
        Some(d) => d,
        None => oldr.description,
    })
    &&& newr.body == (match input.body {
        Some(b) => b,
        None => oldr.body,
    })
    &&& newr.tags == oldr.tags
    &&& newr.favorites_count == oldr.favorites_count
    &&& newr.created_at == oldr.created_at
    &&& newr.updated_at == now
    &&& newr.deleted_at == oldr.deleted_at
}

/// Whether rewriting the slug for a new title would collide with another
/// article's slug.
pub open spec fn update_slug_conflict(
    articles: Seq<ArticleRecord>,
    cur_slug: Seq<char>,
    input: ArticleUpdateInput,
) -> bool {
    match input.title {
        Some(t) => slug_of(t@) != cur_slug && has_article_slug(articles, slug_of(t@)),
        None => false,
    }
}

/// How a soft-deleted article record relates to the old one: the deletion
/// timestamp is set and the slug is recycled; everything else is kept.
pub open spec fn soft_deleted(oldr: ArticleRecord, newr: ArticleRecord, now: i64) -> bool {
    &&& newr.id == oldr.id
    &&& newr.author_id == oldr.author_id
    &&& newr.slug@ == recycled_slug(oldr.slug@)
    &&& newr.title == oldr.title
    &&& newr.description == oldr.description
    &&& newr.body == oldr.body
    &&& newr.tags == oldr.tags
    &&& newr.favorites_count == oldr.favorites_count
    &&& newr.created_at == oldr.created_at
    &&& newr.updated_at == oldr.updated_at
    &&& newr.deleted_at == Some(now)
}

/// How an article record changes when only its favorites counter moves by
/// `delta`: every other field is kept.
pub open spec fn counted(oldr: ArticleRecord, newr: ArticleRecord, delta: int) -> bool {
    &&& newr.id == oldr.id
    &&& newr.slug == oldr.slug
    &&& newr.title == oldr.title
    &&& newr.description == oldr.description
    &&& newr.body == oldr.body
    &&& newr.author_id == oldr.author_id
    &&& newr.tags == oldr.tags
    &&& newr.created_at == oldr.created_at
    &&& newr.updated_at == oldr.updated_at
    &&& newr.deleted_at == oldr.deleted_at
    &&& newr.favorites_count as int == oldr.favorites_count + delta
}

/// The predicate selecting the live comments of one article.
pub open spec fn live_comment_pred(article_id: i32) -> spec_fn(CommentRecord) -> bool {
    |c: CommentRecord| c.article_id == article_id && c.deleted_at is None
}

/// Whether the response `c` shows the record `rec`, with the record's own
/// author resolved among `users`.
pub open spec fn comment_rendered(
    c: Comment,
    rec: CommentRecord,
    users: Seq<UserRecord>,
    following: bool,
) -> bool {
    exists|u: int|
        0 <= u < users.len() && (#[trigger] users[u]).id == rec.author_id && comment_matches(
            c,
            rec,
            users[u],
            following,
        )
}

/// Whether the comment with id `comment_id` is authored by `user_id`.
pub open spec fn comment_author_is(comments: Seq<CommentRecord>, comment_id: i32, user_id: i32) -> bool {
    exists|i: int|
        0 <= i < comments.len() && (#[trigger] comments[i]).id == comment_id
            && comments[i].author_id == user_id
}

/// How a soft-deleted comment record relates to the old one: only the
/// deletion timestamp is set.
pub open spec fn comment_deleted(oldr: CommentRecord, newr: CommentRecord, now: i64) -> bool {
    &&& newr.id == oldr.id
    &&& newr.body == oldr.body
    &&& newr.author_id == oldr.author_id
    &&& newr.article_id == oldr.article_id
    &&& newr.created_at == oldr.created_at
    &&& newr.updated_at == oldr.updated_at
    &&& newr.deleted_at == Some(now)
}

/// Whether the author with id `author_id` carries the username `name`.
pub open spec fn author_has_username(users: Seq<UserRecord>, author_id: i32, name: Seq<char>) -> bool {
    exists|u: int|
        0 <= u < users.len() && (#[trigger] users[u]).id == author_id && users[u].username@ == name
}

/// Whether some user named `name` favorited the article with id `article_id`.
pub open spec fn favorited_by_username(
    users: Seq<UserRecord>,
    favorites: Seq<FavoriteEdge>,
    article_id: i32,
    name: Seq<char>,
) -> bool {
    exists|k: int|
        0 <= k < favorites.len() && (#[trigger] favorites[k]).article_id == article_id
            && author_has_username(users, favorites[k].user_id, name)
}

/// Whether a live article satisfies every filter of the query.
pub open spec fn query_pred(
    users: Seq<UserRecord>,
    favorites: Seq<FavoriteEdge>,
    q: ArticleListQuery,
    a: ArticleRecord,
) -> bool {
    &&& a.deleted_at is None
    &&& (match q.tag {
        Some(t) => exists|k: int| 0 <= k < a.tags@.len() && (#[trigger] a.tags@[k])@ == t@,
        None => true,
    })
    &&& (match q.author {
        Some(n) => author_has_username(users, a.author_id, n@),
        None => true,
    })
    &&& (match q.favorited {
        Some(n) => favorited_by_username(users, favorites, a.id, n@),
        None => true,
    })
}

/// The selection predicate of a listing: the query filters, and for a feed
/// also that the viewer follows the author.
pub open spec fn sel_pred(store: Store, q: ArticleListQuery, feed: Option<i32>) -> spec_fn(
    ArticleRecord,
) -> bool {
    |a: ArticleRecord|
        query_pred(store.users@, store.favorites@, q, a) && (match feed {
            Some(v) => has_follow(store.follows@, a.author_id, v),
            None => true,
        })
}

/// The articles a listing selects, most recently created first (the store
/// keeps articles in creation order, so the listing walks it backwards).
pub open spec fn listed(store: Store, q: ArticleListQuery, feed: Option<i32>) -> Seq<ArticleRecord> {
    store.articles@.filter(sel_pred(store, q, feed)).reverse()
}

/// The first selected index of a page: the offset, clamped to the selection.
pub open spec fn page_start(offset: Option<i64>, total: int) -> int {
    let o: int = match offset {
        Some(v) => v as int,
        None => 0,
    };
    if o <= 0 {
        0
    } else if o >= total {
        total
    } else {
        o
    }
}

/// The length of a page: the limit (20 when unspecified), clamped to what
/// remains after the offset.
pub open spec fn page_len(limit: Option<i64>, remaining: int) -> int {
    let l: int = match limit {
        Some(v) => v as int,
        None => 20,
    };
    if l <= 0 {
        0
    } else if l >= remaining {
        remaining
    } else {
        l
    }
}

/// Whether the response `resp` shows the record `rec` with its author
/// resolved among `users` and the viewer's flags.
pub open spec fn article_rendered(
    resp: Article,
    rec: ArticleRecord,
    users: Seq<UserRecord>,
    favorites: Seq<FavoriteEdge>,
    follows: Seq<crate::store::FollowEdge>,
    viewer: Option<i32>,
) -> bool {
    exists|u: int|
        0 <= u < users.len() && (#[trigger] users[u]).id == rec.author_id && article_matches(
            resp,
            rec,
            users[u],
            match viewer {
                Some(v) => has_favorite(favorites, v, rec.id),
                None => false,
            },
            match viewer {
                Some(v) => has_follow(follows, rec.author_id, v),
                None => false,
            },
        )
}

/// Whether one of the tags equals `t`.
fn tags_contain(tags: &Vec<String>, t: &str) -> (r: bool)
    ensures
        r == exists|k: int| 0 <= k < tags@.len() && (#[trigger] tags@[k])@ == t@,
{
    let mut i: usize = 0;
    while i < tags.len()
        invariant
            i <= tags@.len(),
            forall|k: int| 0 <= k < i ==> (#[trigger] tags@[k])@ != t@,
        decreases tags@.len() - i,
    {
        if str_eq(tags[i].as_str(), t) {
            return true;
        }
        i = i + 1;
    }
    false
}

/// Whether the user with id `author_id` exists and carries username `name`.
fn author_username_is(store: &Store, author_id: i32, name: &str) -> (r: bool)
    requires
        store.wf(),
    ensures
        r == author_has_username(store.users@, author_id, name@),
{
    match find_user_by_id(&store.users, author_id) {
        Some(u) => {
            if str_eq(store.users[u].username.as_str(), name) {
                true
            } else {
                proof {
                    assert forall|i: int|
                        0 <= i < store.users@.len() && (#[trigger] store.users@[i]).id
                            == author_id implies store.users@[i].username@ != name@ by {
                        if i != u {
                            assert(store.users@[i].id != store.users@[u as int].id);
                        }
                    }
                }
                false
            }
        },
        None => false,
    }
}

/// Whether some user named `name` favorited the article with id `article_id`.
fn favorited_by(store: &Store, article_id: i32, name: &str) -> (r: bool)
    requires
        store.wf(),
    ensures
        r == favorited_by_username(store.users@, store.favorites@, article_id, name@),
{
    let mut i: usize = 0;
    while i < store.favorites.len()
        invariant
            store.wf(),
            i <= store.favorites@.len(),
            forall|k: int|
                0 <= k < i ==> !((#[trigger] store.favorites@[k]).article_id == article_id
                    && author_has_username(store.users@, store.favorites@[k].user_id, name@)),
        decreases store.favorites@.len() - i,
    {
        if store.favorites[i].article_id == article_id {
            if author_username_is(store, store.favorites[i].user_id, name) {
                return true;
            }
        }
        i = i + 1;
    }
    false
}

/// Whether the recycled slug would collide with another article's slug.
pub open spec fn recycle_conflict(articles: Seq<ArticleRecord>, slug: Seq<char>) -> bool {
    recycled_slug(slug) != slug && has_article_slug(articles, recycled_slug(slug))
}

/// Replaces every space with a dash.
fn dash_spaces(title: &str) -> (r: String)
    ensures
        r@ == dashed(title@),
{
    let n = title.unicode_len();
    let mut out = String::new();
    let mut i: usize = 0;
    while i < n
        invariant
            i <= n,
            n == title@.len(),
            out@ =~= dashed(title@.subrange(0, i as int)),
        decreases n - i,
    {
        let c = title.get_char(i);
        let m: char = if c == ' ' {
            '-'
        } else {
            c
        };
        push_char(&mut out, m);
        proof {
            assert(out@ =~= dashed(title@.subrange(0, i + 1 as int)));
        }
        i = i + 1;
    }
    proof {
        assert(title@.subrange(0, n as int) =~= title@);
    }
    out
}

pub struct ArticlesService;

impl ArticlesService {
    /// Derives an article's slug from its title.
    pub fn slugify(title: &str) -> (r: String)
        ensures
            r@ == slug_of(title@),
    {
        let d = dash_spaces(title);
        crate::text::lowercase(d.as_str())
    }

    /// Checks that the acting user is the author of the article; anyone else
    /// is rejected.
    pub fn check_author(auth: &AuthUser, article: &ArticleRecord) -> (r: Result<bool, AppError>)
        ensures
            match r {
                Ok(b) => b && article.author_id == auth.user_id,
                Err(e) => e is BadRequest && article.author_id != auth.user_id,
            },
            (r is Ok) == (article.author_id == auth.user_id),
    {
        if article.author_id == auth.user_id {
            Ok(true)
        } else {
            Err(AppError::BadRequest("You are not the author of this article".to_owned()))
        }
    }

    /// Whether the acting user has favorited the article.
    pub fn check_favorited(store: &Store, auth: &AuthUser, article_id: i32) -> (r: Result<
        bool,
        AppError,
    >)
        ensures
            r matches Ok(b) && b == has_favorite(store.favorites@, auth.user_id, article_id),
    {
        match find_favorite(&store.favorites, auth.user_id, article_id) {
            Some(_) => Ok(true),
            None => Ok(false),
        }
    }

    /// Creates an article authored by the acting user. The slug is derived
    /// from the title and must not collide with any existing slug.
    pub fn create_article(
        store: &mut Store,
        auth: &AuthUser,
        input: ArticleCreateInput,
        now: i64,
    ) -> (r: Result<ArticleBody<Article>, AppError>)
        requires
            old(store).wf(),
            old(store).next_article_id < i32::MAX,
        ensures
            final(store).wf(),
            final(store).users == old(store).users,
            final(store).comments == old(store).comments,
            final(store).follows == old(store).follows,
            final(store).favorites == old(store).favorites,
            final(store).next_user_id == old(store).next_user_id,
            final(store).next_comment_id == old(store).next_comment_id,
            match r {
                Ok(body) => {
                    &&& final(store).articles@ == old(store).articles@.push(
                        final(store).articles@.last(),
                    )
                    &&& final(store).articles@.last().id == old(store).next_article_id
                    &&& final(store).articles@.last().slug@ == slug_of(input.title@)
                    &&& final(store).articles@.last().title == input.title
                    &&& final(store).articles@.last().description == input.description
                    &&& final(store).articles@.last().body == input.body
                    &&& final(store).articles@.last().author_id == auth.user_id
                    &&& final(store).articles@.last().favorites_count == 0
                    &&& final(store).articles@.last().tags@ == (match input.tag_list {
                        Some(t) => t@,
                        None => Seq::<String>::empty(),
                    })
                    &&& final(store).articles@.last().created_at == now
                    &&& final(store).articles@.last().updated_at == now
                    &&& final(store).articles@.last().deleted_at is None
                    &&& final(store).next_article_id == old(store).next_article_id + 1
                    &&& exists|u: int|
                        0 <= u < old(store).users@.len() && (#[trigger] old(store).users@[u]).id
                            == auth.user_id && article_matches(
                            body.article,
                            final(store).articles@.last(),
                            old(store).users@[u],
                            false,
                            false,
                        )
                },
                Err(e) => {
                    &&& *final(store) == *old(store)
                    &&& ((e is NotFound && !has_user_id(old(store).users@, auth.user_id)) || (
                    e is Conflict && has_user_id(old(store).users@, auth.user_id)
                        && has_article_slug(old(store).articles@, slug_of(input.title@))))
                },
            },
            (r is Ok) == (has_user_id(old(store).users@, auth.user_id) && !has_article_slug(
                old(store).articles@,
                slug_of(input.title@),
            )),
    {
        let author_idx = match find_user_by_id(&store.users, auth.user_id) {
            Some(i) => i,
            None => {
                return Err(AppError::NotFound("User not found".to_owned()));
            },
        };
        let slug = Self::slugify(input.title.as_str());
        if let Some(_) = find_article_by_slug(&store.articles, slug.as_str()) {
            return Err(AppError::Conflict("An article with this slug already exists".to_owned()));
        }
        let id = store.next_article_id;
        let tags = match input.tag_list {
            Some(t) => t,
            None => Vec::new(),
        };
        let record = ArticleRecord {
            id,
            slug,
            title: input.title,
            description: input.description,
            body: input.body,
            author_id: auth.user_id,
            favorites_count: 0,
            tags,
            created_at: now,
            updated_at: now,
            deleted_at: None,
        };
        let ghost old_articles = store.articles@;
        store.articles.push(record);
        store.next_article_id = id + 1;
        proof {
            assert(forall|k: int|
                0 <= k < old_articles.len() ==> store.articles@[k] == old_articles[k]);
            assert forall|a: int, b: int|
                0 <= a < store.articles@.len() && 0 <= b < store.articles@.len() && a != b implies {
                &&& (#[trigger] store.articles@[a]).id != (#[trigger] store.articles@[b]).id
                &&& store.articles@[a].slug@ != store.articles@[b].slug@
            } by {
                if a < old_articles.len() && b < old_articles.len() {
                    assert(old_articles[a].id != old_articles[b].id);
                } else if a < old_articles.len() {
                    assert(old_articles[a].id < id);
                } else {
                    assert(old_articles[b].id < id);
                }
            }
            assert forall|i: int|
                0 <= i < store.articles@.len() implies has_user_id(
                store.users@,
                (#[trigger] store.articles@[i]).author_id,
            ) by {
                if i < old_articles.len() {
                    assert(store.articles@[i] == old_articles[i]);
                } else {
                    assert(store.users@[author_idx as int].id == auth.user_id);
                }
            }
            assert(forall|k: int|
                0 <= k < store.favorites@.len() ==> (#[trigger] store.favorites@[k]).article_id
                    != id) by {
                assert forall|k: int|
                    0 <= k < store.favorites@.len() implies (
                #[trigger] store.favorites@[k]).article_id != id by {
                    let a = choose|a: int|
                        0 <= a < old_articles.len() && (#[trigger] old_articles[a]).id
                            == store.favorites@[k].article_id;
                    assert(old_articles[a].id < id);
                }
            }
            lemma_fav_count_none(store.favorites@, id);
            assert forall|i: int|
                0 <= i < store.articles@.len() implies (
            #[trigger] store.articles@[i]).favorites_count as int == fav_count(
                store.favorites@,
                store.articles@[i].id,
            ) by {
                if i < old_articles.len() {
                    assert(store.articles@[i] == old_articles[i]);
                }
            }
            assert forall|k: int|
                0 <= k < store.favorites@.len() implies has_article_id(
                store.articles@,
                (#[trigger] store.favorites@[k]).article_id,
            ) by {
                lemma_has_article_id_push(
                    old_articles,
                    store.articles@.last(),
                    store.favorites@[k].article_id,
                );
            }
        }
        let a = store.articles[store.articles.len() - 1].to_article(
            &store.users[author_idx],
            false,
            false,
        );
        Ok(ArticleBody { article: a })
    }

    /// Updates the article with the given slug: each given field replaces
    /// the stored one, a new title also rewrites the slug, and only the
    /// author may update. A rewritten slug that another article already
    /// carries is a conflict.
    pub fn update_article(
        store: &mut Store,
        auth: &AuthUser,
        slug: &str,
        input: ArticleUpdateInput,
        now: i64,
    ) -> (r: Result<ArticleBody<Article>, AppError>)
        requires
            old(store).wf(),
        ensures
            final(store).wf(),
            final(store).users == old(store).users,
            final(store).comments == old(store).comments,
            final(store).follows == old(store).follows,
            final(store).favorites == old(store).favorites,
            final(store).next_user_id == old(store).next_user_id,
            final(store).next_article_id == old(store).next_article_id,
            final(store).next_comment_id == old(store).next_comment_id,
            match r {
                Ok(body) => exists|i: int|
                    {
                        &&& 0 <= i < old(store).articles@.len()
                        &&& (#[trigger] old(store).articles@[i]).slug@ == slug@
                        &&& old(store).articles@[i].author_id == auth.user_id
                        &&& final(store).articles@ == old(store).articles@.update(
                            i,
                            final(store).articles@[i],
                        )
                        &&& article_updated(
                            old(store).articles@[i],
                            final(store).articles@[i],
                            input,
                            now,
                        )
                        &&& exists|u: int|
                            0 <= u < old(store).users@.len() && (#[trigger] old(
                                store,
                            ).users@[u]).id == auth.user_id && article_matches(
                                body.article,
                                final(store).articles@[i],
                                old(store).users@[u],
                                false,
                                false,
                            )
                    },
                Err(e) => {
                    &&& *final(store) == *old(store)
                    &&& (e is NotFound || e is BadRequest || e is Conflict)
                    &&& (e is NotFound) == !has_article_slug(old(store).articles@, slug@)
                    &&& (e is BadRequest) == (has_article_slug(old(store).articles@, slug@)
                        && !author_of_slug(old(store).articles@, slug@, auth.user_id))
                    &&& (e is Conflict) == (author_of_slug(old(store).articles@, slug@, auth.user_id)
                        && update_slug_conflict(old(store).articles@, slug@, input))
                },
            },
            (r is Ok) == (author_of_slug(old(store).articles@, slug@, auth.user_id)
                && !update_slug_conflict(old(store).articles@, slug@, input)),
    {
        let idx = match find_article_by_slug(&store.articles, slug) {
            Some(i) => i,
            None => {
                return Err(AppError::NotFound("Article not found".to_owned()));
            },
        };
        if store.articles[idx].author_id != auth.user_id {
            proof {
                assert forall|i: int|
                    0 <= i < store.articles@.len() && (#[trigger] store.articles@[i]).slug@
                        == slug@ implies store.articles@[i].author_id != auth.user_id by {
                    if i != idx {
                        assert(store.articles@[i].slug@ != store.articles@[idx as int].slug@);
                    }
                }
            }
            return Err(AppError::BadRequest("You are not the author of this article".to_owned()));
        }
        let ghost old_articles = store.articles@;
        let ArticleUpdateInput { title, description, body } = input;
        match title {
            Some(t) => {
                let ns = Self::slugify(t.as_str());
                if !str_eq(ns.as_str(), store.articles[idx].slug.as_str()) {
                    if let Some(_) = find_article_by_slug(&store.articles, ns.as_str()) {
                        return Err(AppError::Conflict(
                            "An article with this slug already exists".to_owned(),
                        ));
                    }
                }
                store.articles[idx].slug = ns;
                store.articles[idx].title = t;
            },
            None => {},
        }
        proof {
            assert forall|k: int|
                0 <= k < store.articles@.len() && k != idx implies (
            #[trigger] store.articles@[k]).slug@ != store.articles@[idx as int].slug@ by {
                assert(store.articles@[k] == old_articles[k]);
            }
        }
        if let Some(d) = description {
            store.articles[idx].description = d;
        }
        if let Some(b) = body {
            store.articles[idx].body = b;
        }
        store.articles[idx].updated_at = now;
        proof {
            assert(store.articles@ =~= old_articles.update(idx as int, store.articles@[idx as int]));
            assert forall|i: int|
                0 <= i < store.articles@.len() implies has_user_id(
                store.users@,
                (#[trigger] store.articles@[i]).author_id,
            ) by {
                if i != idx {
                    assert(store.articles@[i] == old_articles[i]);
                } else {
                    assert(store.articles@[i].author_id == old_articles[i].author_id);
                }
            }
            assert forall|i: int|
                0 <= i < store.articles@.len() implies (
            #[trigger] store.articles@[i]).favorites_count as int == fav_count(
                store.favorites@,
                store.articles@[i].id,
            ) by {
                if i != idx {
                    assert(store.articles@[i] == old_articles[i]);
                } else {
                    assert(store.articles@[i].id == old_articles[i].id);
                    assert(store.articles@[i].favorites_count == old_articles[i].favorites_count);
                }
            }
            assert forall|k: int|
                0 <= k < store.favorites@.len() implies has_article_id(
                store.articles@,
                (#[trigger] store.favorites@[k]).article_id,
            ) by {
                lemma_has_article_id_same_ids(
                    old_articles,
                    store.articles@,
                    store.favorites@[k].article_id,
                );
            }
        }
        let author_idx = match find_user_by_id(&store.users, auth.user_id) {
            Some(i) => i,
            None => {
                proof {
                    assert(false);
                }
                return Err(AppError::Internal("Author record is missing".to_owned()));
            },
        };
        let a = store.articles[idx].to_article(&store.users[author_idx], false, false);
        Ok(ArticleBody { article: a })
    }

    /// Soft-deletes the article with the given slug: only the author may
    /// delete; the slug is rewritten to the decimal rendering of a 64-bit
    /// hash of itself, so the human-readable slug becomes free for reuse
    /// while every live slug stays unique; the deletion timestamp is set.
    pub fn delete_article(store: &mut Store, auth: &AuthUser, slug: &str, now: i64) -> (r: Result<
        String,
        AppError,
    >)
        requires
            old(store).wf(),
        ensures
            final(store).wf(),
            final(store).users == old(store).users,
            final(store).comments == old(store).comments,
            final(store).follows == old(store).follows,
            final(store).favorites == old(store).favorites,
            final(store).next_user_id == old(store).next_user_id,
            final(store).next_article_id == old(store).next_article_id,
            final(store).next_comment_id == old(store).next_comment_id,
            match r {
                Ok(msg) => msg@ == "Article deleted"@ && exists|i: int|
                    {
                        &&& 0 <= i < old(store).articles@.len()
                        &&& (#[trigger] old(store).articles@[i]).slug@ == slug@
                        &&& old(store).articles@[i].author_id == auth.user_id
                        &&& final(store).articles@ == old(store).articles@.update(
                            i,
                            final(store).articles@[i],
                        )
                        &&& soft_deleted(old(store).articles@[i], final(store).articles@[i], now)
                    },
                Err(e) => {
                    &&& *final(store) == *old(store)
                    &&& (e is NotFound || e is BadRequest || e is Conflict)
                    &&& (e is NotFound) == !has_article_slug(old(store).articles@, slug@)
                    &&& (e is BadRequest) == (has_article_slug(old(store).articles@, slug@)
                        && !author_of_slug(old(store).articles@, slug@, auth.user_id))
                    &&& (e is Conflict) == (author_of_slug(old(store).articles@, slug@, auth.user_id)
                        && recycle_conflict(old(store).articles@, slug@))
                },
            },
            (r is Ok) == (author_of_slug(old(store).articles@, slug@, auth.user_id)
                && !recycle_conflict(old(store).articles@, slug@)),
    {
        let idx = match find_article_by_slug(&store.articles, slug) {
            Some(i) => i,
            None => {
                return Err(AppError::NotFound("Article not found".to_owned()));
            },
        };
        if store.articles[idx].author_id != auth.user_id {
            proof {
                assert forall|i: int|
                    0 <= i < store.articles@.len() && (#[trigger] store.articles@[i]).slug@
                        == slug@ implies store.articles@[i].author_id != auth.user_id by {
                    if i != idx {
                        assert(store.articles@[i].slug@ != store.articles@[idx as int].slug@);
                    }
                }
            }
            return Err(AppError::BadRequest("You are not the author of this article".to_owned()));
        }
        let hash = Self::slug_hash(store.articles[idx].slug.as_str());
        let ns = u64_to_dec(hash);
        if !str_eq(ns.as_str(), store.articles[idx].slug.as_str()) {
            if let Some(_) = find_article_by_slug(&store.articles, ns.as_str()) {
                return Err(AppError::Conflict(
                    "The recycled slug is already in use".to_owned(),
                ));
            }
        }
        let ghost old_articles = store.articles@;
        store.articles[idx].slug = ns;
        store.articles[idx].deleted_at = Some(now);
        proof {
            assert(store.articles@ =~= old_articles.update(idx as int, store.articles@[idx as int]));
            assert forall|k: int|
                0 <= k < store.articles@.len() && k != idx implies (
            #[trigger] store.articles@[k]).slug@ != store.articles@[idx as int].slug@ by {
                assert(store.articles@[k] == old_articles[k]);
            }
            assert forall|i: int|
                0 <= i < store.articles@.len() implies has_user_id(
                store.users@,
                (#[trigger] store.articles@[i]).author_id,
            ) by {
                if i != idx {
                    assert(store.articles@[i] == old_articles[i]);
                } else {
                    assert(store.articles@[i].author_id == old_articles[i].author_id);
                }
            }
            assert forall|i: int|
                0 <= i < store.articles@.len() implies (
            #[trigger] store.articles@[i]).favorites_count as int == fav_count(
                store.favorites@,
                store.articles@[i].id,
            ) by {
                if i != idx {
                    assert(store.articles@[i] == old_articles[i]);
                } else {
                    assert(store.articles@[i].id == old_articles[i].id);
                    assert(store.articles@[i].favorites_count == old_articles[i].favorites_count);
                }
            }
            assert forall|k: int|
                0 <= k < store.favorites@.len() implies has_article_id(
                store.articles@,
                (#[trigger] store.favorites@[k]).article_id,
            ) by {
                lemma_has_article_id_same_ids(
                    old_articles,
                    store.articles@,
                    store.favorites@[k].article_id,
                );
            }
        }
        Ok("Article deleted".to_owned())
    }

    /// Favorites the article with the given slug as the acting user: an
    /// absent edge is created and the counter rises by exactly one; a
    /// present edge leaves both the edges and the counter untouched.
    pub fn favorite_article(store: &mut Store, auth: &AuthUser, slug: &str) -> (r: Result<
        ArticleBody<Article>,
        AppError,
    >)
        requires
            old(store).wf(),
            old(store).favorites@.len() < i32::MAX,
        ensures
            final(store).wf(),
            final(store).users == old(store).users,
            final(store).comments == old(store).comments,
            final(store).follows == old(store).follows,
            final(store).next_user_id == old(store).next_user_id,
            final(store).next_article_id == old(store).next_article_id,
            final(store).next_comment_id == old(store).next_comment_id,
            match r {
                Ok(body) => exists|i: int|
                    {
                        &&& 0 <= i < old(store).articles@.len()
                        &&& (#[trigger] old(store).articles@[i]).slug@ == slug@
                        &&& final(store).favorites@ == add_edge(
                            old(store).favorites@,
                            FavoriteEdge {
                                user_id: auth.user_id,
                                article_id: old(store).articles@[i].id,
                            },
                        )
                        &&& final(store).articles@ == old(store).articles@.update(
                            i,
                            final(store).articles@[i],
                        )
                        &&& counted(
                            old(store).articles@[i],
                            final(store).articles@[i],
                            if has_favorite(
                                old(store).favorites@,
                                auth.user_id,
                                old(store).articles@[i].id,
                            ) {
                                0int
                            } else {
                                1int
                            },
                        )
                        &&& exists|u: int|
                            0 <= u < old(store).users@.len() && (#[trigger] old(
                                store,
                            ).users@[u]).id == old(store).articles@[i].author_id
                                && article_matches(
                                body.article,
                                final(store).articles@[i],
                                old(store).users@[u],
                                true,
                                has_follow(
                                    old(store).follows@,
                                    old(store).articles@[i].author_id,
                                    auth.user_id,
                                ),
                            )
                    },
                Err(e) => {
                    &&& *final(store) == *old(store)
                    &&& e is NotFound
                },
            },
            (r is Ok) == has_article_slug(old(store).articles@, slug@),
    {
        let idx = match find_article_by_slug(&store.articles, slug) {
            Some(i) => i,
            None => {
                return Err(AppError::NotFound("Article not found".to_owned()));
            },
        };
        let aid = store.articles[idx].id;
        let ghost old_favs = store.favorites@;
        let ghost old_articles = store.articles@;
        match find_favorite(&store.favorites, auth.user_id, aid) {
            Some(_) => {
                proof {
                    let edge = FavoriteEdge { user_id: auth.user_id, article_id: aid };
                    assert(add_edge(old_favs, edge) == old_favs);
                    assert(store.articles@ =~= old_articles.update(
                        idx as int,
                        store.articles@[idx as int],
                    ));
                }
            },
            None => {
                let edge = FavoriteEdge { user_id: auth.user_id, article_id: aid };
                store.favorites.push(edge);
                let c = store.articles[idx].favorites_count;
                proof {
                    assert(c as int == fav_count(old_favs, aid));
                    assert(old_favs.filter(fav_pred(aid)).len() <= old_favs.len());
                    assert(c < i32::MAX);
                }
                store.articles[idx].favorites_count = c + 1;
                proof {
                    assert(store.favorites@ == old_favs.push(edge));
                    assert(store.articles@ =~= old_articles.update(
                        idx as int,
                        store.articles@[idx as int],
                    ));
                    assert(forall|k: int| 0 <= k < old_favs.len() ==> old_favs[k] != edge);
                    assert(forall|k: int|
                        0 <= k < old_favs.len() ==> store.favorites@[k] == old_favs[k]);
                    assert(store.favorites@[old_favs.len() as int] == edge);
                    assert forall|i: int|
                        0 <= i < store.articles@.len() implies (
                    #[trigger] store.articles@[i]).favorites_count as int == fav_count(
                        store.favorites@,
                        store.articles@[i].id,
                    ) by {
                        lemma_fav_count_push(old_favs, edge, store.articles@[i].id);
                        if i != idx {
                            assert(store.articles@[i] == old_articles[i]);
                            assert(old_articles[i].id != old_articles[idx as int].id);
                        }
                    }
                    assert forall|k: int|
                        0 <= k < store.favorites@.len() implies has_article_id(
                        store.articles@,
                        (#[trigger] store.favorites@[k]).article_id,
                    ) by {
                        if k < old_favs.len() {
                            lemma_has_article_id_same_ids(
                                old_articles,
                                store.articles@,
                                old_favs[k].article_id,
                            );
                        } else {
                            assert(store.articles@[idx as int].id == aid);
                        }
                    }
                    assert forall|i: int|
                        0 <= i < store.articles@.len() implies has_user_id(
                        store.users@,
                        (#[trigger] store.articles@[i]).author_id,
                    ) by {
                        if i != idx {
                            assert(store.articles@[i] == old_articles[i]);
                        } else {
                            assert(store.articles@[i].author_id == old_articles[i].author_id);
                        }
                    }
                    assert forall|a: int, b: int|
                        0 <= a < store.articles@.len() && 0 <= b < store.articles@.len() && a
                            != b implies {
                        &&& (#[trigger] store.articles@[a]).id != (#[trigger] store.articles@[b]).id
                        &&& store.articles@[a].slug@ != store.articles@[b].slug@
                    } by {
                        assert(old_articles[a].id != old_articles[b].id);
                        assert(store.articles@[a].id == old_articles[a].id);
                        assert(store.articles@[a].slug@ == old_articles[a].slug@);
                        assert(store.articles@[b].id == old_articles[b].id);
                        assert(store.articles@[b].slug@ == old_articles[b].slug@);
                    }
                }
            },
        }
        let following = match find_follow(&store.follows, store.articles[idx].author_id, auth.user_id) {
            Some(_) => true,
            None => false,
        };
        let author_idx = match find_user_by_id(&store.users, store.articles[idx].author_id) {
            Some(i) => i,
            None => {
                proof {
                    assert(false);
                }
                return Err(AppError::Internal("Author record is missing".to_owned()));
            },
        };
        let a = store.articles[idx].to_article(&store.users[author_idx], true, following);
        Ok(ArticleBody { article: a })
    }

    /// Unfavorites the article with the given slug as the acting user: a
    /// present edge is removed and the counter falls by exactly one; a
    /// missing edge is a no-op success.
    pub fn unfavorite_article(store: &mut Store, auth: &AuthUser, slug: &str) -> (r: Result<
        ArticleBody<Article>,
        AppError,
    >)
        requires
            old(store).wf(),
        ensures
            final(store).wf(),
            final(store).users == old(store).users,
            final(store).comments == old(store).comments,
            final(store).follows == old(store).follows,
            final(store).next_user_id == old(store).next_user_id,
            final(store).next_article_id == old(store).next_article_id,
            final(store).next_comment_id == old(store).next_comment_id,
            match r {
                Ok(body) => exists|i: int|
                    {
                        &&& 0 <= i < old(store).articles@.len()
                        &&& (#[trigger] old(store).articles@[i]).slug@ == slug@
                        &&& final(store).favorites@ == remove_edge(
                            old(store).favorites@,
                            FavoriteEdge {
                                user_id: auth.user_id,
                                article_id: old(store).articles@[i].id,
                            },
                        )
                        &&& final(store).articles@ == old(store).articles@.update(
                            i,
                            final(store).articles@[i],
                        )
                        &&& counted(
                            old(store).articles@[i],
                            final(store).articles@[i],
                            if has_favorite(
                                old(store).favorites@,
                                auth.user_id,
                                old(store).articles@[i].id,
                            ) {
                                -1int
                            } else {
                                0int
                            },
                        )
                        &&& exists|u: int|
                            0 <= u < old(store).users@.len() && (#[trigger] old(
                                store,
                            ).users@[u]).id == old(store).articles@[i].author_id
                                && article_matches(
                                body.article,
                                final(store).articles@[i],
                                old(store).users@[u],
                                false,
                                has_follow(
                                    old(store).follows@,
                                    old(store).articles@[i].author_id,
                                    auth.user_id,
                                ),
                            )
                    },
                Err(e) => {
                    &&& *final(store) == *old(store)
                    &&& e is NotFound
                },
            },
            (r is Ok) == has_article_slug(old(store).articles@, slug@),
    {
        let idx = match find_article_by_slug(&store.articles, slug) {
            Some(i) => i,
            None => {
                return Err(AppError::NotFound("Article not found".to_owned()));
            },
        };
        let aid = store.articles[idx].id;
        let ghost old_favs = store.favorites@;
        let ghost old_articles = store.articles@;
        match find_favorite(&store.favorites, auth.user_id, aid) {
            Some(fi) => {
                let edge = FavoriteEdge { user_id: auth.user_id, article_id: aid };
                store.favorites.remove(fi);
                let c = store.articles[idx].favorites_count;
                proof {
                    lemma_remove_edge_unique(old_favs, fi as int, edge);
                    lemma_fav_count_remove(old_favs, fi as int, aid);
                    assert(c as int == fav_count(old_favs, aid));
                    assert(fav_count(store.favorites@, aid) == c - 1);
                    assert(c >= 1);
                }
                store.articles[idx].favorites_count = c - 1;
                proof {
                    assert(store.articles@ =~= old_articles.update(
                        idx as int,
                        store.articles@[idx as int],
                    ));
                    assert forall|i: int|
                        0 <= i < store.articles@.len() implies (
                    #[trigger] store.articles@[i]).favorites_count as int == fav_count(
                        store.favorites@,
                        store.articles@[i].id,
                    ) by {
                        lemma_fav_count_remove(old_favs, fi as int, store.articles@[i].id);
                        if i != idx {
                            assert(store.articles@[i] == old_articles[i]);
                            assert(old_articles[i].id != old_articles[idx as int].id);
                        }
                    }
                    assert forall|a: int, b: int|
                        0 <= a < store.favorites@.len() && 0 <= b < store.favorites@.len() && a
                            != b implies (#[trigger] store.favorites@[a]) != (
                    #[trigger] store.favorites@[b]) by {
                        let a0: int = if a < fi {
                            a
                        } else {
                            a + 1
                        };
                        let b0: int = if b < fi {
                            b
                        } else {
                            b + 1
                        };
                        assert(store.favorites@[a] == old_favs[a0]);
                        assert(store.favorites@[b] == old_favs[b0]);
                    }
                    assert forall|k: int|
                        0 <= k < store.favorites@.len() implies has_article_id(
                        store.articles@,
                        (#[trigger] store.favorites@[k]).article_id,
                    ) by {
                        let k0: int = if k < fi {
                            k
                        } else {
                            k + 1
                        };
                        assert(store.favorites@[k] == old_favs[k0]);
                        lemma_has_article_id_same_ids(
                            old_articles,
                            store.articles@,
                            old_favs[k0].article_id,
                        );
                    }
                    assert forall|i: int|
                        0 <= i < store.articles@.len() implies has_user_id(
                        store.users@,
                        (#[trigger] store.articles@[i]).author_id,
                    ) by {
                        if i != idx {
                            assert(store.articles@[i] == old_articles[i]);
                        } else {
                            assert(store.articles@[i].author_id == old_articles[i].author_id);
                        }
                    }
                    assert forall|a: int, b: int|
                        0 <= a < store.articles@.len() && 0 <= b < store.articles@.len() && a
                            != b implies {
                        &&& (#[trigger] store.articles@[a]).id != (#[trigger] store.articles@[b]).id
                        &&& store.articles@[a].slug@ != store.articles@[b].slug@
                    } by {
                        assert(old_articles[a].id != old_articles[b].id);
                        assert(store.articles@[a].id == old_articles[a].id);
                        assert(store.articles@[a].slug@ == old_articles[a].slug@);
                        assert(store.articles@[b].id == old_articles[b].id);
                        assert(store.articles@[b].slug@ == old_articles[b].slug@);
                    }
                }
            },
            None => {
                proof {
                    let edge = FavoriteEdge { user_id: auth.user_id, article_id: aid };
                    lemma_remove_edge_absent(old_favs, edge);
                    assert(store.articles@ =~= old_articles.update(
                        idx as int,
                        store.articles@[idx as int],
                    ));
                }
            },
        }
        let following = match find_follow(&store.follows, store.articles[idx].author_id, auth.user_id) {
            Some(_) => true,
            None => false,
        };
        let author_idx = match find_user_by_id(&store.users, store.articles[idx].author_id) {
            Some(i) => i,
            None => {
                proof {
                    assert(false);
                }
                return Err(AppError::Internal("Author record is missing".to_owned()));
            },
        };
        let a = store.articles[idx].to_article(&store.users[author_idx], false, following);
        Ok(ArticleBody { article: a })
    }

    /// Looks up the article with the given slug; the favorited and following
    /// flags reflect the viewer, or are false for an anonymous viewer. A
    /// soft-deleted article is unreachable here: its slug was rewritten.
    pub fn get_article(store: &Store, auth: &OptionalAuthUser, slug: &str) -> (r: Result<
        ArticleBody<Article>,
        AppError,
    >)
        requires
            store.wf(),
        ensures
            match r {
                Ok(body) => exists|i: int|
                    {
                        &&& 0 <= i < store.articles@.len()
                        &&& (#[trigger] store.articles@[i]).slug@ == slug@
                        &&& exists|u: int|
                            0 <= u < store.users@.len() && (#[trigger] store.users@[u]).id
                                == store.articles@[i].author_id && article_matches(
                                body.article,
                                store.articles@[i],
                                store.users@[u],
                                match auth.0 {
                                    Some(au) => has_favorite(
                                        store.favorites@,
                                        au.user_id,
                                        store.articles@[i].id,
                                    ),
                                    None => false,
                                },
                                match auth.0 {
                                    Some(au) => has_follow(
                                        store.follows@,
                                        store.articles@[i].author_id,
                                        au.user_id,
                                    ),
                                    None => false,
                                },
                            )
                    },
                Err(e) => e is NotFound && !has_article_slug(store.articles@, slug@),
            },
            (r is Ok) == has_article_slug(store.articles@, slug@),
    {
        let idx = match find_article_by_slug(&store.articles, slug) {
            Some(i) => i,
            None => {
                return Err(AppError::NotFound("Article not found".to_owned()));
            },
        };
        let (favorited, following) = match &auth.0 {
            Some(au) => {
                let f = match find_favorite(&store.favorites, au.user_id, store.articles[idx].id) {
                    Some(_) => true,
                    None => false,
                };
                let g = match find_follow(
                    &store.follows,
                    store.articles[idx].author_id,
                    au.user_id,
                ) {
                    Some(_) => true,
                    None => false,
                };
                (f, g)
            },
            None => (false, false),
        };
        let author_idx = match find_user_by_id(&store.users, store.articles[idx].author_id) {
            Some(i) => i,
            None => {
                proof {
                    assert(false);
                }
                return Err(AppError::Internal("Author record is missing".to_owned()));
            },
        };
        let a = store.articles[idx].to_article(&store.users[author_idx], favorited, following);
        Ok(ArticleBody { article: a })
    }

    /// Creates a comment on the article with the given slug, authored by the
    /// acting user.
    pub fn create_comment(
        store: &mut Store,
        auth: &AuthUser,
        slug: &str,
        input: CommentCreateInput,
        now: i64,
    ) -> (r: Result<CommentBody<Comment>, AppError>)
        requires
            old(store).wf(),
            old(store).next_comment_id < i32::MAX,
        ensures
            final(store).wf(),
            final(store).users == old(store).users,
            final(store).articles == old(store).articles,
            final(store).follows == old(store).follows,
            final(store).favorites == old(store).favorites,
            final(store).next_user_id == old(store).next_user_id,
            final(store).next_article_id == old(store).next_article_id,
            match r {
                Ok(body) => {
                    &&& final(store).comments@ == old(store).comments@.push(
                        final(store).comments@.last(),
                    )
                    &&& final(store).comments@.last().id == old(store).next_comment_id
                    &&& final(store).comments@.last().body == input.body
                    &&& final(store).comments@.last().author_id == auth.user_id
                    &&& exists|i: int|
                        0 <= i < old(store).articles@.len() && (#[trigger] old(
                            store,
                        ).articles@[i]).slug@ == slug@ && final(store).comments@.last().article_id
                            == old(store).articles@[i].id
                    &&& final(store).comments@.last().created_at == now
                    &&& final(store).comments@.last().updated_at == now
                    &&& final(store).comments@.last().deleted_at is None
                    &&& final(store).next_comment_id == old(store).next_comment_id + 1
                    &&& exists|u: int|
                        0 <= u < old(store).users@.len() && (#[trigger] old(store).users@[u]).id
                            == auth.user_id && comment_matches(
                            body.comment,
                            final(store).comments@.last(),
                            old(store).users@[u],
                            false,
                        )
                },
                Err(e) => {
                    &&& *final(store) == *old(store)
                    &&& e is NotFound
                },
            },
            (r is Ok) == (has_article_slug(old(store).articles@, slug@) && has_user_id(
                old(store).users@,
                auth.user_id,
            )),
    {
        let aidx = match find_article_by_slug(&store.articles, slug) {
            Some(i) => i,
            None => {
                return Err(AppError::NotFound("Article not found".to_owned()));
            },
        };
        let uidx = match find_user_by_id(&store.users, auth.user_id) {
            Some(i) => i,
            None => {
                return Err(AppError::NotFound("User not found".to_owned()));
            },
        };
        let id = store.next_comment_id;
        let record = CommentRecord {
            id,
            body: input.body,
            author_id: auth.user_id,
            article_id: store.articles[aidx].id,
            created_at: now,
            updated_at: now,
            deleted_at: None,
        };
        let ghost old_comments = store.comments@;
        store.comments.push(record);
        store.next_comment_id = id + 1;
        proof {
            assert(forall|k: int|
                0 <= k < old_comments.len() ==> store.comments@[k] == old_comments[k]);
            assert forall|a: int, b: int|
                0 <= a < store.comments@.len() && 0 <= b < store.comments@.len() && a != b implies (
            #[trigger] store.comments@[a]).id != (#[trigger] store.comments@[b]).id by {
                if a < old_comments.len() && b < old_comments.len() {
                    assert(old_comments[a].id != old_comments[b].id);
                } else if a < old_comments.len() {
                    assert(old_comments[a].id < id);
                } else {
                    assert(old_comments[b].id < id);
                }
            }
            assert forall|i: int|
                0 <= i < store.comments@.len() implies has_user_id(
                store.users@,
                (#[trigger] store.comments@[i]).author_id,
            ) by {
                if i < old_comments.len() {
                    assert(store.comments@[i] == old_comments[i]);
                } else {
                    assert(store.users@[uidx as int].id == auth.user_id);
                }
            }
        }
        let c = store.comments[store.comments.len() - 1].to_comment(&store.users[uidx], false);
        Ok(CommentBody { comment: c })
    }

    /// Lists the live comments of the article with the given slug, oldest
    /// first. The following flag on every comment reflects whether the
    /// viewer follows the article's author.
    pub fn get_comments(store: &Store, auth: &OptionalAuthUser, slug: &str) -> (r: Result<
        CommentsBody<Comment>,
        AppError,
    >)
        requires
            store.wf(),
        ensures
            match r {
                Ok(body) => exists|i: int|
                    {
                        &&& 0 <= i < store.articles@.len()
                        &&& (#[trigger] store.articles@[i]).slug@ == slug@
                        &&& body.comments@.len() == store.comments@.filter(
                            live_comment_pred(store.articles@[i].id),
                        ).len()
                        &&& forall|k: int|
                            0 <= k < body.comments@.len() ==> comment_rendered(
                                #[trigger] body.comments@[k],
                                store.comments@.filter(live_comment_pred(store.articles@[i].id))[k],
                                store.users@,
                                match auth.0 {
                                    Some(au) => has_follow(
                                        store.follows@,
                                        store.articles@[i].author_id,
                                        au.user_id,
                                    ),
                                    None => false,
                                },
                            )
                    },
                Err(e) => e is NotFound && !has_article_slug(store.articles@, slug@),
            },
            (r is Ok) == has_article_slug(store.articles@, slug@),
    {
        let aidx = match find_article_by_slug(&store.articles, slug) {
            Some(i) => i,
            None => {
                return Err(AppError::NotFound("Article not found".to_owned()));
            },
        };
        let aid = store.articles[aidx].id;
        let following = match &auth.0 {
            Some(au) => match find_follow(&store.follows, store.articles[aidx].author_id, au.user_id) {
                Some(_) => true,
                None => false,
            },
            None => false,
        };
        let ghost flag = following;
        let mut out: Vec<Comment> = Vec::new();
        let mut i: usize = 0;
        while i < store.comments.len()
            invariant
                i <= store.comments@.len(),
                store.wf(),
                aidx < store.articles@.len(),
                aid == store.articles@[aidx as int].id,
                flag == following,
                out@.len() == store.comments@.subrange(0, i as int).filter(
                    live_comment_pred(aid),
                ).len(),
                forall|k: int|
                    0 <= k < out@.len() ==> comment_rendered(
                        #[trigger] out@[k],
                        store.comments@.subrange(0, i as int).filter(live_comment_pred(aid))[k],
                        store.users@,
                        flag,
                    ),
            decreases store.comments@.len() - i,
        {
            let ghost pre = store.comments@.subrange(0, i as int);
            let is_live = store.comments[i].article_id == aid && store.comments[i].deleted_at.is_none();
            if is_live {
                let uidx = match find_user_by_id(&store.users, store.comments[i].author_id) {
                    Some(u) => u,
                    None => {
                        proof {
                            assert(false);
                        }
                        return Err(AppError::Internal("Author record is missing".to_owned()));
                    },
                };
                out.push(store.comments[i].to_comment(&store.users[uidx], following));
            }
            proof {
                reveal(Seq::filter);
                let cur = store.comments@.subrange(0, i + 1 as int);
                assert(cur.drop_last() =~= pre);
                assert(cur.last() == store.comments@[i as int]);
                assert(live_comment_pred(aid)(cur.last()) == is_live);
                if is_live {
                    assert(cur.filter(live_comment_pred(aid)) == pre.filter(
                        live_comment_pred(aid),
                    ).push(cur.last()));
                } else {
                    assert(cur.filter(live_comment_pred(aid)) == pre.filter(live_comment_pred(aid)));
                }
            }
            i = i + 1;
        }
        proof {
            assert(store.comments@.subrange(0, store.comments@.len() as int) =~= store.comments@);
        }
        Ok(CommentsBody { comments: out })
    }

    /// Soft-deletes the comment with the given id: only its author may
    /// delete; the deletion timestamp is set and everything else is kept.
    pub fn delete_comment(store: &mut Store, auth: &AuthUser, comment_id: i32, now: i64) -> (r:
        Result<String, AppError>)
        requires
            old(store).wf(),
        ensures
            final(store).wf(),
            final(store).users == old(store).users,
            final(store).articles == old(store).articles,
            final(store).follows == old(store).follows,
            final(store).favorites == old(store).favorites,
            final(store).next_user_id == old(store).next_user_id,
            final(store).next_article_id == old(store).next_article_id,
            final(store).next_comment_id == old(store).next_comment_id,
            match r {
                Ok(msg) => msg@ == "Comment deleted"@ && exists|i: int|
                    {
                        &&& 0 <= i < old(store).comments@.len()
                        &&& (#[trigger] old(store).comments@[i]).id == comment_id
                        &&& old(store).comments@[i].author_id == auth.user_id
                        &&& final(store).comments@ == old(store).comments@.update(
                            i,
                            final(store).comments@[i],
                        )
                        &&& comment_deleted(old(store).comments@[i], final(store).comments@[i], now)
                    },
                Err(e) => {
                    &&& *final(store) == *old(store)
                    &&& (e is NotFound || e is BadRequest)
                    &&& (e is NotFound) == !has_comment_id(old(store).comments@, comment_id)
                    &&& (e is BadRequest) == (has_comment_id(old(store).comments@, comment_id)
                        && !comment_author_is(old(store).comments@, comment_id, auth.user_id))
                },
            },
            (r is Ok) == comment_author_is(old(store).comments@, comment_id, auth.user_id),
    {
        let idx = match find_comment_by_id(&store.comments, comment_id) {
            Some(i) => i,
            None => {
                return Err(AppError::NotFound("Comment not found".to_owned()));
            },
        };
        if store.comments[idx].author_id != auth.user_id {
            proof {
                assert forall|i: int|
                    0 <= i < store.comments@.len() && (#[trigger] store.comments@[i]).id
                        == comment_id implies store.comments@[i].author_id != auth.user_id by {
                    if i != idx {
                        assert(store.comments@[i].id != store.comments@[idx as int].id);
                    }
                }
            }
            return Err(AppError::BadRequest("You are not the author of this comment".to_owned()));
        }
        let ghost old_comments = store.comments@;
        store.comments[idx].deleted_at = Some(now);
        proof {
            assert(store.comments@ =~= old_comments.update(idx as int, store.comments@[idx as int]));
            assert forall|a: int, b: int|
                0 <= a < store.comments@.len() && 0 <= b < store.comments@.len() && a != b implies (
            #[trigger] store.comments@[a]).id != (#[trigger] store.comments@[b]).id by {
                assert(old_comments[a].id != old_comments[b].id);
                assert(store.comments@[a].id == old_comments[a].id);
                assert(store.comments@[b].id == old_comments[b].id);
            }
            assert forall|i: int|
                0 <= i < store.comments@.len() implies has_user_id(
                store.users@,
                (#[trigger] store.comments@[i]).author_id,
            ) by {
                if i != idx {
                    assert(store.comments@[i] == old_comments[i]);
                } else {
                    assert(store.comments@[i].author_id == old_comments[i].author_id);
                }
            }
        }
        Ok("Comment deleted".to_owned())
    }

    /// Collects, pages and renders the articles a listing selects.
    fn paginate(store: &Store, q: &ArticleListQuery, feed: Option<i32>, viewer: Option<i32>) -> (r:
        ArticlesBody<Article>)
        requires
            store.wf(),
        ensures
            ({
                let sel = listed(*store, *q, feed);
                let start = page_start(q.offset, sel.len() as int);
                &&& r.articles_count as int == sel.len()
                &&& r.articles@.len() == page_len(q.limit, sel.len() - start)
                &&& forall|k: int|
                    0 <= k < r.articles@.len() ==> article_rendered(
                        #[trigger] r.articles@[k],
                        sel[start + k],
                        store.users@,
                        store.favorites@,
                        store.follows@,
                        viewer,
                    )
            }),
    {
        let ghost p = sel_pred(*store, *q, feed);
        let mut matching: Vec<usize> = Vec::new();
        let mut i: usize = 0;
        while i < store.articles.len()
            invariant
                store.wf(),
                i <= store.articles@.len(),
                p == sel_pred(*store, *q, feed),
                matching@.len() == store.articles@.subrange(0, i as int).filter(p).len(),
                forall|k: int|
                    0 <= k < matching@.len() ==> (#[trigger] matching@[k]) < i
                        && store.articles@[matching@[k] as int] == store.articles@.subrange(
                        0,
                        i as int,
                    ).filter(p)[k],
            decreases store.articles@.len() - i,
        {
            let ghost pre = store.articles@.subrange(0, i as int);
            let m1 = Self::matches_query(store, q, i);
            let m2 = match feed {
                Some(v) => match find_follow(&store.follows, store.articles[i].author_id, v) {
                    Some(_) => true,
                    None => false,
                },
                None => true,
            };
            let m = m1 && m2;
            proof {
                assert(m == p(store.articles@[i as int]));
            }
            if m {
                matching.push(i);
            }
            proof {
                reveal(Seq::filter);
                let cur = store.articles@.subrange(0, i + 1 as int);
                assert(cur.drop_last() =~= pre);
                assert(cur.last() == store.articles@[i as int]);
                if m {
                    assert(cur.filter(p) == pre.filter(p).push(cur.last()));
                } else {
                    assert(cur.filter(p) == pre.filter(p));
                }
            }
            i = i + 1;
        }
        proof {
            assert(store.articles@.subrange(0, store.articles@.len() as int) =~= store.articles@);
        }
        let total = matching.len();
        let start: usize = match &q.offset {
            Some(v) => {
                if *v <= 0 {
                    0
                } else if (*v as u64) >= (total as u64) {
                    total
                } else {
                    *v as usize
                }
            },
            None => 0,
        };
        let remaining = total - start;
        let want: usize = match &q.limit {
            Some(v) => {
                if *v <= 0 {
                    0
                } else if (*v as u64) >= (remaining as u64) {
                    remaining
                } else {
                    *v as usize
                }
            },
            None => {
                if remaining < 20 {
                    remaining
                } else {
                    20
                }
            },
        };
        let ghost sel = listed(*store, *q, feed);
        proof {
            assert(sel.len() == matching@.len());
            assert(start as int == page_start(q.offset, sel.len() as int));
            assert(want as int == page_len(q.limit, sel.len() - start as int));
        }
        let mut out: Vec<Article> = Vec::new();
        let mut j: usize = 0;
        while j < want
            invariant
                store.wf(),
                j <= want,
                start + want <= total,
                total == matching@.len(),
                sel == listed(*store, *q, feed),
                sel.len() == total,
                p == sel_pred(*store, *q, feed),
                matching@.len() == store.articles@.filter(p).len(),
                forall|k: int|
                    0 <= k < matching@.len() ==> (#[trigger] matching@[k])
                        < store.articles@.len() && store.articles@[matching@[k] as int]
                        == store.articles@.filter(p)[k],
                out@.len() == j,
                forall|k: int|
                    0 <= k < j ==> article_rendered(
                        #[trigger] out@[k],
                        sel[start + k],
                        store.users@,
                        store.favorites@,
                        store.follows@,
                        viewer,
                    ),
            decreases want - j,
        {
            let mi = total - 1 - start - j;
            let idx = matching[mi];
            let favorited = match viewer {
                Some(v) => match find_favorite(&store.favorites, v, store.articles[idx].id) {
                    Some(_) => true,
                    None => false,
                },
                None => false,
            };
            let following = match viewer {
                Some(v) => match find_follow(&store.follows, store.articles[idx].author_id, v) {
                    Some(_) => true,
                    None => false,
                },
                None => false,
            };
            let author_idx = match find_user_by_id(&store.users, store.articles[idx].author_id) {
                Some(u) => u,
                None => {
                    proof {
                        assert(has_user_id(store.users@, store.articles@[idx as int].author_id));
                        assert(false);
                    }
                    continue ;
                },
            };
            out.push(store.articles[idx].to_article(&store.users[author_idx], favorited, following));
            proof {
                assert(sel[start + j as int] == store.articles@.filter(p)[mi as int]);
                assert(store.articles@.filter(p)[mi as int] == store.articles@[matching@[mi as int] as int]);
            }
            j = j + 1;
        }
        ArticlesBody { articles: out, articles_count: total }
    }

    /// Whether the article at `idx` satisfies every filter of the query.
    fn matches_query(store: &Store, q: &ArticleListQuery, idx: usize) -> (r: bool)
        requires
            store.wf(),
            idx < store.articles@.len(),
        ensures
            r == query_pred(store.users@, store.favorites@, *q, store.articles@[idx as int]),
    {
        if store.articles[idx].deleted_at.is_some() {
            return false;
        }
        if let Some(t) = &q.tag {
            if !tags_contain(&store.articles[idx].tags, t.as_str()) {
                return false;
            }
        }
        if let Some(n) = &q.author {
            if !author_username_is(store, store.articles[idx].author_id, n.as_str()) {
                return false;
            }
        }
        if let Some(n) = &q.favorited {
            if !favorited_by(store, store.articles[idx].id, n.as_str()) {
                return false;
            }
        }
        true
    }

    /// Lists the live articles that match the query, most recently created
    /// first, paged by the query's offset and limit. The count reports the
    /// whole selection, not only the page.
    pub fn get_articles(store: &Store, auth: &OptionalAuthUser, query: &ArticleListQuery) -> (r:
        Result<ArticlesBody<Article>, AppError>)
        requires
            store.wf(),
        ensures
            r matches Ok(body) && ({
                let sel = listed(*store, *query, None);
                let start = page_start(query.offset, sel.len() as int);
                let viewer = match auth.0 {
                    Some(au) => Some(au.user_id),
                    None => None::<i32>,
                };
                &&& body.articles_count as int == sel.len()
                &&& body.articles@.len() == page_len(query.limit, sel.len() - start)
                &&& forall|k: int|
                    0 <= k < body.articles@.len() ==> article_rendered(
                        #[trigger] body.articles@[k],
                        sel[start + k],
                        store.users@,
                        store.favorites@,
                        store.follows@,
                        viewer,
                    )
            }),
    {
        let viewer = match &auth.0 {
            Some(au) => Some(au.user_id),
            None => None,
        };
        Ok(Self::paginate(store, query, None, viewer))
    }

    /// Lists the live articles whose authors the acting user follows, with
    /// the query's filters and paging applied on top.
    pub fn get_articles_feed(store: &Store, auth: &AuthUser, query: &ArticleListQuery) -> (r:
        Result<ArticlesBody<Article>, AppError>)
        requires
            store.wf(),
        ensures
            r matches Ok(body) && ({
                let sel = listed(*store, *query, Some(auth.user_id));
                let start = page_start(query.offset, sel.len() as int);
                &&& body.articles_count as int == sel.len()
                &&& body.articles@.len() == page_len(query.limit, sel.len() - start)
                &&& forall|k: int|
                    0 <= k < body.articles@.len() ==> article_rendered(
                        #[trigger] body.articles@[k],
                        sel[start + k],
                        store.users@,
                        store.favorites@,
                        store.follows@,
                        Some(auth.user_id),
                    )
            }),
    {
        Ok(Self::paginate(store, query, Some(auth.user_id), Some(auth.user_id)))
    }

    /// The 64-bit FNV-1a hash of a slug, used to recycle it on soft delete.
    pub fn slug_hash(slug: &str) -> (r: u64)
        ensures
            r == fnv1a(slug@),
    {
        let n = slug.unicode_len();
        let mut h: u64 = 0xcbf29ce484222325;
        let mut i: usize = 0;
        while i < n
            invariant
                i <= n,
                n == slug@.len(),
                h == fnv1a(slug@.subrange(0, i as int)),
            decreases n - i,
        {
            let c = slug.get_char(i);
            h = (h ^ (c as u64)).wrapping_mul(0x100000001b3);
            proof {
                assert(slug@.subrange(0, i + 1 as int).drop_last() =~= slug@.subrange(0, i as int));
                assert(slug@.subrange(0, i + 1 as int).last() == slug@[i as int]);
            }
            i = i + 1;
        }
        proof {
            assert(slug@.subrange(0, n as int) =~= slug@);
        }
        h
    }
}

} // verus!
