//! The record store: an in-memory model of the persistence collaborator.
//!
//! The services are verified against this store. Its well-formedness
//! predicate `Store::wf` carries the cross-record invariants the library
//! enforces: unique keys, at most one follow or favorite edge per pair, no
//! self-follow, and a favorites counter that always equals the number of
//! favorite edges of the article.

use vstd::prelude::*;

verus! {

broadcast use vstd::seq_lib::group_filter_ensures;

/// A stored user. The password is held only as a one-way credential hash.
#[derive(Debug)]
pub struct UserRecord {
    pub id: i32,
    pub email: String,
    pub username: String,
    pub password_hash: String,
    pub bio: Option<String>,
    pub image: Option<String>,
    pub created_at: i64,
    pub updated_at: i64,
}

/// A stored article. `deleted_at` marks a soft delete; `favorites_count`
/// denormalizes the number of favorite edges referencing the article.
#[derive(Debug)]
pub struct ArticleRecord {
    pub id: i32,
    pub slug: String,
    pub title: String,
    pub description: String,
    pub body: String,
    pub author_id: i32,
    pub favorites_count: i32,
    pub tags: Vec<String>,
    pub created_at: i64,
    pub updated_at: i64,
    pub deleted_at: Option<i64>,
}

/// A stored comment. `deleted_at` marks a soft delete.
#[derive(Debug)]
pub struct CommentRecord {
    pub id: i32,
    pub body: String,
    pub author_id: i32,
    pub article_id: i32,
    pub created_at: i64,
    pub updated_at: i64,
    pub deleted_at: Option<i64>,
}

/// A directed follow edge: `followed_by_id` follows `following_id`.
#[derive(Debug, Clone, Copy, PartialEq, Eq, Structural)]
pub struct FollowEdge {
    pub following_id: i32,
    pub followed_by_id: i32,
}

/// A favorite edge: `user_id` favorited `article_id`.
#[derive(Debug, Clone, Copy, PartialEq, Eq, Structural)]
pub struct FavoriteEdge {
    pub user_id: i32,
    pub article_id: i32,
}

pub open spec fn has_user_id(users: Seq<UserRecord>, id: i32) -> bool {
    exists|i: int| 0 <= i < users.len() && (#[trigger] users[i]).id == id
}

pub open spec fn has_user_email(users: Seq<UserRecord>, email: Seq<char>) -> bool {
    exists|i: int| 0 <= i < users.len() && (#[trigger] users[i]).email@ == email
}

pub open spec fn has_user_username(users: Seq<UserRecord>, username: Seq<char>) -> bool {
    exists|i: int| 0 <= i < users.len() && (#[trigger] users[i]).username@ == username
}

pub open spec fn has_article_id(articles: Seq<ArticleRecord>, id: i32) -> bool {
    exists|i: int| 0 <= i < articles.len() && (#[trigger] articles[i]).id == id
}

pub open spec fn has_article_slug(articles: Seq<ArticleRecord>, slug: Seq<char>) -> bool {
    exists|i: int| 0 <= i < articles.len() && (#[trigger] articles[i]).slug@ == slug
}

pub open spec fn has_comment_id(comments: Seq<CommentRecord>, id: i32) -> bool {
    exists|i: int| 0 <= i < comments.len() && (#[trigger] comments[i]).id == id
}

/// Whether `followed_by_id` follows `following_id`.
pub open spec fn has_follow(follows: Seq<FollowEdge>, following_id: i32, followed_by_id: i32) -> bool {
    follows.contains(FollowEdge { following_id, followed_by_id })
}

/// Whether `user_id` favorited `article_id`.
pub open spec fn has_favorite(favorites: Seq<FavoriteEdge>, user_id: i32, article_id: i32) -> bool {
    favorites.contains(FavoriteEdge { user_id, article_id })
}

/// The predicate selecting the favorite edges of one article.
pub open spec fn fav_pred(article_id: i32) -> spec_fn(FavoriteEdge) -> bool {
    |f: FavoriteEdge| f.article_id == article_id
}

/// The number of favorite edges referencing `article_id`.
pub open spec fn fav_count(favorites: Seq<FavoriteEdge>, article_id: i32) -> int {
    favorites.filter(fav_pred(article_id)).len() as int
}

/// Adding an edge to a set of unique edges: a present edge is left alone.
pub open spec fn add_edge<T>(s: Seq<T>, e: T) -> Seq<T> {
    if s.contains(e) {
        s
    } else {
        s.push(e)
    }
}

/// Removing an edge: every occurrence is dropped, an absent edge is a no-op.
pub open spec fn remove_edge<T>(s: Seq<T>, e: T) -> Seq<T> {
    s.filter(|x: T| x != e)
}

/// Adding the same edge twice leaves exactly what adding it once left:
/// a second follow (or favorite) of the same pair creates nothing new.
pub proof fn lemma_add_edge_idempotent<T>(s: Seq<T>, e: T)
    ensures
        add_edge(add_edge(s, e), e) == add_edge(s, e),
{
    if !s.contains(e) {
        assert(s.push(e)[s.len() as int] == e);
        assert(s.push(e).contains(e));
    }
}

/// Removing an absent edge changes nothing: unfollowing a user one does not
/// follow (or unfavoriting an article one did not favorite) is a no-op.
pub proof fn lemma_remove_edge_absent<T>(s: Seq<T>, e: T)
    requires
        !s.contains(e),
    ensures
        remove_edge(s, e) == s,
    decreases s.len(),
{
    reveal(Seq::filter);
    let pred = |x: T| x != e;
    if s.len() == 0 {
        assert(s.filter(pred) =~= s);
    } else {
        let pre = s.drop_last();
        assert(forall|i: int| 0 <= i < pre.len() ==> pre[i] == s[i]);
        assert(!pre.contains(e));
        lemma_remove_edge_absent(pre, e);
        assert(s.last() != e) by {
            assert(s[s.len() - 1] == s.last());
        }
        assert(s.filter(pred) == pre.filter(pred).push(s.last()));
        assert(pre.push(s.last()) =~= s);
    }
}

/// After removing an edge it is gone, and no other edge is affected.
pub proof fn lemma_remove_edge_removes<T>(s: Seq<T>, e: T)
    ensures
        !remove_edge(s, e).contains(e),
        forall|x: T| x != e ==> remove_edge(s, e).contains(x) == s.contains(x),
    decreases s.len(),
{
    reveal(Seq::filter);
    let pred = |x: T| x != e;
    let out = s.filter(pred);
    assert(!out.contains(e)) by {
        if out.contains(e) {
            let i = choose|i: int| 0 <= i < out.len() && out[i] == e;
            assert(pred(out[i]));
        }
    }
    if s.len() == 0 {
        assert(s.filter(pred) =~= s);
    } else {
        let pre = s.drop_last();
        lemma_remove_edge_removes(pre, e);
        assert(forall|i: int| 0 <= i < pre.len() ==> pre[i] == s[i]);
        assert forall|x: T| x != e implies out.contains(x) == s.contains(x) by {
            assert(s.filter(pred) == if pred(s.last()) {
                pre.filter(pred).push(s.last())
            } else {
                pre.filter(pred)
            });
            if s.contains(x) {
                let i = choose|i: int| 0 <= i < s.len() && s[i] == x;
                if i < s.len() - 1 {
                    assert(pre[i] == x);
                    assert(pre.contains(x));
                    assert(pre.filter(pred).contains(x));
                    let j = choose|j: int| 0 <= j < pre.filter(pred).len() && pre.filter(pred)[j] == x;
                    if pred(s.last()) {
                        assert(out[j] == x);
                    }
                    assert(out.contains(x));
                } else {
                    assert(s.last() == x);
                    assert(out[out.len() - 1] == x);
                    assert(out.contains(x));
                }
            }
            if out.contains(x) {
                let i = choose|i: int| 0 <= i < out.len() && out[i] == x;
                if pred(s.last()) && i == out.len() - 1 {
                    assert(s.contains(s.last()));
                } else {
                    assert(pre.filter(pred)[i] == x);
                    assert(pre.filter(pred).contains(x));
                    assert(pre.contains(x));
                    let j = choose|j: int| 0 <= j < pre.len() && pre[j] == x;
                    assert(s[j] == x);
                    assert(s.contains(x));
                }
            }
        }
    }
}

/// Adding a favorite edge raises its article's count by one only when the
/// edge was absent: favoriting twice never double-increments, and no other
/// article's count moves.
pub proof fn lemma_add_edge_count(favorites: Seq<FavoriteEdge>, e: FavoriteEdge, article_id: i32)
    ensures
        fav_count(add_edge(favorites, e), article_id) == fav_count(favorites, article_id) + (
        if !favorites.contains(e) && e.article_id == article_id {
            1int
        } else {
            0int
        }),
{
    if !favorites.contains(e) {
        lemma_fav_count_push(favorites, e, article_id);
    }
}

/// Removing the only occurrence of an edge is removing its index.
pub proof fn lemma_remove_edge_unique<T>(s: Seq<T>, i: int, e: T)
    requires
        0 <= i < s.len(),
        s[i] == e,
        forall|k: int| 0 <= k < s.len() && k != i ==> s[k] != e,
    ensures
        remove_edge(s, e) == s.remove(i),
{
    let pred = |x: T| x != e;
    let a = s.subrange(0, i);
    let b = seq![e];
    let c = s.subrange(i + 1, s.len() as int);
    assert(s =~= a + b + c);
    assert(s.remove(i) =~= a + c);
    Seq::filter_distributes_over_add(a + b, c, pred);
    Seq::filter_distributes_over_add(a, b, pred);
    assert(forall|k: int| 0 <= k < a.len() ==> a[k] == s[k]);
    assert(!a.contains(e));
    lemma_remove_edge_absent(a, e);
    assert(forall|k: int| 0 <= k < c.len() ==> c[k] == s[i + 1 + k]);
    assert(!c.contains(e));
    lemma_remove_edge_absent(c, e);
    reveal_with_fuel(Seq::filter, 2);
    assert(b.drop_last() =~= Seq::<T>::empty());
    assert(b.filter(pred) =~= Seq::<T>::empty());
    assert(remove_edge(s, e) =~= a + c);
}

/// A user that exists keeps existing when a user is appended.
pub proof fn lemma_has_user_id_push(users: Seq<UserRecord>, rec: UserRecord, id: i32)
    requires
        has_user_id(users, id),
    ensures
        has_user_id(users.push(rec), id),
{
    let i = choose|i: int| 0 <= i < users.len() && (#[trigger] users[i]).id == id;
    assert(users.push(rec)[i].id == id);
}

/// A user that exists keeps existing when user records change without
/// changing any id.
pub proof fn lemma_has_user_id_same_ids(users: Seq<UserRecord>, users2: Seq<UserRecord>, id: i32)
    requires
        has_user_id(users, id),
        users.len() == users2.len(),
        forall|i: int| 0 <= i < users.len() ==> (#[trigger] users2[i]).id == users[i].id,
    ensures
        has_user_id(users2, id),
{
    let i = choose|i: int| 0 <= i < users.len() && (#[trigger] users[i]).id == id;
    assert(users2[i].id == id);
}

/// An article that exists keeps existing when an article is appended.
pub proof fn lemma_has_article_id_push(articles: Seq<ArticleRecord>, rec: ArticleRecord, id: i32)
    requires
        has_article_id(articles, id),
    ensures
        has_article_id(articles.push(rec), id),
{
    let i = choose|i: int| 0 <= i < articles.len() && (#[trigger] articles[i]).id == id;
    assert(articles.push(rec)[i].id == id);
}

/// An article that exists keeps existing when article records change without
/// changing any id.
pub proof fn lemma_has_article_id_same_ids(
    articles: Seq<ArticleRecord>,
    articles2: Seq<ArticleRecord>,
    id: i32,
)
    requires
        has_article_id(articles, id),
        articles.len() == articles2.len(),
        forall|i: int| 0 <= i < articles.len() ==> (#[trigger] articles2[i]).id == articles[i].id,
    ensures
        has_article_id(articles2, id),
{
    let i = choose|i: int| 0 <= i < articles.len() && (#[trigger] articles[i]).id == id;
    assert(articles2[i].id == id);
}

/// An article no favorite edge references has a count of zero.
pub proof fn lemma_fav_count_none(favorites: Seq<FavoriteEdge>, article_id: i32)
    requires
        forall|k: int|
            0 <= k < favorites.len() ==> (#[trigger] favorites[k]).article_id != article_id,
    ensures
        fav_count(favorites, article_id) == 0,
    decreases favorites.len(),
{
    reveal(Seq::filter);
    let pred = fav_pred(article_id);
    if favorites.len() == 0 {
        assert(favorites.filter(pred) =~= favorites);
    } else {
        let pre = favorites.drop_last();
        assert(forall|k: int| 0 <= k < pre.len() ==> pre[k] == favorites[k]);
        lemma_fav_count_none(pre, article_id);
        assert(favorites[favorites.len() - 1] == favorites.last());
        assert(!pred(favorites.last()));
    }
}

/// Pushing one favorite edge raises the count of its article by exactly one
/// and leaves every other article's count unchanged.
pub proof fn lemma_fav_count_push(favorites: Seq<FavoriteEdge>, e: FavoriteEdge, article_id: i32)
    ensures
        fav_count(favorites.push(e), article_id) == fav_count(favorites, article_id) + (
        if e.article_id == article_id {
            1int
        } else {
            0int
        }),
{
    let pred = fav_pred(article_id);
    assert(favorites.push(e) =~= favorites + seq![e]);
    Seq::filter_distributes_over_add(favorites, seq![e], pred);
    reveal_with_fuel(Seq::filter, 2);
    assert(seq![e].drop_last() =~= Seq::<FavoriteEdge>::empty());
    if e.article_id == article_id {
        assert(seq![e].filter(pred) =~= seq![e]);
    } else {
        assert(seq![e].filter(pred) =~= Seq::<FavoriteEdge>::empty());
    }
}

/// Removing one favorite edge lowers the count of its article by exactly one
/// and leaves every other article's count unchanged.
pub proof fn lemma_fav_count_remove(favorites: Seq<FavoriteEdge>, i: int, article_id: i32)
    requires
        0 <= i < favorites.len(),
    ensures
        fav_count(favorites.remove(i), article_id) == fav_count(favorites, article_id) - (
        if favorites[i].article_id == article_id {
            1int
        } else {
            0int
        }),
{
    let pred = fav_pred(article_id);
    let a = favorites.subrange(0, i);
    let b = seq![favorites[i]];
    let c = favorites.subrange(i + 1, favorites.len() as int);
    assert(favorites =~= a + b + c);
    assert(favorites.remove(i) =~= a + c);
    Seq::filter_distributes_over_add(a + b, c, pred);
    Seq::filter_distributes_over_add(a, b, pred);
    Seq::filter_distributes_over_add(a, c, pred);
    reveal_with_fuel(Seq::filter, 2);
    assert(b.drop_last() =~= Seq::<FavoriteEdge>::empty());
    if favorites[i].article_id == article_id {
        assert(b.filter(pred) =~= b);
    } else {
        assert(b.filter(pred) =~= Seq::<FavoriteEdge>::empty());
    }
}

/// The in-memory record store.
#[derive(Debug)]
pub struct Store {
    pub users: Vec<UserRecord>,
    pub articles: Vec<ArticleRecord>,
    pub comments: Vec<CommentRecord>,
    pub follows: Vec<FollowEdge>,
    pub favorites: Vec<FavoriteEdge>,
    pub next_user_id: i32,
    pub next_article_id: i32,
    pub next_comment_id: i32,
}

impl Store {
    /// Users carry unique ids, emails and usernames, and ids below the
    /// next id to assign.
    pub open spec fn users_wf(self) -> bool {
        &&& (forall|i: int, j: int|
            0 <= i < self.users@.len() && 0 <= j < self.users@.len() && i != j ==> {
                &&& (#[trigger] self.users@[i]).id != (#[trigger] self.users@[j]).id
                &&& self.users@[i].email@ != self.users@[j].email@
                &&& self.users@[i].username@ != self.users@[j].username@
            })
        &&& (forall|i: int|
            0 <= i < self.users@.len() ==> 0 < (#[trigger] self.users@[i]).id
                < self.next_user_id)
        &&& 0 < self.next_user_id
    }

    /// Articles carry unique ids and unique slugs (a soft-deleted article's
    /// slug is rewritten, so it can never shadow a live one), an author that
    /// exists, and a favorites counter equal to the number of favorite edges.
    pub open spec fn articles_wf(self) -> bool {
        &&& (forall|i: int, j: int|
            0 <= i < self.articles@.len() && 0 <= j < self.articles@.len() && i != j ==> {
                &&& (#[trigger] self.articles@[i]).id != (#[trigger] self.articles@[j]).id
                &&& self.articles@[i].slug@ != self.articles@[j].slug@
            })
        &&& (forall|i: int|
            0 <= i < self.articles@.len() ==> 0 < (#[trigger] self.articles@[i]).id
                < self.next_article_id)
        &&& 0 < self.next_article_id
        &&& (forall|i: int|
            0 <= i < self.articles@.len() ==> has_user_id(
                self.users@,
                (#[trigger] self.articles@[i]).author_id,
            ))
        &&& (forall|i: int|
            0 <= i < self.articles@.len() ==> (#[trigger] self.articles@[i]).favorites_count
                as int == fav_count(self.favorites@, self.articles@[i].id))
    }

    /// Comments carry unique ids and an author that exists.
    pub open spec fn comments_wf(self) -> bool {
        &&& (forall|i: int, j: int|
            0 <= i < self.comments@.len() && 0 <= j < self.comments@.len() && i != j ==> (
            #[trigger] self.comments@[i]).id != (#[trigger] self.comments@[j]).id)
        &&& (forall|i: int|
            0 <= i < self.comments@.len() ==> 0 < (#[trigger] self.comments@[i]).id
                < self.next_comment_id)
        &&& 0 < self.next_comment_id
        &&& (forall|i: int|
            0 <= i < self.comments@.len() ==> has_user_id(
                self.users@,
                (#[trigger] self.comments@[i]).author_id,
            ))
    }

    /// At most one follow edge per ordered pair, and never a self-follow.
    pub open spec fn follows_wf(self) -> bool {
        &&& (forall|i: int, j: int|
            0 <= i < self.follows@.len() && 0 <= j < self.follows@.len() && i != j ==> (
            #[trigger] self.follows@[i]) != (#[trigger] self.follows@[j]))
        &&& (forall|i: int|
            0 <= i < self.follows@.len() ==> (#[trigger] self.follows@[i]).following_id
                != self.follows@[i].followed_by_id)
    }

    /// At most one favorite edge per pair, each referencing an existing
    /// article.
    pub open spec fn favorites_wf(self) -> bool {
        &&& (forall|i: int, j: int|
            0 <= i < self.favorites@.len() && 0 <= j < self.favorites@.len() && i != j ==> (
            #[trigger] self.favorites@[i]) != (#[trigger] self.favorites@[j]))
        &&& (forall|i: int|
            0 <= i < self.favorites@.len() ==> has_article_id(
                self.articles@,
                (#[trigger] self.favorites@[i]).article_id,
            ))
    }

    /// The store's well-formedness: the conjunction of the invariants above.
    pub open spec fn wf(self) -> bool {
        &&& self.users_wf()
        &&& self.articles_wf()
        &&& self.comments_wf()
        &&& self.follows_wf()
        &&& self.favorites_wf()
    }

    /// An empty store.
    pub fn new() -> (s: Store)
        ensures
            s.wf(),
            s.users@.len() == 0,
            s.articles@.len() == 0,
            s.comments@.len() == 0,
            s.follows@.len() == 0,
            s.favorites@.len() == 0,
            s.next_user_id == 1,
            s.next_article_id == 1,
            s.next_comment_id == 1,
    {
        Store {
            users: Vec::new(),
            articles: Vec::new(),
            comments: Vec::new(),
            follows: Vec::new(),
            favorites: Vec::new(),
            next_user_id: 1,
            next_article_id: 1,
            next_comment_id: 1,
        }
    }
}

/// Clones an optional string.
pub(crate) fn clone_opt_string(o: &Option<String>) -> (r: Option<String>)
    ensures
        r == *o,
{
    match o {
        Some(s) => Some(s.clone()),
        None => None,
    }
}

/// Clones a vector of strings.
pub(crate) fn clone_string_vec(v: &Vec<String>) -> (r: Vec<String>)
    ensures
        r@ == v@,
{
    let mut r: Vec<String> = Vec::new();
    let mut i: usize = 0;
    while i < v.len()
        invariant
            i <= v@.len(),
            r@ =~= v@.subrange(0, i as int),
        decreases v@.len() - i,
    {
        r.push(v[i].clone());
        i = i + 1;
    }
    proof {
        assert(v@.subrange(0, v@.len() as int) =~= v@);
    }
    r
}

/// In a well-formed store a soft-deleted article's slug never equals any
/// live article's slug: every slug, recycled or not, is unique.
pub proof fn lemma_deleted_slug_distinct(s: Store, i: int, j: int)
    requires
        s.wf(),
        0 <= i < s.articles@.len(),
        0 <= j < s.articles@.len(),
        i != j,
        s.articles@[i].deleted_at is Some,
        s.articles@[j].deleted_at is None,
    ensures
        s.articles@[i].slug@ != s.articles@[j].slug@,
{
}

/// Finds the index of the user with the given id.
pub fn find_user_by_id(users: &Vec<UserRecord>, id: i32) -> (r: Option<usize>)
    ensures
        match r {
            Some(i) => i < users@.len() && users@[i as int].id == id,
            None => !has_user_id(users@, id),
        },
{
    let mut i: usize = 0;
    while i < users.len()
        invariant
            i <= users@.len(),
            forall|k: int| 0 <= k < i ==> (#[trigger] users@[k]).id != id,
        decreases users@.len() - i,
    {
        if users[i].id == id {
            return Some(i);
        }
        i = i + 1;
    }
    None
}

/// Finds the index of the user with the given email.
pub fn find_user_by_email(users: &Vec<UserRecord>, email: &str) -> (r: Option<usize>)
    ensures
        match r {
            Some(i) => i < users@.len() && users@[i as int].email@ == email@,
            None => !has_user_email(users@, email@),
        },
{
    let mut i: usize = 0;
    while i < users.len()
        invariant
            i <= users@.len(),
            forall|k: int| 0 <= k < i ==> (#[trigger] users@[k]).email@ != email@,
        decreases users@.len() - i,
    {
        if crate::text::str_eq(users[i].email.as_str(), email) {
            return Some(i);
        }
        i = i + 1;
    }
    None
}

/// Finds the index of the user with the given username.
pub fn find_user_by_username(users: &Vec<UserRecord>, username: &str) -> (r: Option<usize>)
    ensures
        match r {
            Some(i) => i < users@.len() && users@[i as int].username@ == username@,
            None => !has_user_username(users@, username@),
        },
{
    let mut i: usize = 0;
    while i < users.len()
        invariant
            i <= users@.len(),
            forall|k: int| 0 <= k < i ==> (#[trigger] users@[k]).username@ != username@,
        decreases users@.len() - i,
    {
        if crate::text::str_eq(users[i].username.as_str(), username) {
            return Some(i);
        }
        i = i + 1;
    }
    None
}

/// Finds the index of the article with the given slug.
pub fn find_article_by_slug(articles: &Vec<ArticleRecord>, slug: &str) -> (r: Option<usize>)
    ensures
        match r {
            Some(i) => i < articles@.len() && articles@[i as int].slug@ == slug@,
            None => !has_article_slug(articles@, slug@),
        },
{
    let mut i: usize = 0;
    while i < articles.len()
        invariant
            i <= articles@.len(),
            forall|k: int| 0 <= k < i ==> (#[trigger] articles@[k]).slug@ != slug@,
        decreases articles@.len() - i,
    {
        if crate::text::str_eq(articles[i].slug.as_str(), slug) {
            return Some(i);
        }
        i = i + 1;
    }
    None
}

/// Finds the index of the article with the given id.
pub fn find_article_by_id(articles: &Vec<ArticleRecord>, id: i32) -> (r: Option<usize>)
    ensures
        match r {
            Some(i) => i < articles@.len() && articles@[i as int].id == id,
            None => !has_article_id(articles@, id),
        },
{
    let mut i: usize = 0;
    while i < articles.len()
        invariant
            i <= articles@.len(),
            forall|k: int| 0 <= k < i ==> (#[trigger] articles@[k]).id != id,
        decreases articles@.len() - i,
    {
        if articles[i].id == id {
            return Some(i);
        }
        i = i + 1;
    }
    None
}

/// Finds the index of the comment with the given id.
pub fn find_comment_by_id(comments: &Vec<CommentRecord>, id: i32) -> (r: Option<usize>)
    ensures
        match r {
            Some(i) => i < comments@.len() && comments@[i as int].id == id,
            None => !has_comment_id(comments@, id),
        },
{
    let mut i: usize = 0;
    while i < comments.len()
        invariant
            i <= comments@.len(),
            forall|k: int| 0 <= k < i ==> (#[trigger] comments@[k]).id != id,
        decreases comments@.len() - i,
    {
        if comments[i].id == id {
            return Some(i);
        }
        i = i + 1;
    }
    None
}

/// Finds the index of the follow edge for the given ordered pair.
pub fn find_follow(follows: &Vec<FollowEdge>, following_id: i32, followed_by_id: i32) -> (r: Option<
    usize,
>)
    ensures
        match r {
            Some(i) => i < follows@.len() && follows@[i as int] == (FollowEdge {
                following_id,
                followed_by_id,
            }),
            None => !has_follow(follows@, following_id, followed_by_id),
        },
{
    let mut i: usize = 0;
    while i < follows.len()
        invariant
            i <= follows@.len(),
            forall|k: int|
                0 <= k < i ==> (#[trigger] follows@[k]) != (FollowEdge {
                    following_id,
                    followed_by_id,
                }),
        decreases follows@.len() - i,
    {
        if follows[i].following_id == following_id && follows[i].followed_by_id == followed_by_id {
            return Some(i);
        }
        i = i + 1;
    }
    None
}

/// Finds the index of the favorite edge for the given pair.
pub fn find_favorite(favorites: &Vec<FavoriteEdge>, user_id: i32, article_id: i32) -> (r: Option<
    usize,
>)
    ensures
        match r {
            Some(i) => i < favorites@.len() && favorites@[i as int] == (FavoriteEdge {
                user_id,
                article_id,
            }),
            None => !has_favorite(favorites@, user_id, article_id),
        },
{
    let mut i: usize = 0;
    while i < favorites.len()
        invariant
            i <= favorites@.len(),
            forall|k: int|
                0 <= k < i ==> (#[trigger] favorites@[k]) != (FavoriteEdge { user_id, article_id }),
        decreases favorites@.len() - i,
    {
        if favorites[i].user_id == user_id && favorites[i].article_id == article_id {
            return Some(i);
        }
        i = i + 1;
    }
    None
}

} // verus!
