//! Profiles: the public view of a user, and the follow relationship with its
//! consistency rules — no self-follow, at most one edge per pair, idempotent
//! creation and removal.

use vstd::prelude::*;

use crate::app_error::AppError;
use crate::extractor::{AuthUser, OptionalAuthUser};
use crate::store::{
    add_edge, clone_opt_string, find_follow, find_user_by_id, find_user_by_username, has_follow,
    has_user_id, has_user_username, lemma_remove_edge_absent,
    lemma_remove_edge_unique, remove_edge, FollowEdge, Store, UserRecord,
};
use crate::text::str_eq;

verus! {

/// The public view of a user, as seen by a viewer.
#[derive(Debug)]
pub struct Profile {
    pub username: String,
    pub bio: Option<String>,
    pub image: Option<String>,
    pub following: bool,
}

/// The body wrapper around a profile response.
#[derive(Debug)]
pub struct ProfileBody<T> {
    pub profile: T,
}

/// Whether `p` is the profile of `u` with the given following flag.
pub open spec fn profile_matches(p: Profile, u: UserRecord, following: bool) -> bool {
    &&& p.username == u.username
    &&& p.bio == u.bio
    &&& p.image == u.image
    &&& p.following == following
}

impl UserRecord {
    /// The public profile of this user, with the viewer's following flag.
    pub fn to_profile(&self, following: bool) -> (r: Profile)
        ensures
            profile_matches(r, *self, following),
    {
        Profile {
            username: self.username.clone(),
            bio: clone_opt_string(&self.bio),
            image: clone_opt_string(&self.image),
            following,
        }
    }
}

/// Whether the user with id `user_id` carries the username `username`: the
/// acting user would be following themselves.
pub open spec fn is_self_target(users: Seq<UserRecord>, user_id: i32, username: Seq<char>) -> bool {
    exists|i: int|
        0 <= i < users.len() && (#[trigger] users[i]).id == user_id && users[i].username@
            == username
}

pub struct ProfilesService;

impl ProfilesService {
    /// Looks up the profile of `username`; the following flag reflects the
    /// viewer, or is false for an anonymous viewer.
    pub fn get_profile(store: &Store, auth: &OptionalAuthUser, username: &str) -> (r: Result<
        ProfileBody<Profile>,
        AppError,
    >)
        ensures
            match r {
                Ok(body) => exists|i: int|
                    0 <= i < store.users@.len() && (#[trigger] store.users@[i]).username@
                        == username@ && profile_matches(
                        body.profile,
                        store.users@[i],
                        match auth.0 {
                            Some(au) => has_follow(
                                store.follows@,
                                store.users@[i].id,
                                au.user_id,
                            ),
                            None => false,
                        },
                    ),
                Err(e) => e is NotFound && !has_user_username(store.users@, username@),
            },
            (r is Ok) == has_user_username(store.users@, username@),
    {
        let idx = match find_user_by_username(&store.users, username) {
            Some(i) => i,
            None => {
                return Err(AppError::NotFound("User not found".to_owned()));
            },
        };
        match auth.0 {
            Some(au) => {
                let followed = match find_follow(&store.follows, store.users[idx].id, au.user_id) {
                    Some(_) => true,
                    None => false,
                };
                Ok(ProfileBody { profile: store.users[idx].to_profile(followed) })
            },
            None => Ok(ProfileBody { profile: store.users[idx].to_profile(false) }),
        }
    }

    /// Follows `username` as the acting user. Creating an edge that already
    /// exists is a success and creates nothing; following oneself is
    /// rejected before the target is even looked up.
    pub fn follow_profile(store: &mut Store, auth: &AuthUser, username: &str) -> (r: Result<
        ProfileBody<Profile>,
        AppError,
    >)
        requires
            old(store).wf(),
        ensures
            final(store).wf(),
            final(store).users == old(store).users,
            final(store).articles == old(store).articles,
            final(store).comments == old(store).comments,
            final(store).favorites == old(store).favorites,
            final(store).next_user_id == old(store).next_user_id,
            final(store).next_article_id == old(store).next_article_id,
            final(store).next_comment_id == old(store).next_comment_id,
            match r {
                Ok(body) => exists|f: int|
                    {
                        &&& 0 <= f < old(store).users@.len()
                        &&& (#[trigger] old(store).users@[f]).username@ == username@
                        &&& final(store).follows@ == add_edge(
                            old(store).follows@,
                            FollowEdge {
                                following_id: old(store).users@[f].id,
                                followed_by_id: auth.user_id,
                            },
                        )
                        &&& profile_matches(body.profile, old(store).users@[f], true)
                    },
                Err(e) => {
                    &&& final(store).follows == old(store).follows
                    &&& (e is NotFound || e is BadRequest)
                    &&& (e is BadRequest) == (has_user_id(old(store).users@, auth.user_id)
                        && is_self_target(old(store).users@, auth.user_id, username@))
                },
            },
            (r is Ok) == (has_user_id(old(store).users@, auth.user_id) && !is_self_target(
                old(store).users@,
                auth.user_id,
                username@,
            ) && has_user_username(old(store).users@, username@)),
    {
        let cur_idx = match find_user_by_id(&store.users, auth.user_id) {
            Some(i) => i,
            None => {
                return Err(AppError::NotFound("User not found".to_owned()));
            },
        };
        if str_eq(store.users[cur_idx].username.as_str(), username) {
            return Err(AppError::BadRequest("You cannot follow yourself".to_owned()));
        }
        proof {
            assert forall|i: int|
                0 <= i < store.users@.len() && (#[trigger] store.users@[i]).id
                    == auth.user_id implies store.users@[i].username@ != username@ by {
                if i != cur_idx {
                    assert(store.users@[i].id != store.users@[cur_idx as int].id);
                }
            }
        }
        let fol_idx = match find_user_by_username(&store.users, username) {
            Some(i) => i,
            None => {
                return Err(AppError::NotFound("Profile not found".to_owned()));
            },
        };
        let edge = FollowEdge {
            following_id: store.users[fol_idx].id,
            followed_by_id: auth.user_id,
        };
        proof {
            assert(fol_idx != cur_idx);
            assert(store.users@[fol_idx as int].id != store.users@[cur_idx as int].id);
        }
        match find_follow(&store.follows, edge.following_id, edge.followed_by_id) {
            Some(_) => {
                proof {
                    assert(add_edge(store.follows@, edge) == store.follows@);
                }
            },
            None => {
                let ghost old_follows = store.follows@;
                store.follows.push(edge);
                proof {
                    assert(forall|k: int| 0 <= k < old_follows.len() ==> old_follows[k] != edge);
                    assert(forall|k: int|
                        0 <= k < old_follows.len() ==> store.follows@[k] == old_follows[k]);
                    assert(store.follows@[old_follows.len() as int] == edge);
                }
            },
        }
        let profile = store.users[fol_idx].to_profile(true);
        Ok(ProfileBody { profile })
    }

    /// Unfollows `username` as the acting user. Removing an edge that does
    /// not exist is a success: the end state, no edge, already holds.
    pub fn unfollow_profile(store: &mut Store, auth: &AuthUser, username: &str) -> (r: Result<
        ProfileBody<Profile>,
        AppError,
    >)
        requires
            old(store).wf(),
        ensures
            final(store).wf(),
            final(store).users == old(store).users,
            final(store).articles == old(store).articles,
            final(store).comments == old(store).comments,
            final(store).favorites == old(store).favorites,
            final(store).next_user_id == old(store).next_user_id,
            final(store).next_article_id == old(store).next_article_id,
            final(store).next_comment_id == old(store).next_comment_id,
            match r {
                Ok(body) => exists|f: int|
                    {
                        &&& 0 <= f < old(store).users@.len()
                        &&& (#[trigger] old(store).users@[f]).username@ == username@
                        &&& final(store).follows@ == remove_edge(
                            old(store).follows@,
                            FollowEdge {
                                following_id: old(store).users@[f].id,
                                followed_by_id: auth.user_id,
                            },
                        )
                        &&& profile_matches(body.profile, old(store).users@[f], false)
                    },
                Err(e) => {
                    &&& final(store).follows == old(store).follows
                    &&& (e is NotFound || e is BadRequest)
                    &&& (e is BadRequest) == (has_user_id(old(store).users@, auth.user_id)
                        && is_self_target(old(store).users@, auth.user_id, username@))
                },
            },
            (r is Ok) == (has_user_id(old(store).users@, auth.user_id) && !is_self_target(
                old(store).users@,
                auth.user_id,
                username@,
            ) && has_user_username(old(store).users@, username@)),
    {
        let cur_idx = match find_user_by_id(&store.users, auth.user_id) {
            Some(i) => i,
            None => {
                return Err(AppError::NotFound("User not found".to_owned()));
            },
        };
        if str_eq(store.users[cur_idx].username.as_str(), username) {
            return Err(AppError::BadRequest("You cannot unfollow yourself".to_owned()));
        }
        proof {
            assert forall|i: int|
                0 <= i < store.users@.len() && (#[trigger] store.users@[i]).id
                    == auth.user_id implies store.users@[i].username@ != username@ by {
                if i != cur_idx {
                    assert(store.users@[i].id != store.users@[cur_idx as int].id);
                }
            }
        }
        let fol_idx = match find_user_by_username(&store.users, username) {
            Some(i) => i,
            None => {
                return Err(AppError::NotFound("Profile not found".to_owned()));
            },
        };
        let edge = FollowEdge {
            following_id: store.users[fol_idx].id,
            followed_by_id: auth.user_id,
        };
        match find_follow(&store.follows, edge.following_id, edge.followed_by_id) {
            Some(i) => {
                let ghost old_follows = store.follows@;
                store.follows.remove(i);
                proof {
                    lemma_remove_edge_unique(old_follows, i as int, edge);
                    assert forall|a: int, b: int|
                        0 <= a < store.follows@.len() && 0 <= b < store.follows@.len() && a
                            != b implies (#[trigger] store.follows@[a]) != (
                    #[trigger] store.follows@[b]) by {
                        let a0: int = if a < i { a } else { a + 1 };
                        let b0: int = if b < i { b } else { b + 1 };
                        assert(store.follows@[a] == old_follows[a0]);
                        assert(store.follows@[b] == old_follows[b0]);
                    }
                    assert forall|k: int|
                        0 <= k < store.follows@.len() implies (
                    #[trigger] store.follows@[k]).following_id
                        != store.follows@[k].followed_by_id by {
                        let k0: int = if k < i { k } else { k + 1 };
                        assert(store.follows@[k] == old_follows[k0]);
                    }
                }
            },
            None => {
                proof {
                    lemma_remove_edge_absent(store.follows@, edge);
                }
            },
        }
        let profile = store.users[fol_idx].to_profile(false);
        Ok(ProfileBody { profile })
    }

    /// Whether the acting user follows the user with id `followee_id`.
    pub fn check_following(store: &Store, auth: &AuthUser, followee_id: i32) -> (r: Result<
        bool,
        AppError,
    >)
        ensures
            r matches Ok(b) && b == has_follow(store.follows@, followee_id, auth.user_id),
    {
        match find_follow(&store.follows, followee_id, auth.user_id) {
            Some(_) => Ok(true),
            None => Ok(false),
        }
    }
}

} // verus!
