//! Users: registration, login, the current user, and profile updates.
//!
//! Registration and updates enforce the unique-key rules on email and
//! username; login re-derives the credential hash and collapses a wrong
//! password into a single `Unauthorized` outcome.

use vstd::prelude::*;

use crate::app_error::AppError;
use crate::config::AppContext;
use crate::extractor::{jwt_token, AuthUser, JWT_EXPIRES_IN};
use crate::hashing::{hash_password, phc_matches, verify_password};
use crate::store::{
    clone_opt_string, find_user_by_email, find_user_by_id, find_user_by_username, has_user_email,
    has_user_id, has_user_username, lemma_has_user_id_push, lemma_has_user_id_same_ids, Store,
    UserRecord,
};

verus! {

/// The body wrapper around a user request or response.
#[derive(Debug)]
pub struct UserBody<T> {
    pub user: T,
}

/// The registration input.
#[derive(Debug)]
pub struct UserCreateInput {
    pub username: String,
    pub email: String,
    pub password: String,
}

/// The profile-update input: absent fields are left unchanged.
#[derive(Debug)]
pub struct UserUpdateInput {
    pub email: Option<String>,
    pub username: Option<String>,
    pub bio: Option<String>,
    pub image: Option<String>,
    pub password: Option<String>,
}

/// The login input.
#[derive(Debug)]
pub struct UserLoginInput {
    pub email: String,
    pub password: String,
}

/// The user response, carrying a fresh token after authentication.
#[derive(Debug)]
pub struct User {
    pub id: i32,
    pub email: String,
    pub username: String,
    pub bio: Option<String>,
    pub image: Option<String>,
    pub created_at: i64,
    pub updated_at: i64,
    pub token: Option<String>,
}

impl User {
    /// Attaches a token to the response.
    pub fn set_token(&mut self, token: String)
        ensures
            *final(self) == (User { token: Some(token), ..*old(self) }),
    {
        self.token = Some(token);
    }
}

/// Whether the response `u` shows the record `rec`.
pub open spec fn user_matches(u: User, rec: UserRecord) -> bool {
    &&& u.id == rec.id
    &&& u.email == rec.email
    &&& u.username == rec.username
    &&& u.bio == rec.bio
    &&& u.image == rec.image
    &&& u.created_at == rec.created_at
    &&& u.updated_at == rec.updated_at
}

/// Whether the response carries a token issued at `now` for `user_id`.
pub open spec fn token_for(u: User, secret: Seq<char>, user_id: i32, now: i64) -> bool {
    u.token matches Some(t) && t@ == jwt_token(secret, user_id, (now + JWT_EXPIRES_IN) as i64)
}

impl UserRecord {
    /// The response view of this record, with no token attached yet.
    pub fn to_user(&self) -> (u: User)
        ensures
            user_matches(u, *self),
            u.token is None,
    {
        User {
            id: self.id,
            email: self.email.clone(),
            username: self.username.clone(),
            bio: clone_opt_string(&self.bio),
            image: clone_opt_string(&self.image),
            created_at: self.created_at,
            updated_at: self.updated_at,
            token: None,
        }
    }
}

/// Whether login with `email` and `password` is owed success: a user with
/// that email exists and the password matches its credential hash.
pub open spec fn login_ok(users: Seq<UserRecord>, email: Seq<char>, password: Seq<char>) -> bool {
    exists|i: int|
        0 <= i < users.len() && (#[trigger] users[i]).email@ == email && phc_matches(
            password,
            users[i].password_hash@,
        )
}

/// A stored user whose credential hash matches a password is owed login
/// success by that password and their email — in particular a user freshly
/// registered with it, since registration stores a hash that matches the
/// registration password.
pub proof fn lemma_matching_credential_logs_in(
    users: Seq<UserRecord>,
    i: int,
    password: Seq<char>,
)
    requires
        0 <= i < users.len(),
        phc_matches(password, users[i].password_hash@),
    ensures
        login_ok(users, users[i].email@, password),
{
}

/// How an updated user record relates to the old one: each given field is
/// replaced, each absent field is kept, and a given password is freshly
/// hashed.
pub open spec fn user_updated(
    oldr: UserRecord,
    newr: UserRecord,
    input: UserUpdateInput,
    now: i64,
) -> bool {
    &&& newr.id == oldr.id
    &&& newr.email == (match input.email {
        Some(e) => e,
        None => oldr.email,
    })
    &&& newr.username == (match input.username {
        Some(u) => u,
        None => oldr.username,
    })
    &&& newr.bio == (match input.bio {
        Some(b) => Some(b),
        None => oldr.bio,
    })
    &&& newr.image == (match input.image {
        Some(im) => Some(im),
        None => oldr.image,
    })
    &&& (match input.password {
        Some(p) => phc_matches(p@, newr.password_hash@),
        None => newr.password_hash == oldr.password_hash,
    })
    &&& newr.created_at == oldr.created_at
    &&& newr.updated_at == now
}

/// Whether applying `input` to the user with id `user_id` would collide with
/// another user's email or username.
pub open spec fn update_conflict(users: Seq<UserRecord>, user_id: i32, input: UserUpdateInput) -> bool {
    exists|j: int|
        0 <= j < users.len() && (#[trigger] users[j]).id != user_id && ((input.email matches Some(e)
            && users[j].email@ == e@) || (input.username matches Some(u) && users[j].username@
            == u@))
}

pub struct UsersService;

impl UsersService {
    /// Returns the authenticated user's record with a fresh token.
    pub fn get_current_user(store: &Store, ctx: &AppContext, auth: &AuthUser, now: i64) -> (r:
        Result<UserBody<User>, AppError>)
        requires
            now + JWT_EXPIRES_IN <= i64::MAX,
        ensures
            match r {
                Ok(body) => exists|i: int|
                    0 <= i < store.users@.len() && (#[trigger] store.users@[i]).id == auth.user_id
                        && user_matches(body.user, store.users@[i]) && token_for(
                        body.user,
                        ctx.config.jwt.secret@,
                        auth.user_id,
                        now,
                    ),
                Err(e) => e is NotFound && !has_user_id(store.users@, auth.user_id),
            },
            (r is Ok) == has_user_id(store.users@, auth.user_id),
    {
        let idx = match find_user_by_id(&store.users, auth.user_id) {
            Some(i) => i,
            None => {
                return Err(AppError::NotFound("User not found".to_owned()));
            },
        };
        let mut user = store.users[idx].to_user();
        user.set_token(auth.to_jwt(ctx, now));
        Ok(UserBody { user })
    }

    /// Registers a new user: the email and the username must both be unused,
    /// the password is stored only as a credential hash, and the response
    /// carries a fresh token.
    pub fn create_user(store: &mut Store, ctx: &AppContext, input: UserCreateInput, now: i64) -> (r:
        Result<UserBody<User>, AppError>)
        requires
            old(store).wf(),
            old(store).next_user_id < i32::MAX,
            now + JWT_EXPIRES_IN <= i64::MAX,
        ensures
            final(store).wf(),
            final(store).articles == old(store).articles,
            final(store).comments == old(store).comments,
            final(store).follows == old(store).follows,
            final(store).favorites == old(store).favorites,
            final(store).next_article_id == old(store).next_article_id,
            final(store).next_comment_id == old(store).next_comment_id,
            match r {
                Ok(body) => {
                    &&& final(store).users@.len() == old(store).users@.len() + 1
                    &&& final(store).users@ == old(store).users@.push(final(store).users@.last())
                    &&& final(store).users@.last().id == old(store).next_user_id
                    &&& final(store).users@.last().email == input.email
                    &&& final(store).users@.last().username == input.username
                    &&& phc_matches(input.password@, final(store).users@.last().password_hash@)
                    &&& final(store).users@.last().bio is None
                    &&& final(store).users@.last().image is None
                    &&& final(store).users@.last().created_at == now
                    &&& final(store).users@.last().updated_at == now
                    &&& final(store).next_user_id == old(store).next_user_id + 1
                    &&& user_matches(body.user, final(store).users@.last())
                    &&& token_for(
                        body.user,
                        ctx.config.jwt.secret@,
                        old(store).next_user_id,
                        now,
                    )
                },
                Err(e) => {
                    &&& *final(store) == *old(store)
                    &&& e is Conflict
                },
            },
            (r is Ok) == (!has_user_email(old(store).users@, input.email@) && !has_user_username(
                old(store).users@,
                input.username@,
            )),
    {
        if let Some(_) = find_user_by_email(&store.users, input.email.as_str()) {
            return Err(AppError::Conflict("Email is already taken".to_owned()));
        }
        if let Some(_) = find_user_by_username(&store.users, input.username.as_str()) {
            return Err(AppError::Conflict("Username is already taken".to_owned()));
        }
        let id = store.next_user_id;
        let record = UserRecord {
            id,
            email: input.email,
            username: input.username,
            password_hash: hash_password(input.password.as_str()),
            bio: None,
            image: None,
            created_at: now,
            updated_at: now,
        };
        let ghost old_users = store.users@;
        store.users.push(record);
        store.next_user_id = id + 1;
        proof {
            assert(forall|k: int| 0 <= k < old_users.len() ==> store.users@[k] == old_users[k]);
            assert forall|a: int, b: int|
                0 <= a < store.users@.len() && 0 <= b < store.users@.len() && a != b implies {
                &&& (#[trigger] store.users@[a]).id != (#[trigger] store.users@[b]).id
                &&& store.users@[a].email@ != store.users@[b].email@
                &&& store.users@[a].username@ != store.users@[b].username@
            } by {
                if a < old_users.len() && b < old_users.len() {
                    assert(old_users[a].id != old_users[b].id);
                } else if a < old_users.len() {
                    assert(store.users@[b] == store.users@.last());
                    assert(old_users[a].id < old(store).next_user_id);
                } else {
                    assert(store.users@[a] == store.users@.last());
                    assert(old_users[b].id < old(store).next_user_id);
                }
            }
            assert forall|i: int|
                0 <= i < store.articles@.len() implies has_user_id(
                store.users@,
                (#[trigger] store.articles@[i]).author_id,
            ) by {
                lemma_has_user_id_push(old_users, store.users@.last(), store.articles@[i].author_id);
            }
            assert forall|i: int|
                0 <= i < store.comments@.len() implies has_user_id(
                store.users@,
                (#[trigger] store.comments@[i]).author_id,
            ) by {
                lemma_has_user_id_push(old_users, store.users@.last(), store.comments@[i].author_id);
            }
        }
        let mut user = store.users[store.users.len() - 1].to_user();
        let au = AuthUser { user_id: id };
        user.set_token(au.to_jwt(ctx, now));
        Ok(UserBody { user })
    }

    /// Authenticates by email and password and returns the user with a fresh
    /// token. An unknown email is `NotFound`; a password that does not match
    /// the stored credential hash is `Unauthorized`.
    pub fn login(store: &Store, ctx: &AppContext, input: UserLoginInput, now: i64) -> (r: Result<
        UserBody<User>,
        AppError,
    >)
        requires
            store.wf(),
            now + JWT_EXPIRES_IN <= i64::MAX,
        ensures
            match r {
                Ok(body) => exists|i: int|
                    {
                        &&& 0 <= i < store.users@.len()
                        &&& (#[trigger] store.users@[i]).email@ == input.email@
                        &&& phc_matches(input.password@, store.users@[i].password_hash@)
                        &&& user_matches(body.user, store.users@[i])
                        &&& token_for(
                            body.user,
                            ctx.config.jwt.secret@,
                            store.users@[i].id,
                            now,
                        )
                    },
                Err(e) => (e is NotFound && !has_user_email(store.users@, input.email@)) || (
                e is Unauthorized && has_user_email(store.users@, input.email@)),
            },
            (r is Ok) == login_ok(store.users@, input.email@, input.password@),
    {
        let idx = match find_user_by_email(&store.users, input.email.as_str()) {
            Some(i) => i,
            None => {
                return Err(AppError::NotFound("User not found".to_owned()));
            },
        };
        if !verify_password(input.password.as_str(), store.users[idx].password_hash.as_str()) {
            proof {
                assert forall|i: int|
                    0 <= i < store.users@.len() && (#[trigger] store.users@[i]).email@
                        == input.email@ implies !phc_matches(
                    input.password@,
                    store.users@[i].password_hash@,
                ) by {
                    if i != idx {
                        assert(store.users@[i].email@ != store.users@[idx as int].email@);
                    }
                }
            }
            return Err(AppError::Unauthorized("Invalid email or password".to_owned()));
        }
        let mut user = store.users[idx].to_user();
        let au = AuthUser { user_id: user.id };
        user.set_token(au.to_jwt(ctx, now));
        Ok(UserBody { user })
    }

    /// Updates the authenticated user's record: each given field replaces
    /// the stored one, a given password is freshly hashed, and a given email
    /// or username that another user already carries is a conflict.
    pub fn update_user(
        store: &mut Store,
        ctx: &AppContext,
        auth: &AuthUser,
        input: UserUpdateInput,
        now: i64,
    ) -> (r: Result<UserBody<User>, AppError>)
        requires
            old(store).wf(),
            now + JWT_EXPIRES_IN <= i64::MAX,
        ensures
            final(store).wf(),
            final(store).articles == old(store).articles,
            final(store).comments == old(store).comments,
            final(store).follows == old(store).follows,
            final(store).favorites == old(store).favorites,
            final(store).next_user_id == old(store).next_user_id,
            final(store).next_article_id == old(store).next_article_id,
            final(store).next_comment_id == old(store).next_comment_id,
            match r {
                Ok(body) => exists|i: int|
                    {
                        &&& 0 <= i < old(store).users@.len()
                        &&& (#[trigger] old(store).users@[i]).id == auth.user_id
                        &&& final(store).users@ == old(store).users@.update(
                            i,
                            final(store).users@[i],
                        )
                        &&& user_updated(old(store).users@[i], final(store).users@[i], input, now)
                        &&& user_matches(body.user, final(store).users@[i])
                        &&& token_for(body.user, ctx.config.jwt.secret@, auth.user_id, now)
                    },
                Err(e) => {
                    &&& *final(store) == *old(store)
                    &&& ((e is NotFound && !has_user_id(old(store).users@, auth.user_id)) || (
                    e is Conflict && has_user_id(old(store).users@, auth.user_id)
                        && update_conflict(old(store).users@, auth.user_id, input)))
                },
            },
            (r is Ok) == (has_user_id(old(store).users@, auth.user_id) && !update_conflict(
                old(store).users@,
                auth.user_id,
                input,
            )),
    {
        let idx = match find_user_by_id(&store.users, auth.user_id) {
            Some(i) => i,
            None => {
                return Err(AppError::NotFound("User not found".to_owned()));
            },
        };
        if let Some(email) = &input.email {
            if let Some(j) = find_user_by_email(&store.users, email.as_str()) {
                if j != idx {
                    return Err(AppError::Conflict("Email is already taken".to_owned()));
                }
            }
        }
        if let Some(username) = &input.username {
            if let Some(j) = find_user_by_username(&store.users, username.as_str()) {
                if j != idx {
                    return Err(AppError::Conflict("Username is already taken".to_owned()));
                }
            }
        }
        proof {
            assert(!update_conflict(store.users@, auth.user_id, input)) by {
                if update_conflict(store.users@, auth.user_id, input) {
                    let j = choose|j: int|
                        0 <= j < store.users@.len() && (#[trigger] store.users@[j]).id
                            != auth.user_id && ((input.email matches Some(e) && store.users@[j].email@
                            == e@) || (input.username matches Some(u) && store.users@[j].username@
                            == u@));
                    assert(store.users@[j].id != store.users@[idx as int].id);
                }
            }
        }
        let ghost old_users = store.users@;
        if let Some(email) = input.email {
            store.users[idx].email = email;
        }
        if let Some(username) = input.username {
            store.users[idx].username = username;
        }
        if let Some(bio) = input.bio {
            store.users[idx].bio = Some(bio);
        }
        if let Some(image) = input.image {
            store.users[idx].image = Some(image);
        }
        if let Some(password) = input.password {
            store.users[idx].password_hash = hash_password(password.as_str());
        }
        store.users[idx].updated_at = now;
        proof {
            assert(store.users@ =~= old_users.update(idx as int, store.users@[idx as int]));
            assert forall|i: int|
                0 <= i < store.articles@.len() implies has_user_id(
                store.users@,
                (#[trigger] store.articles@[i]).author_id,
            ) by {
                lemma_has_user_id_same_ids(old_users, store.users@, store.articles@[i].author_id);
            }
            assert forall|i: int|
                0 <= i < store.comments@.len() implies has_user_id(
                store.users@,
                (#[trigger] store.comments@[i]).author_id,
            ) by {
                lemma_has_user_id_same_ids(old_users, store.users@, store.comments@[i].author_id);
            }
        }
        let mut user = store.users[idx].to_user();
        user.set_token(auth.to_jwt(ctx, now));
        Ok(UserBody { user })
    }
}

} // verus!
