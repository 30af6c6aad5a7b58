//! The records as the store holds them, as far as the laws of the library
//! speak of them: who a token stands for, and what deleting a post comes to.

use vstd::prelude::*;
use crate::api_error::{failure, ApiError, ApiErrorView, StoreError};
use crate::clock::Timestamp;
use crate::credentials::spec_verify;
use crate::posts::{InsertablePostView, NewPost, Post};
use crate::users::{unknown_token, RegistrationView, TokenTable, User};

verus! {

/// The account table: the rows by their ids.
pub struct AccountTable {
    pub rows: Map<u128, User>,
}

impl AccountTable {
    /// Whether the table holds an account with this id.
    pub open spec fn holds(self, id: u128) -> bool {
        self.rows.dom().contains(id)
    }

    /// What fetching the account with this id gives.
    pub open spec fn fetch(self, id: u128) -> Result<User, ApiErrorView> {
        if self.holds(id) {
            Ok(self.rows[id])
        } else {
            Err(ApiError::spec_from_store(StoreError::NotFound))
        }
    }

    /// Whether the table holds an account with this username.
    pub open spec fn named(self, username: Seq<char>) -> bool {
        exists|id: u128| self.holds(id) && (#[trigger] self.rows[id]).username@ == username
    }

    /// What fetching the account with this username gives.
    pub open spec fn by_name(self, username: Seq<char>) -> Result<User, ApiErrorView> {
        if self.named(username) {
            Ok(
                self.rows[choose|id: u128|
                    self.holds(id) && (#[trigger] self.rows[id]).username@ == username],
            )
        } else {
            Err(ApiError::spec_from_store(StoreError::NotFound))
        }
    }

    /// The table with one more account, under the id that the store picked
    /// for it.
    pub open spec fn insert(self, row: User) -> AccountTable {
        AccountTable { rows: self.rows.insert(row.id, row) }
    }
}

/// The post table: the rows by their ids.
pub struct PostTable {
    pub rows: Map<i32, Post>,
}

impl PostTable {
    /// Whether the table holds a post with this id.
    pub open spec fn holds(self, id: i32) -> bool {
        self.rows.dom().contains(id)
    }

    /// What fetching the post with this id gives.
    pub open spec fn fetch(self, id: i32) -> Result<Post, ApiErrorView> {
        if self.holds(id) {
            Ok(self.rows[id])
        } else {
            Err(ApiError::spec_from_store(StoreError::NotFound))
        }
    }

    /// The table without the post with this id.
    pub open spec fn without(self, id: i32) -> PostTable {
        PostTable { rows: self.rows.remove(id) }
    }
}

/// The tables of the store.
pub struct Store {
    pub tokens: TokenTable,
    pub accounts: AccountTable,
    pub posts: PostTable,
}

impl Store {
    /// Establishes who calls, by a token, at `now`: the store afterwards,
    /// and the account that the token stands for or why there is none.
    /// Looking the token up may delete it; nothing else changes.
    pub open spec fn caller(self, token: u128, now: Timestamp) -> (
        Store,
        Result<User, ApiErrorView>,
    ) {
        let (tokens, owner) = self.tokens.authenticate(token, now);
        let store = Store { tokens, accounts: self.accounts, posts: self.posts };
        match owner {
            Ok(id) => (store, store.accounts.fetch(id)),
            Err(error) => (store, Err(error)),
        }
    }

    /// Deletes a post on behalf of whoever holds the token, at `now`: the
    /// store afterwards, and whether the post was deleted or why not. The
    /// caller is established first, then the post is fetched, then the
    /// caller must be its author.
    pub open spec fn delete_post(self, token: u128, post: i32, now: Timestamp) -> (
        Store,
        Result<(), ApiErrorView>,
    ) {
        let (store, caller) = self.caller(token, now);
        match caller {
            Err(error) => (store, Err(error)),
            Ok(user) => match store.posts.fetch(post) {
                Err(error) => (store, Err(error)),
                Ok(row) => match user.spec_authorize(row.author@, Post::delete_refusal()) {
                    Err(error) => (store, Err(error)),
                    Ok(_) => (
                        Store {
                            tokens: store.tokens,
                            accounts: store.accounts,
                            posts: store.posts.without(post),
                        },
                        Ok(()),
                    ),
                },
            },
        }
    }

    /// Registers an account, given what is to be stored of the registration
    /// and the row that the store makes of it: the store afterwards, and the
    /// account or why there is none. A username is given out once.
    pub open spec fn register(self, stored: Result<RegistrationView, ApiErrorView>, row: User) -> (
        Store,
        Result<User, ApiErrorView>,
    )
        recommends
            stored matches Ok(registration) ==> row.username@ == registration.username
                && row.password@ == registration.password,
    {
        match stored {
            Err(error) => (self, Err(error)),
            Ok(registration) => match User::spec_available(
                self.accounts.by_name(registration.username),
            ) {
                Err(error) => (self, Err(error)),
                Ok(_) => (
                    Store {
                        tokens: self.tokens,
                        accounts: self.accounts.insert(row),
                        posts: self.posts,
                    },
                    Ok(row),
                ),
            },
        }
    }

    /// Logs in under a username with a password: the account, or why there
    /// is none.
    pub open spec fn login(self, username: Seq<char>, password: Seq<char>) -> Result<
        User,
        ApiErrorView,
    > {
        User::spec_login(self.accounts.by_name(username), password)
    }

    /// Drafts a post on behalf of whoever holds the token, at `now`: the
    /// store afterwards, and what is to be stored of the post or why there
    /// is nothing.
    pub open spec fn draft_post(self, token: u128, post: NewPost, now: Timestamp) -> (
        Store,
        Result<InsertablePostView, ApiErrorView>,
    ) {
        let (store, caller) = self.caller(token, now);
        match caller {
            Err(error) => (store, Err(error)),
            Ok(user) => (store, Ok(Post::spec_draft(post, user.username@))),
        }
    }

    /// Whether the token is in the store, has not expired at `now`, and
    /// stands for an account that is in the store.
    pub open spec fn valid_token(self, token: u128, now: Timestamp) -> bool {
        &&& self.tokens.holds(token)
        &&& !self.tokens.rows[token].spec_expired(now)
        &&& self.accounts.holds(self.tokens.rows[token].user)
    }

    /// The account that a valid token stands for.
    pub open spec fn holder(self, token: u128) -> User {
        self.accounts.rows[self.tokens.rows[token].user]
    }
}

/// A valid token establishes the account that it stands for, and changes
/// nothing.
pub proof fn lemma_valid_token_establishes_its_holder(store: Store, token: u128, now: Timestamp)
    requires
        store.valid_token(token, now),
    ensures
        store.caller(token, now) == (store, Ok::<User, ApiErrorView>(store.holder(token))),
{
}

/// What logging in under a username of no account comes to.
pub open spec fn unknown_user() -> Result<User, ApiErrorView> {
    Err(failure(404, "Unknown user."@))
}

/// A username is registered once: after an account was registered under
/// it, registering under it again is a conflict and changes nothing.
pub proof fn lemma_username_is_registered_once(
    store: Store,
    first: RegistrationView,
    row: User,
    second: RegistrationView,
    other: User,
)
    requires
        row.username@ == first.username,
        second.username == first.username,
        store.register(Ok(first), row).1 is Ok,
    ensures
        store.register(Ok(first), row).0.register(Ok(second), other) == (
            store.register(Ok(first), row).0,
            Err::<User, ApiErrorView>(failure(409, "Username already in use."@)),
        ),
{
    let after = store.register(Ok(first), row).0;
    assert(after.accounts.holds(row.id) && after.accounts.rows[row.id].username@
        == second.username);
}

/// Logging in goes by the password: under the username of an account, the
/// password that verifies against the stored hash logs in, as that account;
/// one that does not is an authentication failure; and under a username of
/// no account nobody logs in.
pub proof fn lemma_login_goes_by_the_password(
    store: Store,
    username: Seq<char>,
    password: Seq<char>,
)
    ensures
        !store.accounts.named(username) ==> store.login(username, password) == unknown_user(),
        store.accounts.named(username) ==> (store.accounts.by_name(username) matches Ok(user)
            && user.username@ == username && store.login(username, password)
            == User::spec_admitted(user, spec_verify(password, user.password@))),
        store.accounts.by_name(username) matches Ok(user) ==> (spec_verify(
            password,
            user.password@,
        ) matches Ok(true) ==> store.login(username, password) == Ok::<User, ApiErrorView>(user)),
        store.accounts.by_name(username) matches Ok(user) ==> (spec_verify(
            password,
            user.password@,
        ) matches Ok(false) ==> store.login(username, password) == Err::<User, ApiErrorView>(
            failure(401, "Invalid password."@),
        )),
{
}

/// A post that is drafted by a valid token goes under the username of the
/// account that the token stands for, and drafting changes nothing.
pub proof fn lemma_post_goes_under_its_author(
    store: Store,
    token: u128,
    post: NewPost,
    now: Timestamp,
)
    requires
        store.valid_token(token, now),
    ensures
        store.draft_post(token, post, now).0 == store,
        store.draft_post(token, post, now).1 matches Ok(draft) && draft.author
            == store.holder(token).username@ && draft.title == post.title@,
{
}

/// Whoever is not the author of a post cannot delete it: the attempt is an
/// authorization failure, not an authentication failure, and the post and
/// everything else in the store stay as they are.
pub proof fn lemma_only_the_author_deletes(store: Store, token: u128, post: i32, now: Timestamp)
    requires
        store.valid_token(token, now),
        store.posts.holds(post),
        store.holder(token).username@ != store.posts.rows[post].author@,
    ensures
        store.delete_post(token, post, now) == (
            store,
            Err::<(), ApiErrorView>(failure(403, Post::delete_refusal())),
        ),
        store.delete_post(token, post, now).0.posts.fetch(post) == Ok::<Post, ApiErrorView>(
            store.posts.rows[post],
        ),
{
}

/// The author of a post deletes it: afterwards the store holds no post with
/// its id, every other post is as it was, and so are the tokens and the
/// accounts.
pub proof fn lemma_the_author_deletes(store: Store, token: u128, post: i32, now: Timestamp)
    requires
        store.valid_token(token, now),
        store.posts.holds(post),
        store.holder(token).username@ == store.posts.rows[post].author@,
    ensures
        store.delete_post(token, post, now).1 == Ok::<(), ApiErrorView>(()),
        store.delete_post(token, post, now).0.tokens == store.tokens,
        store.delete_post(token, post, now).0.accounts == store.accounts,
        store.delete_post(token, post, now).0.posts == store.posts.without(post),
        !store.delete_post(token, post, now).0.posts.holds(post),
        forall|other: i32|
            other != post ==> #[trigger] store.delete_post(token, post, now).0.posts.fetch(other)
                == store.posts.fetch(other),
{
}

/// Without a valid token nothing is deleted: a token that is missing or has
/// expired is an authentication failure, and the posts stay as they are.
pub proof fn lemma_nobody_deletes_without_a_token(
    store: Store,
    token: u128,
    post: i32,
    now: Timestamp,
)
    requires
        store.tokens.well_formed(),
        !store.tokens.holds(token) || store.tokens.rows[token].spec_expired(now),
    ensures
        store.delete_post(token, post, now).1 == Err::<(), ApiErrorView>(unknown_token()),
        store.delete_post(token, post, now).0.posts == store.posts,
{
}

} // verus!
