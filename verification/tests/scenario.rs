use ephemeris::api_error::{ApiError, StoreError};
use ephemeris::clock::Timestamp;
use ephemeris::posts::{NewPost, Post};
use ephemeris::users::{Login, NewToken, Registration, Token, User};

/// A store in memory that does what the tests need of a database.
struct Store {
    users: Vec<User>,
    tokens: Vec<Token>,
    posts: Vec<Post>,
    now: Timestamp,
}

fn copy_of(user: &User) -> User {
    User {
        id: user.id,
        username: user.username.clone(),
        password: user.password.clone(),
        about: user.about.clone(),
        created_at: user.created_at,
        updated_at: user.updated_at,
    }
}

impl Store {
    fn new(now: Timestamp) -> Store {
        Store { users: Vec::new(), tokens: Vec::new(), posts: Vec::new(), now }
    }

    fn user_by_name(&self, username: &str) -> Result<User, ApiError> {
        match self.users.iter().find(|u| u.username == username) {
            Some(user) => Ok(copy_of(user)),
            None => Err(ApiError::from_store(StoreError::NotFound)),
        }
    }

    fn user_by_id(&self, id: u128) -> Result<User, ApiError> {
        match self.users.iter().find(|u| u.id == id) {
            Some(user) => Ok(copy_of(user)),
            None => Err(ApiError::from_store(StoreError::NotFound)),
        }
    }

    fn token_by_id(&self, id: u128) -> Result<Token, ApiError> {
        match self.tokens.iter().find(|t| t.id == id) {
            Some(token) => Ok(*token),
            None => Err(ApiError::from_store(StoreError::NotFound)),
        }
    }

    fn register(&mut self, username: &str, password: &str) -> Result<u16, ApiError> {
        if User::valid_username(username).is_err() {
            return Err(ApiError::new(400, "username".to_string()));
        }
        let form = Registration { username: username.to_string(), password: password.to_string() };
        let stored = form.prepare()?;
        User::available(self.user_by_name(&stored.username))?;
        self.users.push(User {
            id: 1000 + self.users.len() as u128,
            username: stored.username,
            password: stored.password,
            about: None,
            created_at: self.now,
            updated_at: None,
        });
        Ok(201)
    }

    fn login(&mut self, username: &str, password: &str) -> Result<Token, ApiError> {
        let login = Login { username: username.to_string(), password: password.to_string() };
        let user = User::login(self.user_by_name(username), &login)?;
        let new = NewToken::issued_at(user.id, self.now)?;
        let token = Token {
            id: 0xfeed_0000 + self.tokens.len() as u128,
            user: new.user,
            expiration: new.expiration,
            created_at: self.now,
            updated_at: None,
        };
        self.tokens.push(token);
        Ok(token)
    }

    fn authenticate(&mut self, token: u128) -> Result<User, ApiError> {
        let lookup = Token::find_at(self.token_by_id(token), self.now);
        if let Some(id) = lookup.cleanup {
            self.tokens.retain(|t| t.id != id);
        }
        let owner = User::from_token(lookup.result)?;
        self.user_by_id(owner)
    }

    fn logout(&mut self, token: u128) {
        self.tokens.retain(|t| t.id != token);
    }

    fn create_post(&mut self, token: u128, title: &str, body: &str) -> Result<i32, ApiError> {
        let author = self.authenticate(token)?;
        let new = NewPost { title: title.to_string(), subtitle: String::new(), body: body.to_string() };
        let draft = Post::draft(new, &author);
        let id = self.posts.len() as i32 + 1;
        self.posts.push(Post {
            id,
            author: draft.author,
            title: draft.title,
            subtitle: draft.subtitle,
            body: draft.body,
            created_at: self.now,
            updated_at: None,
        });
        Ok(id)
    }

    fn delete_post(&mut self, token: u128, id: i32) -> Result<u16, ApiError> {
        let user = self.authenticate(token)?;
        let position = match self.posts.iter().position(|p| p.id == id) {
            Some(position) => position,
            None => return Err(ApiError::from_store(StoreError::NotFound)),
        };
        self.posts[position].deletable_by(&user)?;
        self.posts.remove(position);
        Ok(204)
    }
}

#[test]
fn alice_registers_logs_in_posts_and_deletes() {
    let now = Timestamp::new(1_700_000_000, 0);
    let mut store = Store::new(now);

    assert_eq!(store.register("alice", "secret1").unwrap(), 201);
    assert_eq!(store.users[0].username, "alice");
    assert_ne!(store.users[0].password, "secret1");

    let e = store.register("alice", "secret1").unwrap_err();
    assert_eq!(e.status_code, 409);
    assert_eq!(e.response_status(), 409);
    assert_eq!(store.users.len(), 1);

    let e = store.login("alice", "wrong").unwrap_err();
    assert_eq!(e.status_code, 401);
    assert!(store.tokens.is_empty());

    let alice = store.login("alice", "secret1").unwrap();
    assert_eq!(alice.user, store.users[0].id);
    assert_eq!(alice.expiration, Timestamp::new(1_700_000_000 + 14 * 86_400, 0));

    let post = store.create_post(alice.id, "Hello", "  first post\n").unwrap();
    assert_eq!(store.posts[0].author, "alice");
    assert_eq!(store.posts[0].body, "first post");

    assert_eq!(store.register("bob", "hunter22").unwrap(), 201);
    let bob = store.login("bob", "hunter22").unwrap();
    let e = store.delete_post(bob.id, post).unwrap_err();
    assert_eq!(e.status_code, 403);
    assert_eq!(e.response_body(), "You can't delete this post.");
    assert_eq!(store.posts.len(), 1);

    assert_eq!(store.delete_post(alice.id, post).unwrap(), 204);
    assert!(store.posts.is_empty());
}

#[test]
fn registering_in_another_case_is_a_conflict() {
    let mut store = Store::new(Timestamp::new(1_700_000_000, 0));
    assert_eq!(store.register("Alice", "secret1").unwrap(), 201);
    assert_eq!(store.users[0].username, "alice");
    assert_eq!(store.register("ALICE", "other-secret").unwrap_err().status_code, 409);
}

#[test]
fn issued_token_resolves_to_its_account_at_once() {
    let mut store = Store::new(Timestamp::new(1_700_000_000, 0));
    store.register("alice", "secret1").unwrap();
    let token = store.login("alice", "secret1").unwrap();
    let user = store.authenticate(token.id).unwrap();
    assert_eq!(user.id, token.user);
    assert_eq!(user.username, "alice");
    assert_eq!(store.tokens.len(), 1);
}

#[test]
fn token_resolves_until_its_expiration_and_is_deleted_after() {
    let mut store = Store::new(Timestamp::new(1_700_000_000, 0));
    store.register("alice", "secret1").unwrap();
    let token = store.login("alice", "secret1").unwrap();

    store.now = token.expiration;
    assert_eq!(store.authenticate(token.id).unwrap().username, "alice");
    assert_eq!(store.tokens.len(), 1);

    store.now = Timestamp::new(token.expiration.secs, 1);
    let first = store.authenticate(token.id).unwrap_err();
    assert_eq!((first.status_code, first.message.as_str()), (401, "Unknown token."));
    assert!(store.tokens.is_empty());

    let second = store.authenticate(token.id).unwrap_err();
    assert_eq!((second.status_code, second.message.as_str()), (401, "Unknown token."));

    store.now = Timestamp::new(1_700_000_000, 0);
    let third = store.authenticate(token.id).unwrap_err();
    assert_eq!((third.status_code, third.message.as_str()), (401, "Unknown token."));
}

#[test]
fn revoked_token_fails_as_one_that_never_existed() {
    let mut store = Store::new(Timestamp::new(1_700_000_000, 0));
    store.register("alice", "secret1").unwrap();
    let token = store.login("alice", "secret1").unwrap();
    let other = store.login("alice", "secret1").unwrap();

    store.logout(token.id);
    let revoked = store.authenticate(token.id).unwrap_err();
    let never = store.authenticate(0xdead_beef).unwrap_err();
    assert_eq!(revoked.status_code, never.status_code);
    assert_eq!(revoked.message, never.message);
    assert_eq!(revoked.response_status(), 401);
    assert_eq!(revoked.response_body(), never.response_body());

    store.logout(token.id);
    assert_eq!(store.authenticate(token.id).unwrap_err().status_code, 401);
    assert_eq!(store.authenticate(other.id).unwrap().username, "alice");
}

#[test]
fn post_by_an_unknown_token_is_refused() {
    let mut store = Store::new(Timestamp::new(1_700_000_000, 0));
    let e = store.create_post(1, "t", "b").unwrap_err();
    assert_eq!(e.status_code, 401);
    assert!(store.posts.is_empty());
}
