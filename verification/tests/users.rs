use ephemeris::api_error::{ApiError, StoreError};
use ephemeris::clock::Timestamp;
use ephemeris::credentials::hash_with;
use ephemeris::users::{Login, NewToken, Registration, Token, User, UsernameError, TOKEN_DAYS};

fn account(id: u128, username: &str, password: &str) -> User {
    User {
        id,
        username: username.to_string(),
        password: password.to_string(),
        about: None,
        created_at: Timestamp::new(1_700_000_000, 0),
        updated_at: None,
    }
}

fn token(id: u128, user: u128, expiration: Timestamp) -> Token {
    Token { id, user, expiration, created_at: Timestamp::new(1_700_000_000, 0), updated_at: None }
}

#[test]
fn valid_usernames_pass() {
    for name in ["_a.", "alice", "Bob_99", "a.b_c", "abc", "a2345678901234567890", "A.B.C", "..." ] {
        let expected = if name == "..." { Err(UsernameError::RepeatedSeparator) } else { Ok(()) };
        assert_eq!(User::valid_username(name), expected, "{}", name);
    }
}

#[test]
fn short_usernames_are_refused() {
    assert_eq!(User::valid_username(""), Err(UsernameError::TooShort));
    assert_eq!(User::valid_username("ab"), Err(UsernameError::TooShort));
    assert_eq!(User::valid_username("é"), Err(UsernameError::TooShort));
    assert_eq!(User::valid_username("__"), Err(UsernameError::TooShort));
}

#[test]
fn long_usernames_are_refused() {
    assert_eq!(User::valid_username("a23456789012345678901"), Err(UsernameError::TooLong));
    assert_eq!(User::valid_username("ééééééééééé"), Err(UsernameError::TooLong));
    assert_eq!(User::valid_username("this name is far too long, and has spaces"), Err(UsernameError::TooLong));
}

#[test]
fn lengths_are_counted_in_bytes() {
    assert_eq!(User::valid_username("éé"), Err(UsernameError::InvalidCharacter));
    assert_eq!(User::valid_username("éééééééééé"), Err(UsernameError::InvalidCharacter));
}

#[test]
fn other_characters_are_refused() {
    for name in ["al ice", "alice!", "al-ice", "ali\nce", "älice", "a__ b", "ab@"] {
        assert_eq!(User::valid_username(name), Err(UsernameError::InvalidCharacter), "{}", name);
    }
}

#[test]
fn repeated_separators_are_refused() {
    for name in ["_.a", "a..b", "a._b", "a_.b", "a__b", "abc__", "ab.."] {
        assert_eq!(User::valid_username(name), Err(UsernameError::RepeatedSeparator), "{}", name);
    }
}

#[test]
fn username_errors_have_their_sentences() {
    assert_eq!(UsernameError::TooShort.message(), "Username must be at  least 3 characters long.");
    assert_eq!(UsernameError::TooLong.message(), "Username can be at most 20 characters long.");
    assert_eq!(
        UsernameError::InvalidCharacter.message(),
        "Username can contain only letters, digits, underscores, and periods."
    );
    assert_eq!(
        UsernameError::RepeatedSeparator.message(),
        "Username can't contain an underscore or a period following an underscore or a period."
    );
}

#[test]
fn new_token_expires_fourteen_days_after_issue() {
    assert_eq!(TOKEN_DAYS, 14);
    let now = Timestamp::new(1_700_000_000, 250);
    let t = NewToken::issued_at(42, now).unwrap();
    assert_eq!(t.user, 42);
    assert_eq!(t.expiration, Timestamp::new(1_701_209_600, 250));
}

#[test]
fn new_token_fails_internally_where_the_calendar_ends() {
    let e = NewToken::issued_at(42, Timestamp::new(i64::MAX, 0)).unwrap_err();
    assert_eq!(e.status_code, 500);
    assert_eq!(e.message, "Couldn't compute expiration date of token");
    let e = NewToken::expiring(42, None).unwrap_err();
    assert_eq!((e.status_code, e.message.as_str()), (500, "Couldn't compute expiration date of token"));
    assert_eq!(
        NewToken::expiring(42, Some(Timestamp::new(5, 6))).unwrap(),
        NewToken { user: 42, expiration: Timestamp::new(5, 6) }
    );
}

#[test]
fn new_token_is_issued_by_the_clock() {
    let before = Timestamp::now();
    let t = NewToken::new(7).unwrap();
    let after = Timestamp::now();
    assert_eq!(t.user, 7);
    assert!(!t.expiration.before(&before.plus_days(14).unwrap()));
    assert!(!after.plus_days(14).unwrap().before(&t.expiration));
}

#[test]
fn valid_token_is_found() {
    let t = token(1, 42, Timestamp::new(2_000, 0));
    let lookup = Token::find_at(Ok(t), Timestamp::new(1_999, 999_999_999));
    assert_eq!(lookup.cleanup, None);
    assert_eq!(lookup.result.unwrap(), t);
}

#[test]
fn token_is_still_valid_at_its_expiration() {
    let t = token(1, 42, Timestamp::new(2_000, 10));
    assert!(!t.expired(&Timestamp::new(2_000, 10)));
    let lookup = Token::find_at(Ok(t), Timestamp::new(2_000, 10));
    assert_eq!(lookup.cleanup, None);
    assert_eq!(lookup.result.unwrap(), t);
}

#[test]
fn expired_token_is_deleted_and_reported_missing() {
    let t = token(9, 42, Timestamp::new(2_000, 10));
    assert!(t.expired(&Timestamp::new(2_000, 11)));
    let lookup = Token::find_at(Ok(t), Timestamp::new(2_000, 11));
    assert_eq!(lookup.cleanup, Some(9));
    let e = lookup.result.unwrap_err();
    assert_eq!(e.status_code, 404);
    assert_eq!(e.message, "Token has expired.");
}

#[test]
fn failure_of_the_store_stands() {
    let lookup = Token::find_at(Err(ApiError::from_store(StoreError::NotFound)), Timestamp::new(0, 0));
    assert_eq!(lookup.cleanup, None);
    let e = lookup.result.unwrap_err();
    assert_eq!((e.status_code, e.message.as_str()), (404, "Record not found"));
    let lookup = Token::find(Err(ApiError::new(500, "Couldn't get db connection: timed out".to_string())));
    assert_eq!(lookup.cleanup, None);
    let e = lookup.result.unwrap_err();
    assert_eq!((e.status_code, e.message.as_str()), (500, "Couldn't get db connection: timed out"));
}

#[test]
fn find_goes_by_the_clock() {
    let now = Timestamp::now();
    let fresh = token(1, 2, now.plus_days(14).unwrap());
    let lookup = Token::find(Ok(fresh));
    assert_eq!(lookup.cleanup, None);
    assert_eq!(lookup.result.unwrap(), fresh);
    let stale = token(3, 2, now.plus_days(-1).unwrap());
    let lookup = Token::find(Ok(stale));
    assert_eq!(lookup.cleanup, Some(3));
    assert_eq!(lookup.result.unwrap_err().status_code, 404);
}

#[test]
fn from_token_gives_the_owner() {
    let t = token(1, 42, Timestamp::new(2_000, 0));
    assert_eq!(User::from_token(Ok(t)).unwrap(), 42);
}

#[test]
fn missing_and_expired_tokens_are_the_same_failure() {
    let missing = User::from_token(Token::find_at(
        Err(ApiError::from_store(StoreError::NotFound)),
        Timestamp::new(5_000, 0),
    ).result).unwrap_err();
    let expired = User::from_token(Token::find_at(
        Ok(token(1, 42, Timestamp::new(2_000, 0))),
        Timestamp::new(5_000, 0),
    ).result).unwrap_err();
    assert_eq!(missing.status_code, 401);
    assert_eq!(missing.message, "Unknown token.");
    assert_eq!(expired.status_code, missing.status_code);
    assert_eq!(expired.message, missing.message);
}

#[test]
fn other_failures_pass_through_from_token() {
    let e = User::from_token(Err(ApiError::new(500, "Diesel error: broken pipe".to_string()))).unwrap_err();
    assert_eq!((e.status_code, e.message.as_str()), (500, "Diesel error: broken pipe"));
    let e = User::from_token(Err(ApiError::new(403, "no".to_string()))).unwrap_err();
    assert_eq!((e.status_code, e.message.as_str()), (403, "no"));
}

#[test]
fn login_with_the_right_password() {
    let stored = hash_with("secret1", &[9u8; 32]).unwrap();
    let login = Login { username: "alice".to_string(), password: "secret1".to_string() };
    let user = User::login(Ok(account(42, "alice", &stored)), &login).unwrap();
    assert_eq!(user.id, 42);
    assert_eq!(user.username, "alice");
}

#[test]
fn login_with_a_wrong_password_is_401() {
    let stored = hash_with("secret1", &[9u8; 32]).unwrap();
    let login = Login { username: "alice".to_string(), password: "wrong".to_string() };
    let e = User::login(Ok(account(42, "alice", &stored)), &login).unwrap_err();
    assert_eq!(e.status_code, 401);
    assert_eq!(e.message, "Invalid password.");
}

#[test]
fn login_of_an_unknown_user_is_404() {
    let login = Login { username: "nobody".to_string(), password: "secret1".to_string() };
    let e = User::login(Err(ApiError::from_store(StoreError::NotFound)), &login).unwrap_err();
    assert_eq!((e.status_code, e.message.as_str()), (404, "Unknown user."));
}

#[test]
fn login_while_the_store_is_down_is_500() {
    let login = Login { username: "alice".to_string(), password: "secret1".to_string() };
    let down = ApiError::from_store(StoreError::Failure("connection refused".to_string()));
    let e = User::login(Err(down), &login).unwrap_err();
    assert_eq!((e.status_code, e.message.as_str()), (500, "Diesel error: connection refused"));
    assert_eq!(e.response_status(), 500);
    assert_eq!(e.response_body(), "Internal Server Error");
    let e = User::login(Err(ApiError::new(500, "Couldn't get db connection: timed out".to_string())), &login)
        .unwrap_err();
    assert_eq!((e.status_code, e.message.as_str()), (500, "Couldn't get db connection: timed out"));
}

#[test]
fn login_against_a_broken_hash_is_500() {
    let login = Login { username: "alice".to_string(), password: "secret1".to_string() };
    let e = User::login(Ok(account(42, "alice", "secret1")), &login).unwrap_err();
    assert_eq!(e.status_code, 500);
    assert_eq!(e.message, "Couldn't verify hash: Decoding failed");
}

#[test]
fn admitted_goes_by_the_verdict() {
    assert_eq!(User::admitted(account(1, "a", "h"), Ok(true)).unwrap().id, 1);
    let e = User::admitted(account(1, "a", "h"), Ok(false)).unwrap_err();
    assert_eq!((e.status_code, e.message.as_str()), (401, "Invalid password."));
    let e = User::admitted(account(1, "a", "h"), Err(ApiError::new(500, "x".to_string()))).unwrap_err();
    assert_eq!((e.status_code, e.message.as_str()), (500, "x"));
}

#[test]
fn taken_username_is_409() {
    assert!(User::available(Err(ApiError::from_store(StoreError::NotFound))).is_ok());
    let e = User::available(Ok(account(1, "alice", "h"))).unwrap_err();
    assert_eq!((e.status_code, e.message.as_str()), (409, "Username already in use."));
}

#[test]
fn availability_is_not_decided_while_the_store_is_down() {
    let down = ApiError::from_store(StoreError::Failure("connection refused".to_string()));
    let e = User::available(Err(down)).unwrap_err();
    assert_eq!((e.status_code, e.message.as_str()), (500, "Diesel error: connection refused"));
}

#[test]
fn registration_stores_lower_case_and_a_hash() {
    let r = Registration { username: "AlIce_9.Z".to_string(), password: "secret1".to_string() };
    let stored = r.stored_with(&[4u8; 32]).unwrap();
    assert_eq!(stored.username, "alice_9.z");
    assert_ne!(stored.password, "secret1");
    assert_eq!(stored.password, hash_with("secret1", &[4u8; 32]).unwrap());
    assert_eq!(ephemeris::credentials::verify("secret1", &stored.password).unwrap(), true);
}

#[test]
fn registration_leaves_other_letters_alone() {
    let r = Registration { username: "ÉCOLE École".to_string(), password: "x".to_string() };
    let stored = r.stored(Ok("hash".to_string())).unwrap();
    assert_eq!(stored.username, "École École");
    assert_eq!(stored.password, "hash");
}

#[test]
fn registration_without_a_hash_fails() {
    let r = Registration { username: "alice".to_string(), password: "x".to_string() };
    let e = r.stored(Err(ApiError::new(500, "Couldn't hash password: Salt is too short".to_string()))).unwrap_err();
    assert_eq!((e.status_code, e.message.as_str()), (500, "Couldn't hash password: Salt is too short"));
}

#[test]
fn prepare_draws_a_fresh_salt() {
    let first = Registration { username: "Alice".to_string(), password: "secret1".to_string() }.prepare().unwrap();
    let second = Registration { username: "Alice".to_string(), password: "secret1".to_string() }.prepare().unwrap();
    assert_eq!(first.username, "alice");
    assert_ne!(first.password, second.password);
    assert_eq!(ephemeris::credentials::verify("secret1", &first.password).unwrap(), true);
}

#[test]
fn only_the_author_is_authorized() {
    let alice = account(1, "alice", "h");
    assert!(alice.owns(&"alice".to_string()));
    assert!(!alice.owns(&"bob".to_string()));
    assert!(!alice.owns(&"Alice".to_string()));
    assert!(alice.authorize(&"alice".to_string(), "no").is_ok());
    let e = alice.authorize(&"bob".to_string(), "You can't do this.").unwrap_err();
    assert_eq!((e.status_code, e.message.as_str()), (403, "You can't do this."));
}
