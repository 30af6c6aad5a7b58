//! Accounts and their session tokens: what a username may look like, how an
//! account registers and logs in, and how a token is issued, resolved,
//! expired and revoked.

use vstd::prelude::*;
use vstd::string::*;
use vstd::utf8::*;
use crate::api_error::{failure, outcome, ApiError, ApiErrorView, StoreError};
use crate::clock::{chrono_add_days, spec_timestamp, Timestamp};
use crate::credentials::{
    fresh_salt, hash_outcome, hash_with, spec_hash, spec_verify, verify,
};
use crate::text::{spec_lowercase, to_ascii_lowercase};

verus! {

/// What a new account asks for.
#[derive(Debug)]
pub struct Registration {
    pub username: String,
    pub password: String,
}

/// What an account logs in with.
#[derive(Debug)]
pub struct Login {
    pub username: String,
    pub password: String,
}

/// A token that is about to be stored: the store gives it its id.
#[derive(Debug, Clone, Copy, PartialEq, Eq, Structural)]
pub struct NewToken {
    /// The id of the account that the token belongs to.
    pub user: u128,
    /// When the token stops being valid.
    pub expiration: Timestamp,
}

/// A token is a secret that authenticates an account. It is created when the
/// account logs in.
#[derive(Debug, Clone, Copy, PartialEq, Eq, Structural)]
pub struct Token {
    /// The id of the token: the secret itself.
    pub id: u128,
    /// The id of the account that the token belongs to.
    pub user: u128,
    /// When the token stops being valid.
    pub expiration: Timestamp,
    /// When the token was created.
    pub created_at: Timestamp,
    /// When the token was last updated.
    pub updated_at: Option<Timestamp>,
}

/// An account.
#[derive(Debug)]
pub struct User {
    pub id: u128,
    /// Unique among the accounts, and stored in lower case.
    pub username: String,
    /// The encoded hash of the password, never the password.
    pub password: String,
    pub about: Option<String>,
    pub created_at: Timestamp,
    pub updated_at: Option<Timestamp>,
}

/// Why a text is no username.
#[derive(Debug, Clone, Copy, PartialEq, Eq, Structural)]
pub enum UsernameError {
    /// Fewer than 3 bytes.
    TooShort,
    /// More than 20 bytes.
    TooLong,
    /// A character that is no letter of the English alphabet, no digit, no
    /// underscore and no period.
    InvalidCharacter,
    /// An underscore or a period right after an underscore or a period.
    RepeatedSeparator,
}

impl UsernameError {
    /// The sentence that tells the user what is wrong.
    pub open spec fn spec_message(self) -> Seq<char> {
        match self {
            UsernameError::TooShort => "Username must be at  least 3 characters long."@,
            UsernameError::TooLong => "Username can be at most 20 characters long."@,
            UsernameError::InvalidCharacter => "Username can contain only letters, digits, underscores, and periods."@,
            UsernameError::RepeatedSeparator => "Username can't contain an underscore or a period following an underscore or a period."@,
        }
    }

    /// The sentence that tells the user what is wrong.
    pub fn message(&self) -> (s: &'static str)
        ensures
            s@ == self.spec_message(),
    {
        match self {
            UsernameError::TooShort => "Username must be at  least 3 characters long.",
            UsernameError::TooLong => "Username can be at most 20 characters long.",
            UsernameError::InvalidCharacter => "Username can contain only letters, digits, underscores, and periods.",
            UsernameError::RepeatedSeparator => "Username can't contain an underscore or a period following an underscore or a period.",
        }
    }
}

/// Whether a username may hold the character: a letter of the English
/// alphabet in either case, a digit, an underscore or a period.
pub open spec fn spec_username_char(c: char) -> bool {
    ('a' <= c && c <= 'z') || ('A' <= c && c <= 'Z') || ('0' <= c && c <= '9') || c == '_' || c
        == '.'
}

/// Whether the character separates the parts of a username.
pub open spec fn spec_separator(c: char) -> bool {
    c == '_' || c == '.'
}

/// Whether every character of the text may stand in a username.
pub open spec fn only_username_chars(s: Seq<char>) -> bool {
    forall|i: int| 0 <= i < s.len() ==> spec_username_char(#[trigger] s[i])
}

/// Whether a separator follows a separator somewhere in the text.
pub open spec fn repeats_separator(s: Seq<char>) -> bool {
    exists|i: int|
        0 <= i < s.len() - 1 && spec_separator(#[trigger] s[i]) && spec_separator(s[i + 1])
}

/// Whether a text is a username, and if not, the first reason in this
/// order: too short, too long, a character that may not stand in one, a
/// repeated separator. Lengths are counted in bytes of UTF-8.
pub open spec fn spec_valid_username(s: Seq<char>) -> Result<(), UsernameError> {
    if encode_utf8(s).len() < 3 {
        Err(UsernameError::TooShort)
    } else if encode_utf8(s).len() > 20 {
        Err(UsernameError::TooLong)
    } else if !only_username_chars(s) {
        Err(UsernameError::InvalidCharacter)
    } else if repeats_separator(s) {
        Err(UsernameError::RepeatedSeparator)
    } else {
        Ok(())
    }
}

fn username_char(c: char) -> (b: bool)
    ensures
        b == spec_username_char(c),
{
    ('a' <= c && c <= 'z') || ('A' <= c && c <= 'Z') || ('0' <= c && c <= '9') || c == '_' || c
        == '.'
}

fn separator(c: char) -> (b: bool)
    ensures
        b == spec_separator(c),
{
    c == '_' || c == '.'
}

impl User {
    /// Checks if the given text constitutes a valid username.
    ///
    /// A valid username
    /// - is at least 3 bytes long,
    /// - is at most 20 bytes long,
    /// - contains only letters, digits, underscores, and periods, and
    /// - contains no underscore or period following an underscore or a period.
    ///
    /// So `_a.` is one, and `_.a` is none.
    pub fn valid_username(username: &str) -> (res: Result<(), UsernameError>)
        ensures
            res == spec_valid_username(username@),
    {
        let bytes = username.as_bytes().len();
        if bytes < 3 {
            return Err(UsernameError::TooShort);
        }
        if bytes > 20 {
            return Err(UsernameError::TooLong);
        }
        let n = username.unicode_len();
        let mut i: usize = 0;
        while i < n
            invariant
                i <= n,
                n == username@.len(),
                3 <= encode_utf8(username@).len() <= 20,
                forall|k: int| 0 <= k < i ==> spec_username_char(#[trigger] username@[k]),
            decreases n - i,
        {
            if !username_char(username.get_char(i)) {
                return Err(UsernameError::InvalidCharacter);
            }
            i += 1;
        }
        let mut i: usize = 1;
        while i < n
            invariant
                1 <= i,
                n == username@.len(),
                3 <= encode_utf8(username@).len() <= 20,
                only_username_chars(username@),
                forall|k: int|
                    0 <= k < i - 1 ==> !(spec_separator(#[trigger] username@[k]) && spec_separator(
                        username@[k + 1],
                    )),
            decreases n - i,
        {
            if separator(username.get_char(i - 1)) && separator(username.get_char(i)) {
                assert(spec_separator(username@[i - 1]) && spec_separator(username@[i - 1 + 1]));
                return Err(UsernameError::RepeatedSeparator);
            }
            i += 1;
        }
        Ok(())
    }
}

/// How long a token stays valid, in days.
pub const TOKEN_DAYS: i64 = 14;

impl NewToken {
    /// The token of an account, given when it expires; without an
    /// expiration there is no token, and the failure is internal.
    pub open spec fn spec_expiring(user: u128, expiration: Option<Timestamp>) -> Result<
        NewToken,
        ApiErrorView,
    > {
        match expiration {
            Some(expiration) => Ok(NewToken { user, expiration }),
            None => Err(failure(500, "Couldn't compute expiration date of token"@)),
        }
    }

    /// The token of an account, given when it expires.
    pub fn expiring(user: u128, expiration: Option<Timestamp>) -> (res: Result<NewToken, ApiError>)
        ensures
            outcome(res) == Self::spec_expiring(user, expiration),
    {
        match expiration {
            Some(expiration) => Ok(NewToken { user, expiration }),
            None => Err(
                ApiError::new(500, String::from_str("Couldn't compute expiration date of token")),
            ),
        }
    }

    /// A token for the account, issued at `now`: it expires 14 days later.
    /// There is none only where the calendar does not reach that far.
    pub fn issued_at(user: u128, now: Timestamp) -> (res: Result<NewToken, ApiError>)
        ensures
            outcome(res) == Self::spec_expiring(
                user,
                spec_timestamp(chrono_add_days(now.secs, now.nanos, TOKEN_DAYS)),
            ),
            now.well_formed() ==> (res matches Ok(token) ==> token.user == user && (
                token.expiration.secs as int,
                token.expiration.nanos as int,
            ) == now.spec_plus_days(TOKEN_DAYS as int)),
    {
        Self::expiring(user, now.plus_days(TOKEN_DAYS))
    }

    /// A token for the account, issued now: it expires 14 days from now.
    pub fn new(user: u128) -> (res: Result<NewToken, ApiError>)
        ensures
            res matches Ok(token) ==> token.user == user,
            exists|now: Timestamp|
                now.clock_reading() && outcome(res) == #[trigger] Self::spec_expiring(
                    user,
                    spec_timestamp(chrono_add_days(now.secs, now.nanos, TOKEN_DAYS)),
                ),
    {
        let now = Timestamp::now();
        let res = Self::issued_at(user, now);
        assert(outcome(res) == Self::spec_expiring(
            user,
            spec_timestamp(chrono_add_days(now.secs, now.nanos, TOKEN_DAYS)),
        ));
        res
    }
}

/// What looking a token up comes to.
#[derive(Debug)]
pub struct TokenLookup {
    /// The id of the row that the store is to delete before the result is
    /// reported, if there is one. Whether that deletion succeeds does not
    /// change the result.
    pub cleanup: Option<u128>,
    /// The token, if it is valid; else why there is none.
    pub result: Result<Token, ApiError>,
}

/// The mathematical content of a [`TokenLookup`].
pub struct TokenLookupView {
    pub cleanup: Option<u128>,
    pub result: Result<Token, ApiErrorView>,
}

impl View for TokenLookup {
    type V = TokenLookupView;

    open spec fn view(&self) -> TokenLookupView {
        TokenLookupView { cleanup: self.cleanup, result: outcome(self.result) }
    }
}

impl Token {
    /// Whether the token has expired at `now`: its expiration lies before
    /// `now`. At its expiration itself it is still valid.
    pub open spec fn spec_expired(self, now: Timestamp) -> bool {
        self.expiration.spec_before(now)
    }

    /// Whether the token has expired at `now`.
    pub fn expired(&self, now: &Timestamp) -> (b: bool)
        ensures
            b == self.spec_expired(*now),
    {
        self.expiration.before(now)
    }

    /// What fetching a token comes to at `now`. A failure of the store
    /// stands. A token that has expired is to be deleted, and is reported as
    /// a missing record. A valid token is the result.
    pub open spec fn spec_find_at(
        fetched: Result<Token, ApiErrorView>,
        now: Timestamp,
    ) -> TokenLookupView {
        match fetched {
            Err(error) => TokenLookupView { cleanup: None, result: Err(error) },
            Ok(token) => if token.spec_expired(now) {
                TokenLookupView {
                    cleanup: Some(token.id),
                    result: Err(failure(404, "Token has expired."@)),
                }
            } else {
                TokenLookupView { cleanup: None, result: Ok(token) }
            },
        }
    }

    /// Decides what fetching a token comes to at `now`.
    pub fn find_at(fetched: Result<Token, ApiError>, now: Timestamp) -> (lookup: TokenLookup)
        ensures
            lookup@ == Self::spec_find_at(outcome(fetched), now),
    {
        match fetched {
            Err(error) => TokenLookup { cleanup: None, result: Err(error) },
            Ok(token) => {
                if token.expired(&now) {
                    TokenLookup {
                        cleanup: Some(token.id),
                        result: Err(ApiError::new(404, String::from_str("Token has expired."))),
                    }
                } else {
                    TokenLookup { cleanup: None, result: Ok(token) }
                }
            },
        }
    }

    /// Decides what fetching a token comes to now, by the system clock.
    pub fn find(fetched: Result<Token, ApiError>) -> (lookup: TokenLookup)
        ensures
            exists|now: Timestamp|
                now.clock_reading() && lookup@ == #[trigger] Self::spec_find_at(
                    outcome(fetched),
                    now,
                ),
            fetched is Err ==> lookup.cleanup is None && outcome(lookup.result) == outcome(fetched),
    {
        let now = Timestamp::now();
        let ghost before = outcome(fetched);
        let lookup = Self::find_at(fetched, now);
        assert(lookup@ == Self::spec_find_at(before, now));
        lookup
    }
}

impl User {
    /// What the verdict on a password comes to for the account that was
    /// found. A hash that could not be verified is an internal failure. A
    /// password that does not match is an authentication failure.
    pub open spec fn spec_admitted(
        user: User,
        verdict: Result<bool, ApiErrorView>,
    ) -> Result<User, ApiErrorView> {
        match verdict {
            Err(error) => Err(error),
            Ok(true) => Ok(user),
            Ok(false) => Err(failure(401, "Invalid password."@)),
        }
    }

    /// What logging in with a password comes to, given what looking the
    /// username up gave. An account that is not there is unknown. Any other
    /// failure of the lookup stands: a store that is down is no unknown
    /// user. Else the password is verified against the hash that the account
    /// stores.
    pub open spec fn spec_login(
        found: Result<User, ApiErrorView>,
        password: Seq<char>,
    ) -> Result<User, ApiErrorView> {
        match found {
            Err(error) => if error.status_code == 404 {
                Err(failure(404, "Unknown user."@))
            } else {
                Err(error)
            },
            Ok(user) => Self::spec_admitted(user, spec_verify(password, user.password@)),
        }
    }

    /// The account that was found, if the verdict on the password is that it
    /// matches.
    pub fn admitted(user: User, verdict: Result<bool, ApiError>) -> (res: Result<User, ApiError>)
        ensures
            outcome(res) == Self::spec_admitted(user, outcome(verdict)),
    {
        match verdict {
            Err(error) => Err(error),
            Ok(true) => Ok(user),
            Ok(false) => Err(ApiError::new(401, String::from_str("Invalid password."))),
        }
    }

    /// Logs in: `found` is what looking the username of `login` up gave. The
    /// account comes back if the password of `login` verifies against the
    /// hash that the account stores.
    pub fn login(found: Result<User, ApiError>, login: &Login) -> (res: Result<User, ApiError>)
        ensures
            outcome(res) == Self::spec_login(outcome(found), login.password@),
    {
        match found {
            Err(error) => {
                if error.status_code == 404 {
                    Err(ApiError::new(404, String::from_str("Unknown user.")))
                } else {
                    Err(error)
                }
            },
            Ok(user) => {
                let verdict = verify(login.password.as_str(), user.password.as_str());
                Self::admitted(user, verdict)
            },
        }
    }

    /// The account that a token stands for, given what looking the token up
    /// came to. A token that is missing and one that has expired are one and
    /// the same authentication failure: the caller does not learn whether
    /// the token ever existed. Any other failure stands.
    pub open spec fn spec_from_token(lookup: Result<Token, ApiErrorView>) -> Result<
        u128,
        ApiErrorView,
    > {
        match lookup {
            Ok(token) => Ok(token.user),
            Err(error) => if error.status_code == 404 {
                Err(failure(401, "Unknown token."@))
            } else {
                Err(error)
            },
        }
    }

    /// The id of the account that a token stands for, given what looking the
    /// token up came to.
    pub fn from_token(lookup: Result<Token, ApiError>) -> (res: Result<u128, ApiError>)
        ensures
            outcome(res) == Self::spec_from_token(outcome(lookup)),
    {
        match lookup {
            Ok(token) => Ok(token.user),
            Err(error) => {
                if error.status_code == 404 {
                    Err(ApiError::new(401, String::from_str("Unknown token.")))
                } else {
                    Err(error)
                }
            },
        }
    }

    /// Whether an account may be created under a username, given what
    /// looking the username up gave: a username is in use once. An account
    /// that is not there leaves the username free. Any other failure of the
    /// lookup stands.
    pub open spec fn spec_available(found: Result<User, ApiErrorView>) -> Result<
        (),
        ApiErrorView,
    > {
        match found {
            Ok(_) => Err(failure(409, "Username already in use."@)),
            Err(error) => if error.status_code == 404 {
                Ok(())
            } else {
                Err(error)
            },
        }
    }

    /// Whether an account may be created under a username, given what
    /// looking the username up gave.
    pub fn available(found: Result<User, ApiError>) -> (res: Result<(), ApiError>)
        ensures
            outcome(res) == Self::spec_available(outcome(found)),
    {
        match found {
            Ok(_) => Err(ApiError::new(409, String::from_str("Username already in use."))),
            Err(error) => {
                if error.status_code == 404 {
                    Ok(())
                } else {
                    Err(error)
                }
            },
        }
    }
}

/// The mathematical content of a [`Registration`].
pub struct RegistrationView {
    pub username: Seq<char>,
    pub password: Seq<char>,
}

impl View for Registration {
    type V = RegistrationView;

    open spec fn view(&self) -> RegistrationView {
        RegistrationView { username: self.username@, password: self.password@ }
    }
}

/// A registration or an error, both by their views.
pub open spec fn registration_outcome(result: Result<Registration, ApiError>) -> Result<
    RegistrationView,
    ApiErrorView,
> {
    match result {
        Ok(registration) => Ok(registration@),
        Err(error) => Err(error@),
    }
}

impl Registration {
    /// What is stored of a registration, given the hash of its password:
    /// the username in lower case and the hash in place of the password.
    pub open spec fn spec_stored(
        self,
        hash: Result<Seq<char>, ApiErrorView>,
    ) -> Result<RegistrationView, ApiErrorView> {
        match hash {
            Ok(encoded) => Ok(
                RegistrationView { username: spec_lowercase(self.username@), password: encoded },
            ),
            Err(error) => Err(error),
        }
    }

    /// What is stored of a registration, given the hash of its password.
    pub fn stored(self, hash: Result<String, ApiError>) -> (res: Result<Registration, ApiError>)
        ensures
            registration_outcome(res) == self.spec_stored(hash_outcome(hash)),
    {
        match hash {
            Ok(encoded) => Ok(
                Registration {
                    username: to_ascii_lowercase(self.username.as_str()),
                    password: encoded,
                },
            ),
            Err(error) => Err(error),
        }
    }

    /// What is stored of a registration when its password is hashed under
    /// the given salt. The password verifies against what is stored in its
    /// place.
    pub fn stored_with(self, salt: &[u8; 32]) -> (res: Result<Registration, ApiError>)
        ensures
            registration_outcome(res) == self.spec_stored(spec_hash(self.password@, salt@)),
            encode_utf8(self.password@).len() <= u32::MAX ==> res is Ok,
            res matches Ok(stored) ==> spec_verify(self.password@, stored.password@) matches Ok(
                true,
            ),
    {
        let hash = hash_with(self.password.as_str(), salt);
        self.stored(hash)
    }

    /// What is stored of a registration: the username in lower case, and the
    /// hash of the password under a fresh salt. The password verifies
    /// against what is stored in its place.
    pub fn prepare(self) -> (res: Result<Registration, ApiError>)
        ensures
            encode_utf8(self.password@).len() <= u32::MAX ==> res is Ok,
            res matches Ok(stored) ==> stored.username@ == spec_lowercase(self.username@)
                && spec_verify(self.password@, stored.password@) matches Ok(true),
            res matches Err(error) ==> error.status_code == 500,
    {
        let salt = fresh_salt();
        self.stored_with(&salt)
    }
}

/// The token table as the store holds it: the rows by their ids.
pub struct TokenTable {
    pub rows: Map<u128, Token>,
}

impl TokenTable {
    /// Whether each row is stored under its own id.
    pub open spec fn well_formed(self) -> bool {
        forall|id: u128| self.rows.dom().contains(id) ==> (#[trigger] self.rows[id]).id == id
    }

    /// Whether the table holds a token with this id.
    pub open spec fn holds(self, id: u128) -> bool {
        self.rows.dom().contains(id)
    }

    /// What fetching the token with this id gives.
    pub open spec fn fetch(self, id: u128) -> Result<Token, ApiErrorView> {
        if self.holds(id) {
            Ok(self.rows[id])
        } else {
            Err(ApiError::spec_from_store(StoreError::NotFound))
        }
    }

    /// The table after a new token is stored at `now` under the id that the
    /// store picked for it.
    pub open spec fn insert(self, id: u128, token: NewToken, now: Timestamp) -> TokenTable {
        TokenTable {
            rows: self.rows.insert(
                id,
                Token {
                    id,
                    user: token.user,
                    expiration: token.expiration,
                    created_at: now,
                    updated_at: None,
                },
            ),
        }
    }

    /// The table without the token with this id. Deleting is all there is
    /// to revoking a token, and it is all there is to expiring one.
    pub open spec fn without(self, id: u128) -> TokenTable {
        TokenTable { rows: self.rows.remove(id) }
    }

    /// The table after the cleanup that a lookup asked for.
    pub open spec fn cleaned(self, cleanup: Option<u128>) -> TokenTable {
        match cleanup {
            Some(id) => self.without(id),
            None => self,
        }
    }

    /// Resolves a token at `now`: the table afterwards, and the token or why
    /// there is none.
    pub open spec fn resolve(self, id: u128, now: Timestamp) -> (
        TokenTable,
        Result<Token, ApiErrorView>,
    ) {
        let lookup = Token::spec_find_at(self.fetch(id), now);
        (self.cleaned(lookup.cleanup), lookup.result)
    }

    /// Authenticates by a token at `now`: the table afterwards, and the id
    /// of the account or why there is none.
    pub open spec fn authenticate(self, id: u128, now: Timestamp) -> (
        TokenTable,
        Result<u128, ApiErrorView>,
    ) {
        let (table, result) = self.resolve(id, now);
        (table, User::spec_from_token(result))
    }
}

/// The authentication failure that hides whether a token ever existed.
pub open spec fn unknown_token() -> ApiErrorView {
    failure(401, "Unknown token."@)
}

/// A token that was stored resolves to the account that it was issued to
/// for as long as it has not expired, and resolving it leaves the table as
/// it is.
pub proof fn lemma_stored_token_resolves(
    table: TokenTable,
    id: u128,
    token: NewToken,
    issued: Timestamp,
    now: Timestamp,
)
    requires
        !token.expiration.spec_before(now),
    ensures
        table.insert(id, token, issued).resolve(id, now).0 == table.insert(id, token, issued),
        table.insert(id, token, issued).resolve(id, now).1 matches Ok(row) && row.id == id
            && row.user == token.user && row.expiration == token.expiration,
        table.insert(id, token, issued).authenticate(id, now).1 == Ok::<u128, ApiErrorView>(
            token.user,
        ),
{
}

/// A token that is issued at `now` and resolved at once resolves to the
/// account that it was issued to.
pub proof fn lemma_issued_token_resolves_at_once(
    table: TokenTable,
    id: u128,
    token: NewToken,
    now: Timestamp,
)
    requires
        now.well_formed(),
        (token.expiration.secs as int, token.expiration.nanos as int) == now.spec_plus_days(
            TOKEN_DAYS as int,
        ),
    ensures
        table.insert(id, token, now).authenticate(id, now) == (
            table.insert(id, token, now),
            Ok::<u128, ApiErrorView>(token.user),
        ),
{
    lemma_stored_token_resolves(table, id, token, now, now);
}

/// Resolving a token after its expiration deletes it and is an
/// authentication failure; resolving it again, at whatever time, is the
/// same failure and changes nothing more.
pub proof fn lemma_expired_token_is_deleted(
    table: TokenTable,
    id: u128,
    now: Timestamp,
    later: Timestamp,
)
    requires
        table.well_formed(),
        table.holds(id),
        table.rows[id].spec_expired(now),
    ensures
        table.resolve(id, now) == (
            table.without(id),
            Err::<Token, ApiErrorView>(failure(404, "Token has expired."@)),
        ),
        table.authenticate(id, now) == (
            table.without(id),
            Err::<u128, ApiErrorView>(unknown_token()),
        ),
        !table.without(id).holds(id),
        table.without(id).authenticate(id, later) == (
            table.without(id),
            Err::<u128, ApiErrorView>(unknown_token()),
        ),
{
}

/// Resolving a token that was revoked fails exactly as resolving one that
/// never existed does: both are a missing record to the lookup and an
/// unknown token to the caller, at whatever time, and neither changes the
/// table.
pub proof fn lemma_revoked_token_is_unknown(
    table: TokenTable,
    other: TokenTable,
    id: u128,
    now: Timestamp,
    later: Timestamp,
)
    requires
        !other.holds(id),
    ensures
        table.without(id).resolve(id, now).1 == other.resolve(id, later).1,
        table.without(id).authenticate(id, now).1 == other.authenticate(id, later).1,
        table.without(id).authenticate(id, now) == (
            table.without(id),
            Err::<u128, ApiErrorView>(unknown_token()),
        ),
        other.authenticate(id, later) == (other, Err::<u128, ApiErrorView>(unknown_token())),
{
}

/// Revoking a token twice is revoking it once, and revoking one token
/// leaves every other token as it is.
pub proof fn lemma_revoking_is_idempotent(table: TokenTable, id: u128, other: u128)
    requires
        other != id,
    ensures
        table.without(id).without(id) == table.without(id),
        table.without(id).holds(other) == table.holds(other),
        table.without(id).fetch(other) == table.fetch(other),
        table.well_formed() ==> table.without(id).well_formed(),
{
    assert(table.without(id).without(id).rows =~= table.without(id).rows);
}

impl User {
    /// Whether the account is the author of a record: its username is the
    /// record's author.
    pub open spec fn spec_owns(self, author: Seq<char>) -> bool {
        self.username@ == author
    }

    /// Whether the account may change a record of the given author: only
    /// the author may, and anyone else is refused with `refusal`, an
    /// authorization failure.
    pub open spec fn spec_authorize(self, author: Seq<char>, refusal: Seq<char>) -> Result<
        (),
        ApiErrorView,
    > {
        if self.spec_owns(author) {
            Ok(())
        } else {
            Err(failure(403, refusal))
        }
    }

    /// Whether the account is the author of a record.
    pub fn owns(&self, author: &String) -> (b: bool)
        ensures
            b == self.spec_owns(author@),
    {
        self.username == *author
    }

    /// Lets the account change a record of the given author, or refuses
    /// with `refusal`.
    pub fn authorize(&self, author: &String, refusal: &str) -> (res: Result<(), ApiError>)
        ensures
            outcome(res) == self.spec_authorize(author@, refusal@),
    {
        if self.owns(author) {
            Ok(())
        } else {
            Err(ApiError::new(403, String::from_str(refusal)))
        }
    }
}

} // verus!
