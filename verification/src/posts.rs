//! Posts: how a listing is windowed, what is stored of a new post, and who
//! may change one.

use vstd::prelude::*;
use vstd::string::*;
use crate::api_error::{outcome, ApiError};
use crate::clock::Timestamp;
use crate::paginate::{spec_windowed, windowed, Paginated};
use crate::text::{spec_trim, trim};
use crate::users::User;

verus! {

/// A post as its author writes it.
#[derive(Debug)]
pub struct NewPost {
    pub title: String,
    pub subtitle: String,
    pub body: String,
}

/// A post as the store holds it.
#[derive(Debug)]
pub struct Post {
    pub id: i32,
    /// The username of the account that wrote the post.
    pub author: String,
    pub title: String,
    pub subtitle: String,
    pub body: String,
    pub created_at: Timestamp,
    pub updated_at: Option<Timestamp>,
}

/// A post that is about to be stored: the store gives it its id and dates.
#[derive(Debug)]
pub struct InsertablePost {
    pub author: String,
    pub title: String,
    pub subtitle: String,
    pub body: String,
}

/// Filters to be applied to a post search.
#[derive(Debug)]
pub struct PostFilters {
    pub offset: Option<i64>,
    pub limit: Option<i64>,
    pub author: Option<String>,
}

/// The mathematical content of an [`InsertablePost`].
pub struct InsertablePostView {
    pub author: Seq<char>,
    pub title: Seq<char>,
    pub subtitle: Seq<char>,
    pub body: Seq<char>,
}

impl View for InsertablePost {
    type V = InsertablePostView;

    open spec fn view(&self) -> InsertablePostView {
        InsertablePostView {
            author: self.author@,
            title: self.title@,
            subtitle: self.subtitle@,
            body: self.body@,
        }
    }
}

impl Post {
    /// The query for the posts that match the filters, windowed: from the
    /// offset of the filters on, or from the first row, and with their limit
    /// or that of any paginated query. `query` selects the posts of the
    /// author that the filters name, or all posts.
    pub fn find_all<T>(filters: &PostFilters, query: T) -> (p: Paginated<T>)
        ensures
            p == spec_windowed(query, filters.offset, filters.limit),
    {
        windowed(query, filters.offset, filters.limit)
    }

    /// What is stored of a new post by the account with the given
    /// username: the post under that name, its body trimmed.
    pub open spec fn spec_draft(post: NewPost, author: Seq<char>) -> InsertablePostView {
        InsertablePostView {
            author,
            title: post.title@,
            subtitle: post.subtitle@,
            body: spec_trim(post.body@),
        }
    }

    /// What is stored of a new post by `author`: the post under the
    /// author's username, its body trimmed.
    pub fn draft(post: NewPost, author: &User) -> (draft: InsertablePost)
        ensures
            draft@ == Self::spec_draft(post, author.username@),
    {
        InsertablePost {
            author: author.username.clone(),
            title: post.title,
            subtitle: post.subtitle,
            body: String::from_str(trim(post.body.as_str())),
        }
    }

    /// What refuses an account that may not delete the post.
    pub open spec fn delete_refusal() -> Seq<char> {
        "You can't delete this post."@
    }

    /// What refuses an account that may not edit the post.
    pub open spec fn edit_refusal() -> Seq<char> {
        "You can't edit this post."@
    }

    /// Lets the author of the post delete it, and nobody else.
    pub fn deletable_by(&self, user: &User) -> (res: Result<(), ApiError>)
        ensures
            outcome(res) == user.spec_authorize(
                self.author@,
                Self::delete_refusal(),
            ),
    {
        user.authorize(&self.author, "You can't delete this post.")
    }

    /// Lets the author of the post edit it, and nobody else.
    pub fn editable_by(&self, user: &User) -> (res: Result<(), ApiError>)
        ensures
            outcome(res) == user.spec_authorize(
                self.author@,
                Self::edit_refusal(),
            ),
    {
        user.authorize(&self.author, "You can't edit this post.")
    }
}

} // verus!
