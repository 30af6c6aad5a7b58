//! Comments on posts: how a listing is windowed, what is stored of a new
//! comment, and who may change one.

use vstd::prelude::*;
use vstd::string::*;
use crate::api_error::{failure, outcome, ApiError, ApiErrorView};
use crate::clock::Timestamp;
use crate::paginate::{spec_windowed, windowed, Paginated};
use crate::text::{spec_trim, trim};
use crate::users::User;

verus! {

/// A comment as its author writes it.
#[derive(Debug)]
pub struct NewComment {
    /// The id of the post that the comment is on.
    pub post: i32,
    pub message: String,
}

/// A comment as the store holds it.
#[derive(Debug)]
pub struct Comment {
    pub id: i32,
    /// The username of the account that wrote the comment.
    pub author: String,
    /// The id of the post that the comment is on.
    pub post: i32,
    pub message: String,
    pub created_at: Timestamp,
    pub updated_at: Option<Timestamp>,
}

/// A comment that is about to be stored: the store gives it its id and
/// dates.
#[derive(Debug)]
pub struct InsertableComment {
    pub author: String,
    pub post: i32,
    pub message: String,
}

/// Filters to be applied to a comment search.
#[derive(Debug)]
pub struct CommentFilters {
    /// The id of the post whose comments are searched.
    pub post: i32,
    pub offset: Option<i64>,
    pub limit: Option<i64>,
}

/// The mathematical content of an [`InsertableComment`].
pub struct InsertableCommentView {
    pub author: Seq<char>,
    pub post: i32,
    pub message: Seq<char>,
}

impl View for InsertableComment {
    type V = InsertableCommentView;

    open spec fn view(&self) -> InsertableCommentView {
        InsertableCommentView { author: self.author@, post: self.post, message: self.message@ }
    }
}

/// A comment that is about to be stored or an error, both by their views.
pub open spec fn draft_outcome(result: Result<InsertableComment, ApiError>) -> Result<
    InsertableCommentView,
    ApiErrorView,
> {
    match result {
        Ok(draft) => Ok(draft@),
        Err(error) => Err(error@),
    }
}

impl Comment {
    /// The query for the comments that match the filters, windowed: from
    /// the offset of the filters on, or from the first row, and with their
    /// limit or that of any paginated query. `query` selects the comments on
    /// the post that the filters name.
    pub fn find_all<T>(filters: &CommentFilters, query: T) -> (p: Paginated<T>)
        ensures
            p == spec_windowed(query, filters.offset, filters.limit),
    {
        windowed(query, filters.offset, filters.limit)
    }

    /// What is stored of a new comment by the account with the given
    /// username, given its message as it is once trimmed: the comment under
    /// that name. A message of which nothing is left is refused as invalid.
    pub open spec fn spec_drafted(
        post: i32,
        trimmed: Seq<char>,
        author: Seq<char>,
    ) -> Result<InsertableCommentView, ApiErrorView> {
        if trimmed.len() == 0 {
            Err(failure(400, "Message can't be empty."@))
        } else {
            Ok(InsertableCommentView { author, post, message: trimmed })
        }
    }

    /// What is stored of a new comment by the account with the given
    /// username: the comment under that name, its message trimmed. A message
    /// that is white space throughout is refused as invalid.
    pub open spec fn spec_draft(
        post: i32,
        message: Seq<char>,
        author: Seq<char>,
    ) -> Result<InsertableCommentView, ApiErrorView> {
        Self::spec_drafted(post, spec_trim(message), author)
    }

    /// What is stored of a comment on `post` by `author`, given its message
    /// as it is once trimmed.
    pub fn drafted(post: i32, trimmed: &str, author: &User) -> (res: Result<
        InsertableComment,
        ApiError,
    >)
        ensures
            draft_outcome(res) == Self::spec_drafted(post, trimmed@, author.username@),
    {
        if trimmed.is_empty() {
            return Err(ApiError::new(400, String::from_str("Message can't be empty.")));
        }
        Ok(
            InsertableComment {
                author: author.username.clone(),
                post,
                message: String::from_str(trimmed),
            },
        )
    }

    /// What is stored of a new comment by `author`.
    pub fn draft(comment: NewComment, author: &User) -> (res: Result<InsertableComment, ApiError>)
        ensures
            draft_outcome(res) == Self::spec_draft(comment.post, comment.message@, author.username@),
    {
        Self::drafted(comment.post, trim(comment.message.as_str()), author)
    }

    /// What refuses an account that may not delete the comment.
    pub open spec fn delete_refusal() -> Seq<char> {
        "You can't delete this comment."@
    }

    /// What refuses an account that may not edit the comment.
    pub open spec fn edit_refusal() -> Seq<char> {
        "You can't edit this comment."@
    }

    /// Lets the author of the comment delete it, and nobody else.
    pub fn deletable_by(&self, user: &User) -> (res: Result<(), ApiError>)
        ensures
            outcome(res) == user.spec_authorize(self.author@, Self::delete_refusal()),
    {
        user.authorize(&self.author, "You can't delete this comment.")
    }

    /// Lets the author of the comment edit it, and nobody else.
    pub fn editable_by(&self, user: &User) -> (res: Result<(), ApiError>)
        ensures
            outcome(res) == user.spec_authorize(self.author@, Self::edit_refusal()),
    {
        user.authorize(&self.author, "You can't edit this comment.")
    }
}

} // verus!
