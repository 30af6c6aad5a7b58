//! Verified core of a small blogging backend: the error taxonomy, query
//! pagination, password credentials and the lifecycle of session tokens.

pub mod api_error;
pub mod clock;
pub mod comments;
pub mod credentials;
pub mod paginate;
pub mod posts;
pub mod store;
pub mod text;
pub mod users;

pub use api_error::{ApiError, StoreError};
pub use clock::Timestamp;
pub use comments::{Comment, CommentFilters, InsertableComment, NewComment};
pub use paginate::{Direction, Page, Paginate, Paginated};
pub use posts::{InsertablePost, NewPost, Post, PostFilters};
pub use users::{Login, NewToken, Registration, Token, User};
