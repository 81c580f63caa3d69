//! What the request layer answers to each outcome of an operation.
//!
//! Reading requests and writing responses is left to the server; decided
//! here is the status and the text that goes with each outcome, and the page
//! that a listing query asks for.

use crate::ledger::LedgerError;
use crate::text::{contains_words, mentions};
use vstd::prelude::*;
use vstd::string::*;

verus! {

/// The endpoints of the service.
#[derive(Clone, Copy, Debug, PartialEq, Eq, Structural)]
pub enum Endpoint {
    CreateUser,
    GetUser,
    GetUserByUsername,
    CreatePost,
    GetPosts,
    GetUserPosts,
    CreateComment,
    GetPostComments,
    LikePost,
    SharePost,
    FollowUser,
    GetUserFollowers,
    GetUserFollowing,
}

/// The body of a response: a value to be sent as JSON, or a plain text.
#[derive(Debug)]
pub enum Body<T> {
    Json(T),
    Text(String),
}

/// A response: its HTTP status and its body.
#[derive(Debug)]
pub struct Response<T> {
    pub status: u16,
    pub body: Body<T>,
}

/// The status of a read that found what it looked for.
pub const OK: u16 = 200;

/// The status of a write that created a row.
pub const CREATED: u16 = 201;

/// The status of a request that makes no sense.
pub const BAD_REQUEST: u16 = 400;

/// The status of a lookup that found nothing.
pub const NOT_FOUND: u16 = 404;

/// The status of a write whose row exists already.
pub const CONFLICT: u16 = 409;

/// The status of a failure of the store.
pub const INTERNAL_SERVER_ERROR: u16 = 500;

/// The store's words say that a row exists already.
pub open spec fn tells_duplicate(reason: Seq<char>) -> bool {
    contains_words(reason, "unique constraint"@)
}

impl Endpoint {
    /// The endpoint writes a row.
    pub open spec fn creates(self) -> bool {
        match self {
            Endpoint::CreateUser
            | Endpoint::CreatePost
            | Endpoint::CreateComment
            | Endpoint::LikePost
            | Endpoint::SharePost
            | Endpoint::FollowUser => true,
            _ => false,
        }
    }

    /// The endpoint has an answer to a row that exists already.
    pub open spec fn knows_conflicts(self) -> bool {
        match self {
            Endpoint::CreateUser
            | Endpoint::LikePost
            | Endpoint::SharePost
            | Endpoint::FollowUser => true,
            _ => false,
        }
    }

    /// The status of success: a write creates, a read finds.
    pub open spec fn success_status(self) -> u16 {
        if self.creates() {
            CREATED
        } else {
            OK
        }
    }

    /// The text that answers a row that exists already. An endpoint that
    /// knows no conflict has no words of its own for one.
    pub open spec fn conflict_text(self) -> Seq<char> {
        match self {
            Endpoint::CreateUser => "Username or email already exists"@,
            Endpoint::LikePost => "Post already liked by user"@,
            Endpoint::SharePost => "Post already shared by user"@,
            Endpoint::FollowUser => "Already following user"@,
            _ => "Already exists"@,
        }
    }

    /// What stands before the store's own words where the store failed.
    pub open spec fn failure_prefix(self) -> Seq<char> {
        match self {
            Endpoint::CreateUser => "Error creating user: "@,
            Endpoint::GetUser => "Error fetching user: "@,
            Endpoint::GetUserByUsername => "Error fetching user: "@,
            Endpoint::CreatePost => "Error creating post: "@,
            Endpoint::GetPosts => "Error fetching posts: "@,
            Endpoint::GetUserPosts => "Error fetching user posts: "@,
            Endpoint::CreateComment => "Error creating comment: "@,
            Endpoint::GetPostComments => "Error fetching comments: "@,
            Endpoint::LikePost => "Error liking post: "@,
            Endpoint::SharePost => "Error sharing post: "@,
            Endpoint::FollowUser => "Error following user: "@,
            Endpoint::GetUserFollowers => "Error fetching followers: "@,
            Endpoint::GetUserFollowing => "Error fetching following: "@,
        }
    }

    /// The status that answers an outcome of the ledger: success by the
    /// endpoint, 409 for a duplicate edge, 400 for an invalid relationship,
    /// 500 where the store failed.
    pub open spec fn status_of<T>(self, outcome: Result<T, LedgerError<String>>) -> u16 {
        match outcome {
            Ok(_) => self.success_status(),
            Err(LedgerError::DuplicateEdge) => CONFLICT,
            Err(LedgerError::InvalidRelationship) => BAD_REQUEST,
            Err(LedgerError::StorageFailure(_)) => INTERNAL_SERVER_ERROR,
        }
    }

    /// The text that answers a failed outcome of the ledger.
    pub open spec fn text_of(self, error: LedgerError<String>) -> Seq<char> {
        match error {
            LedgerError::DuplicateEdge => self.conflict_text(),
            LedgerError::InvalidRelationship => "Cannot follow yourself"@,
            LedgerError::StorageFailure(reason) => self.failure_prefix() + reason@,
        }
    }

    /// What a failure of the store amounts to, judged by its own words: a
    /// duplicate where the endpoint knows conflicts and the words speak of a
    /// unique constraint, else a failure of the store.
    pub open spec fn judged(self, reason: String) -> LedgerError<String> {
        if self.knows_conflicts() && tells_duplicate(reason@) {
            LedgerError::DuplicateEdge
        } else {
            LedgerError::StorageFailure(reason)
        }
    }

    /// The status of success.
    pub fn success(&self) -> (status: u16)
        ensures
            status == self.success_status(),
    {
        match self {
            Endpoint::CreateUser
            | Endpoint::CreatePost
            | Endpoint::CreateComment
            | Endpoint::LikePost
            | Endpoint::SharePost
            | Endpoint::FollowUser => CREATED,
            _ => OK,
        }
    }

    /// The text that answers a row that exists already.
    pub fn conflict(&self) -> (text: &'static str)
        ensures
            text@ == self.conflict_text(),
    {
        match self {
            Endpoint::CreateUser => "Username or email already exists",
            Endpoint::LikePost => "Post already liked by user",
            Endpoint::SharePost => "Post already shared by user",
            Endpoint::FollowUser => "Already following user",
            _ => "Already exists",
        }
    }

    /// What stands before the store's own words where the store failed.
    pub fn prefix(&self) -> (text: &'static str)
        ensures
            text@ == self.failure_prefix(),
    {
        match self {
            Endpoint::CreateUser => "Error creating user: ",
            Endpoint::GetUser => "Error fetching user: ",
            Endpoint::GetUserByUsername => "Error fetching user: ",
            Endpoint::CreatePost => "Error creating post: ",
            Endpoint::GetPosts => "Error fetching posts: ",
            Endpoint::GetUserPosts => "Error fetching user posts: ",
            Endpoint::CreateComment => "Error creating comment: ",
            Endpoint::GetPostComments => "Error fetching comments: ",
            Endpoint::LikePost => "Error liking post: ",
            Endpoint::SharePost => "Error sharing post: ",
            Endpoint::FollowUser => "Error following user: ",
            Endpoint::GetUserFollowers => "Error fetching followers: ",
            Endpoint::GetUserFollowing => "Error fetching following: ",
        }
    }

    /// Judges a failure of the store by its own words.
    pub fn judge(&self, reason: String) -> (error: LedgerError<String>)
        ensures
            error == self.judged(reason),
    {
        let knows = match self {
            Endpoint::CreateUser
            | Endpoint::LikePost
            | Endpoint::SharePost
            | Endpoint::FollowUser => true,
            _ => false,
        };
        if knows && mentions(reason.as_str(), "unique constraint") {
            LedgerError::DuplicateEdge
        } else {
            LedgerError::StorageFailure(reason)
        }
    }

    /// The response to a typed outcome: the value itself on success, else
    /// the text for the failure, under the status that belongs to the
    /// outcome.
    pub fn respond<T>(self, outcome: Result<T, LedgerError<String>>) -> (response: Response<T>)
        ensures
            response.status == self.status_of(outcome),
            match outcome {
                Ok(value) => response.body == Body::Json(value),
                Err(error) => response.body matches Body::Text(text) && text@ == self.text_of(
                    error,
                ),
            },
    {
        match outcome {
            Ok(value) => Response { status: self.success(), body: Body::Json(value) },
            Err(LedgerError::DuplicateEdge) => Response {
                status: CONFLICT,
                body: Body::Text(String::from_str(self.conflict())),
            },
            Err(LedgerError::InvalidRelationship) => Response {
                status: BAD_REQUEST,
                body: Body::Text(String::from_str("Cannot follow yourself")),
            },
            Err(LedgerError::StorageFailure(reason)) => Response {
                status: INTERNAL_SERVER_ERROR,
                body: Body::Text(String::from_str(self.prefix()).concat(reason.as_str())),
            },
        }
    }

    /// The typed outcome of an outcome whose failure is the store's words.
    pub open spec fn typed<T>(self, outcome: Result<T, String>) -> Result<T, LedgerError<String>> {
        match outcome {
            Ok(value) => Ok(value),
            Err(reason) => Err(self.judged(reason)),
        }
    }

    /// The response to an outcome whose failure is known by the store's
    /// words alone.
    pub fn answer<T>(self, outcome: Result<T, String>) -> (response: Response<T>)
        ensures
            response.status == self.status_of(self.typed(outcome)),
            match self.typed(outcome) {
                Ok(value) => response.body == Body::Json(value),
                Err(error) => response.body matches Body::Text(text) && text@ == self.text_of(
                    error,
                ),
            },
    {
        match outcome {
            Ok(value) => self.respond(Ok(value)),
            Err(reason) => self.respond(Err(self.judge(reason))),
        }
    }

    /// The response to a lookup: as `answer`, but 404 where nothing was
    /// found.
    pub fn answer_lookup<T>(self, outcome: Result<Option<T>, String>) -> (response: Response<T>)
        ensures
            match outcome {
                Ok(Some(value)) => response.status == self.success_status() && response.body
                    == Body::Json(value),
                Ok(None) => response.status == NOT_FOUND && (response.body matches Body::Text(text)
                    && text@ == "User not found"@),
                Err(reason) => response.status == self.status_of(
                    Err::<T, LedgerError<String>>(self.judged(reason)),
                ) && (response.body matches Body::Text(text) && text@ == self.text_of(
                    self.judged(reason),
                )),
            },
    {
        match outcome {
            Ok(Some(value)) => self.respond(Ok(value)),
            Ok(None) => Response {
                status: NOT_FOUND,
                body: Body::Text(String::from_str("User not found")),
            },
            Err(reason) => self.respond(Err(self.judge(reason))),
        }
    }
}

/// The response to the creation of a user. That the name or the address is
/// taken is known by the store's words.
pub fn create_user<T>(outcome: Result<T, String>) -> (response: Response<T>)
    ensures
        response.status == (match outcome {
            Ok(_) => CREATED,
            Err(reason) => if tells_duplicate(reason@) {
                CONFLICT
            } else {
                INTERNAL_SERVER_ERROR
            },
        }),
        match outcome {
            Ok(value) => response.body == Body::Json(value),
            Err(reason) => response.body matches Body::Text(text) && text@ == (if tells_duplicate(
                reason@,
            ) {
                "Username or email already exists"@
            } else {
                "Error creating user: "@ + reason@
            }),
        },
{
    Endpoint::CreateUser.answer(outcome)
}

/// The response to the lookup of a user by id.
pub fn get_user<T>(outcome: Result<Option<T>, String>) -> (response: Response<T>)
    ensures
        match outcome {
            Ok(Some(value)) => response.status == OK && response.body == Body::Json(value),
            Ok(None) => response.status == NOT_FOUND && (response.body matches Body::Text(text)
                && text@ == "User not found"@),
            Err(reason) => response.status == INTERNAL_SERVER_ERROR && (
            response.body matches Body::Text(text) && text@ == "Error fetching user: "@ + reason@),
        },
{
    Endpoint::GetUser.answer_lookup(outcome)
}

/// The response to the lookup of a user by name.
pub fn get_user_by_username<T>(outcome: Result<Option<T>, String>) -> (response: Response<T>)
    ensures
        match outcome {
            Ok(Some(value)) => response.status == OK && response.body == Body::Json(value),
            Ok(None) => response.status == NOT_FOUND && (response.body matches Body::Text(text)
                && text@ == "User not found"@),
            Err(reason) => response.status == INTERNAL_SERVER_ERROR && (
            response.body matches Body::Text(text) && text@ == "Error fetching user: "@ + reason@),
        },
{
    Endpoint::GetUserByUsername.answer_lookup(outcome)
}

/// The response to the creation of a post.
pub fn create_post<T>(outcome: Result<T, String>) -> (response: Response<T>)
    ensures
        match outcome {
            Ok(value) => response.status == CREATED && response.body == Body::Json(value),
            Err(reason) => response.status == INTERNAL_SERVER_ERROR && (
            response.body matches Body::Text(text) && text@ == "Error creating post: "@ + reason@),
        },
{
    Endpoint::CreatePost.answer(outcome)
}

/// The response to a listing of posts.
pub fn get_posts<T>(outcome: Result<Vec<T>, String>) -> (response: Response<Vec<T>>)
    ensures
        match outcome {
            Ok(value) => response.status == OK && response.body == Body::Json(value),
            Err(reason) => response.status == INTERNAL_SERVER_ERROR && (
            response.body matches Body::Text(text) && text@ == "Error fetching posts: "@ + reason@),
        },
{
    Endpoint::GetPosts.answer(outcome)
}

/// The response to a listing of a user's posts.
pub fn get_user_posts<T>(outcome: Result<Vec<T>, String>) -> (response: Response<Vec<T>>)
    ensures
        match outcome {
            Ok(value) => response.status == OK && response.body == Body::Json(value),
            Err(reason) => response.status == INTERNAL_SERVER_ERROR && (
            response.body matches Body::Text(text) && text@ == "Error fetching user posts: "@
                + reason@),
        },
{
    Endpoint::GetUserPosts.answer(outcome)
}

/// The response to the creation of a comment.
pub fn create_comment<T>(outcome: Result<T, String>) -> (response: Response<T>)
    ensures
        match outcome {
            Ok(value) => response.status == CREATED && response.body == Body::Json(value),
            Err(reason) => response.status == INTERNAL_SERVER_ERROR && (
            response.body matches Body::Text(text) && text@ == "Error creating comment: "@
                + reason@),
        },
{
    Endpoint::CreateComment.answer(outcome)
}

/// The response to a listing of a post's comments.
pub fn get_post_comments<T>(outcome: Result<Vec<T>, String>) -> (response: Response<Vec<T>>)
    ensures
        match outcome {
            Ok(value) => response.status == OK && response.body == Body::Json(value),
            Err(reason) => response.status == INTERNAL_SERVER_ERROR && (
            response.body matches Body::Text(text) && text@ == "Error fetching comments: "@
                + reason@),
        },
{
    Endpoint::GetPostComments.answer(outcome)
}

/// The response to a like.
pub fn like_post<T>(outcome: Result<T, LedgerError<String>>) -> (response: Response<T>)
    ensures
        response.status == Endpoint::LikePost.status_of(outcome),
        match outcome {
            Ok(value) => response.body == Body::Json(value),
            Err(error) => response.body matches Body::Text(text) && text@
                == Endpoint::LikePost.text_of(error),
        },
{
    Endpoint::LikePost.respond(outcome)
}

/// The response to a share.
pub fn share_post<T>(outcome: Result<T, LedgerError<String>>) -> (response: Response<T>)
    ensures
        response.status == Endpoint::SharePost.status_of(outcome),
        match outcome {
            Ok(value) => response.body == Body::Json(value),
            Err(error) => response.body matches Body::Text(text) && text@
                == Endpoint::SharePost.text_of(error),
        },
{
    Endpoint::SharePost.respond(outcome)
}

/// The response to a follow.
pub fn follow_user<T>(outcome: Result<T, LedgerError<String>>) -> (response: Response<T>)
    ensures
        response.status == Endpoint::FollowUser.status_of(outcome),
        match outcome {
            Ok(value) => response.body == Body::Json(value),
            Err(error) => response.body matches Body::Text(text) && text@
                == Endpoint::FollowUser.text_of(error),
        },
{
    Endpoint::FollowUser.respond(outcome)
}

/// The response to a listing of a user's followers.
pub fn get_user_followers<U>(
    outcome: Result<Vec<U>, LedgerError<String>>,
) -> (response: Response<Vec<U>>)
    ensures
        response.status == Endpoint::GetUserFollowers.status_of(outcome),
        match outcome {
            Ok(value) => response.body == Body::Json(value),
            Err(error) => response.body matches Body::Text(text) && text@
                == Endpoint::GetUserFollowers.text_of(error),
        },
{
    Endpoint::GetUserFollowers.respond(outcome)
}

/// The response to a listing of the users whom a user follows.
pub fn get_user_following<U>(
    outcome: Result<Vec<U>, LedgerError<String>>,
) -> (response: Response<Vec<U>>)
    ensures
        response.status == Endpoint::GetUserFollowing.status_of(outcome),
        match outcome {
            Ok(value) => response.body == Body::Json(value),
            Err(error) => response.body matches Body::Text(text) && text@
                == Endpoint::GetUserFollowing.text_of(error),
        },
{
    Endpoint::GetUserFollowing.respond(outcome)
}

/// The page that a listing query asks for; either part may be left out.
#[derive(Clone, Copy, Debug)]
pub struct PaginatedQuery {
    pub limit: Option<i64>,
    pub offset: Option<i64>,
}

/// The number of rows of a page where none is asked for.
pub const DEFAULT_LIMIT: i64 = 20;

/// The most rows of a page.
pub const MAX_LIMIT: i64 = 100;

impl PaginatedQuery {
    /// The number of rows to return: what was asked for, 20 where nothing
    /// was, and never more than 100.
    pub open spec fn page_limit(self) -> i64 {
        let asked = match self.limit {
            Some(limit) => limit,
            None => DEFAULT_LIMIT,
        };
        if asked <= MAX_LIMIT {
            asked
        } else {
            MAX_LIMIT
        }
    }

    /// The number of rows to skip: what was asked for, or none.
    pub open spec fn page_offset(self) -> i64 {
        match self.offset {
            Some(offset) => offset,
            None => 0,
        }
    }

    /// The number of rows to return.
    pub fn limit(&self) -> (limit: i64)
        ensures
            limit == self.page_limit(),
    {
        let asked = match self.limit {
            Some(limit) => limit,
            None => DEFAULT_LIMIT,
        };
        if asked <= MAX_LIMIT {
            asked
        } else {
            MAX_LIMIT
        }
    }

    /// The number of rows to skip.
    pub fn offset(&self) -> (offset: i64)
        ensures
            offset == self.page_offset(),
    {
        match self.offset {
            Some(offset) => offset,
            None => 0,
        }
    }
}

} // verus!
