//! Where the backend is mounted, and the status codes it answers with.
use vstd::prelude::*;
use crate::error::{VoteErrorKind, VoteErrorView};

verus! {

pub const API_BALLOTS: &'static str = "/api/v1/ballots";

pub const API_CRITERIA: &'static str = "/api/v1/criteria";

pub const API_USERS: &'static str = "/api/v1/users";

pub const API_VOTINGS: &'static str = "/api/v1/votings";

pub const API_ADMIN: &'static str = "/api/v1/admin";

/// The status of an answer that is no success.
#[derive(Clone, Copy, Debug, PartialEq, Eq, Structural)]
pub enum Status {
    BadRequest,
    Unauthorized,
    NotFound,
    Conflict,
    UnprocessableEntity,
    InternalServerError,
}

/// An answer that is no success: its status and what it says.
#[derive(Debug)]
pub struct Refusal {
    pub status: Status,
    pub message: String,
}

/// The status that a failure is answered with: a conflict, a missing
/// entity and a caller without leave keep their own status, what was sent
/// in a wrong form is unprocessable, and a failure of the storage is the
/// server's.
pub open spec fn status_of(error: VoteErrorView) -> Status {
    match error {
        VoteErrorView::Conflict(_) => Status::Conflict,
        VoteErrorView::NotFound(_) => Status::NotFound,
        VoteErrorView::Unauthorized(_) => Status::Unauthorized,
        VoteErrorView::MissingField(_) => Status::UnprocessableEntity,
        VoteErrorView::Serialize(_) => Status::UnprocessableEntity,
        VoteErrorView::IO(_) => Status::InternalServerError,
        VoteErrorView::DB(_) => Status::InternalServerError,
        VoteErrorView::Internal(_) => Status::InternalServerError,
    }
}

/// The answer to a failure: its status and its message, word for word.
pub fn refusal<'r>(error: &VoteErrorKind<'r>) -> (r: Refusal)
    ensures
        r.status == status_of(error@),
        r.message@ == error@.message(),
{
    let status = match error {
        VoteErrorKind::Conflict(_) => Status::Conflict,
        VoteErrorKind::NotFound(_) => Status::NotFound,
        VoteErrorKind::Unauthorized(_) => Status::Unauthorized,
        VoteErrorKind::MissingField(_) => Status::UnprocessableEntity,
        VoteErrorKind::Serialize(_) => Status::UnprocessableEntity,
        VoteErrorKind::IO(_) => Status::InternalServerError,
        VoteErrorKind::DB(_) => Status::InternalServerError,
        VoteErrorKind::Internal(_) => Status::InternalServerError,
    };
    Refusal { status, message: error.to_string() }
}

} // verus!
