//! What can go wrong, and how one kind of failure turns into another.
use vstd::prelude::*;
use vstd::std_specs::convert::FromSpecImpl;
use crate::text::{contains, occurs_in};

verus! {

/// A field that a request should have carried.
#[derive(Debug)]
pub struct MissingField<'r> {
    pub field: &'r str,
}

impl<'r> MissingField<'r> {
    /// The name of the field.
    pub fn to_string(&self) -> (r: String)
        ensures
            r@ == self.field@,
    {
        self.field.to_owned()
    }
}

/// A failure of the poll backend.
#[derive(Debug)]
pub enum VoteErrorKind<'r> {
    /// A request lacked a field.
    MissingField(MissingField<'r>),
    /// An entity could not be written as or read from text.
    Serialize(String),
    /// The storage could not be read or written.
    IO(String),
    /// The id to be written is already taken.
    Conflict(String),
    /// Nothing is stored under the id.
    NotFound(String),
    /// The caller may not do this.
    Unauthorized(String),
    /// The database refused a statement.
    DB(String),
    /// Anything else.
    Internal(String),
}

/// What a `VoteErrorKind` holds.
pub enum VoteErrorView {
    MissingField(Seq<char>),
    Serialize(Seq<char>),
    IO(Seq<char>),
    Conflict(Seq<char>),
    NotFound(Seq<char>),
    Unauthorized(Seq<char>),
    DB(Seq<char>),
    Internal(Seq<char>),
}

impl<'r> View for VoteErrorKind<'r> {
    type V = VoteErrorView;

    open spec fn view(&self) -> VoteErrorView {
        match self {
            VoteErrorKind::MissingField(e) => VoteErrorView::MissingField(e.field@),
            VoteErrorKind::Serialize(e) => VoteErrorView::Serialize(e@),
            VoteErrorKind::IO(e) => VoteErrorView::IO(e@),
            VoteErrorKind::Conflict(e) => VoteErrorView::Conflict(e@),
            VoteErrorKind::NotFound(e) => VoteErrorView::NotFound(e@),
            VoteErrorKind::Unauthorized(e) => VoteErrorView::Unauthorized(e@),
            VoteErrorKind::DB(e) => VoteErrorView::DB(e@),
            VoteErrorKind::Internal(e) => VoteErrorView::Internal(e@),
        }
    }
}

impl VoteErrorView {
    /// The message that the failure carries.
    pub open spec fn message(self) -> Seq<char> {
        match self {
            VoteErrorView::MissingField(e) => e,
            VoteErrorView::Serialize(e) => e,
            VoteErrorView::IO(e) => e,
            VoteErrorView::Conflict(e) => e,
            VoteErrorView::NotFound(e) => e,
            VoteErrorView::Unauthorized(e) => e,
            VoteErrorView::DB(e) => e,
            VoteErrorView::Internal(e) => e,
        }
    }
}

/// A failure to read an entity from a stored row.
#[derive(Debug)]
pub enum FromErrorKind {
    /// The database gave no usable answer.
    DB(String),
    /// The row does not have the shape of the entity.
    Serialize(String),
    /// The row is not the only one (`true`) or is missing (`false`).
    MultipleRows(bool),
}

/// What a `FromErrorKind` holds.
pub enum FromErrorView {
    DB(Seq<char>),
    Serialize(Seq<char>),
    MultipleRows(bool),
}

impl View for FromErrorKind {
    type V = FromErrorView;

    open spec fn view(&self) -> FromErrorView {
        match self {
            FromErrorKind::DB(b) => FromErrorView::DB(b@),
            FromErrorKind::Serialize(b) => FromErrorView::Serialize(b@),
            FromErrorKind::MultipleRows(b) => FromErrorView::MultipleRows(*b),
        }
    }
}

/// The backend failure that a row failure amounts to.
pub open spec fn row_failure(error: FromErrorView) -> VoteErrorView {
    match error {
        FromErrorView::DB(b) => VoteErrorView::Internal(b),
        FromErrorView::Serialize(b) => VoteErrorView::Internal(b),
        FromErrorView::MultipleRows(b) => if b {
            VoteErrorView::Conflict("Hit multiple rows.Not detailed enough"@)
        } else {
            VoteErrorView::NotFound("Doesnt exist."@)
        },
    }
}

impl<'r> FromSpecImpl<FromErrorKind> for VoteErrorKind<'r> {
    open spec fn obeys_from_spec() -> bool {
        false
    }

    open spec fn from_spec(error: FromErrorKind) -> Self {
        arbitrary()
    }
}

impl<'r> From<FromErrorKind> for VoteErrorKind<'r> {
    fn from(error: FromErrorKind) -> (r: Self)
        ensures
            r@ == row_failure(error@),
    {
        match error {
            FromErrorKind::DB(b) => VoteErrorKind::Internal(b),
            FromErrorKind::Serialize(b) => VoteErrorKind::Internal(b),
            FromErrorKind::MultipleRows(b) => match b {
                true => VoteErrorKind::Conflict("Hit multiple rows.Not detailed enough".to_owned()),
                false => VoteErrorKind::NotFound("Doesnt exist.".to_owned()),
            },
        }
    }
}

impl<'r> VoteErrorKind<'r> {
    /// The message that the failure carries.
    pub fn to_string(&self) -> (r: String)
        ensures
            r@ == self@.message(),
    {
        match self {
            VoteErrorKind::Serialize(e) => e.clone(),
            VoteErrorKind::MissingField(e) => e.to_string(),
            VoteErrorKind::IO(e) => e.clone(),
            VoteErrorKind::Conflict(e) => e.clone(),
            VoteErrorKind::NotFound(e) => e.clone(),
            VoteErrorKind::Unauthorized(e) => e.clone(),
            VoteErrorKind::DB(e) => e.clone(),
            VoteErrorKind::Internal(e) => e.clone(),
        }
    }

    /// Reads a failure from a log line: a line that speaks of a "failure"
    /// is an internal error, any other line is refused.
    pub fn from_str(s: &str) -> (r: Result<Self, String>)
        ensures
            occurs_in("failure"@, s@) ==> r is Ok && r->Ok_0@ == VoteErrorView::Internal(
                "Harcore failure..."@,
            ),
            !occurs_in("failure"@, s@) ==> r is Err && r->Err_0@ == "Internal error..."@,
    {
        if contains(s, "failure") {
            Ok(VoteErrorKind::Internal("Harcore failure...".to_owned()))
        } else {
            Err("Internal error...".to_owned())
        }
    }

    /// The failure that a refused log line amounts to.
    pub fn from_refusal(_err: String) -> (r: Self)
        ensures
            r@ == VoteErrorView::Internal("Harcore failure..."@),
    {
        VoteErrorKind::Internal("Harcore failure...".to_owned())
    }
}

} // verus!
