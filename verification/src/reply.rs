//! What a request is answered with.

use vstd::prelude::*;
use crate::user::{users_view, User, UserView};

verus! {

/// Status of a listing.
pub const STATUS_OK: u16 = 200;

/// Status of a creation.
pub const STATUS_CREATED: u16 = 201;

/// Status of a body that lacks a field.
pub const STATUS_BAD_REQUEST: u16 = 400;

/// Status of a statement that the database did not carry out.
pub const STATUS_SERVER_ERROR: u16 = 500;

/// Status of a connection that the pool could not hand out.
pub const STATUS_UNAVAILABLE: u16 = 503;

/// The answer to one request. Every request ends in one of these, the
/// failed ones too.
#[derive(Clone, Debug, PartialEq, Eq)]
pub enum Reply {
    /// Every row of the table, in the order in which the database gave
    /// them.
    Users(Vec<User>),
    /// The user that was stored, with the identifier it was given.
    Created(User),
    /// The body did not hold both a name and an address.
    BadRequest,
    /// The database did not carry out the statement.
    ServerError,
    /// No connection could be had.
    Unavailable,
}

/// What a [`Reply`] is.
pub enum ReplyView {
    Users(Seq<UserView>),
    Created(UserView),
    BadRequest,
    ServerError,
    Unavailable,
}

impl View for Reply {
    type V = ReplyView;

    open spec fn view(&self) -> ReplyView {
        match *self {
            Reply::Users(users) => ReplyView::Users(users_view(users@)),
            Reply::Created(user) => ReplyView::Created(user@),
            Reply::BadRequest => ReplyView::BadRequest,
            Reply::ServerError => ReplyView::ServerError,
            Reply::Unavailable => ReplyView::Unavailable,
        }
    }
}

/// The status that goes with a reply.
pub open spec fn status_of(reply: ReplyView) -> int {
    match reply {
        ReplyView::Users(_) => 200,
        ReplyView::Created(_) => 201,
        ReplyView::BadRequest => 400,
        ReplyView::ServerError => 500,
        ReplyView::Unavailable => 503,
    }
}

impl Reply {
    /// The status code of the response.
    pub fn status(&self) -> (code: u16)
        ensures
            code == status_of(self@),
    {
        match self {
            Reply::Users(_) => STATUS_OK,
            Reply::Created(_) => STATUS_CREATED,
            Reply::BadRequest => STATUS_BAD_REQUEST,
            Reply::ServerError => STATUS_SERVER_ERROR,
            Reply::Unavailable => STATUS_UNAVAILABLE,
        }
    }
}

} // verus!
