//! The handlers as a transition system: what an exchange with the
//! database is at each moment, what can happen to it, and what it asks
//! for next.

use vstd::prelude::*;
use crate::reply::ReplyView;
use crate::user::UserView;

verus! {

/// The statement of the listing.
pub const SELECT_USERS: &'static str = "SELECT id, name, email FROM users";

/// The statement of the creation. Its two parameters are the name and the
/// address; it returns the identifier of the new row.
pub const INSERT_USER: &'static str =
    "INSERT INTO users (name, email) VALUES ($1, $2) RETURNING id";

/// What a request asks of the database.
pub enum TaskView {
    ListUsers,
    CreateUser { name: Seq<char>, email: Seq<char> },
}

/// Where an exchange stands.
pub enum ExchangeView {
    /// It waits for a connection.
    Acquiring(TaskView),
    /// It waits for the outcome of its statement.
    Executing(TaskView),
    /// The reply is out.
    Finished,
}

/// What the outside reports back.
pub enum EventView {
    Acquired,
    AcquireFailed,
    Listed(Seq<UserView>),
    Inserted(Seq<int>),
    StatementFailed,
}

/// What the exchange asks the outside to do.
pub enum StepView {
    Acquire,
    Execute { statement: Seq<char>, parameters: Seq<Seq<char>> },
    Reply(ReplyView),
}

/// The statement of a task.
pub open spec fn statement_of(task: TaskView) -> Seq<char> {
    match task {
        TaskView::ListUsers => SELECT_USERS@,
        TaskView::CreateUser { .. } => INSERT_USER@,
    }
}

/// The parameters of a task's statement, in the order of its
/// placeholders.
pub open spec fn parameters_of(task: TaskView) -> Seq<Seq<char>> {
    match task {
        TaskView::ListUsers => Seq::empty(),
        TaskView::CreateUser { name, email } => seq![name, email],
    }
}

/// A listing begins by asking for a connection.
pub open spec fn list_start() -> (ExchangeView, StepView) {
    (ExchangeView::Acquiring(TaskView::ListUsers), StepView::Acquire)
}

/// A creation begins by asking for a connection if the body holds both a
/// name and an address. Otherwise it is over at once, with a refusal, and
/// the database is not asked.
pub open spec fn create_start(name: Option<Seq<char>>, email: Option<Seq<char>>) -> (
    ExchangeView,
    StepView,
) {
    match (name, email) {
        (Some(name), Some(email)) => (
            ExchangeView::Acquiring(TaskView::CreateUser { name, email }),
            StepView::Acquire,
        ),
        _ => (ExchangeView::Finished, StepView::Reply(ReplyView::BadRequest)),
    }
}

/// The reply to a statement's outcome. A listing relays the rows as they
/// came. A creation joins the first identifier that came back with the
/// name and the address that were submitted. Anything else is a failure of
/// the statement.
pub open spec fn reply_to(task: TaskView, event: EventView) -> ReplyView {
    match (task, event) {
        (TaskView::ListUsers, EventView::Listed(rows)) => ReplyView::Users(rows),
        (TaskView::CreateUser { name, email }, EventView::Inserted(ids)) => if ids.len() > 0 {
            ReplyView::Created(UserView { id: ids[0], name, email })
        } else {
            ReplyView::ServerError
        },
        _ => ReplyView::ServerError,
    }
}

/// One move of an exchange: the state it is in and what happened give
/// the state it goes to and what it asks for.
pub open spec fn next(state: ExchangeView, event: EventView) -> (ExchangeView, StepView) {
    match state {
        ExchangeView::Acquiring(task) => match event {
            EventView::Acquired => (
                ExchangeView::Executing(task),
                StepView::Execute {
                    statement: statement_of(task),
                    parameters: parameters_of(task),
                },
            ),
            EventView::AcquireFailed => (
                ExchangeView::Finished,
                StepView::Reply(ReplyView::Unavailable),
            ),
            _ => (ExchangeView::Finished, StepView::Reply(ReplyView::ServerError)),
        },
        ExchangeView::Executing(task) => (
            ExchangeView::Finished,
            StepView::Reply(reply_to(task, event)),
        ),
        ExchangeView::Finished => (
            ExchangeView::Finished,
            StepView::Reply(ReplyView::ServerError),
        ),
    }
}

/// How many events an exchange can still take before its reply is out.
pub open spec fn events_left(state: ExchangeView) -> nat {
    match state {
        ExchangeView::Acquiring(_) => 2,
        ExchangeView::Executing(_) => 1,
        ExchangeView::Finished => 0,
    }
}

} // verus!
