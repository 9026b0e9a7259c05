//! The two request handlers. Each is an exchange with the database: the
//! handler says what it needs next, the caller does it and reports what
//! happened, until the handler names the reply.

use vstd::prelude::*;
use crate::model::{
    create_start, list_start, next, EventView, ExchangeView, StepView, TaskView, INSERT_USER,
    SELECT_USERS,
};
use crate::reply::Reply;
use crate::text::text_view;
use crate::user::{users_view, User};

verus! {

/// What a request asks of the database.
#[derive(Clone, Debug, PartialEq, Eq)]
pub enum Task {
    /// Read every row of the users table.
    ListUsers,
    /// Store one row with this name and this address.
    CreateUser { name: String, email: String },
}

impl View for Task {
    type V = TaskView;

    open spec fn view(&self) -> TaskView {
        match *self {
            Task::ListUsers => TaskView::ListUsers,
            Task::CreateUser { name, email } => TaskView::CreateUser {
                name: name@,
                email: email@,
            },
        }
    }
}

/// Where the handling of one request stands.
#[derive(Clone, Debug, PartialEq, Eq)]
pub enum Exchange {
    /// It waits for a connection from the pool.
    Acquiring(Task),
    /// It holds a connection and waits for the outcome of its statement.
    Executing(Task),
    /// The reply is out; the connection, if there was one, goes back.
    Finished,
}

impl View for Exchange {
    type V = ExchangeView;

    open spec fn view(&self) -> ExchangeView {
        match *self {
            Exchange::Acquiring(task) => ExchangeView::Acquiring(task@),
            Exchange::Executing(task) => ExchangeView::Executing(task@),
            Exchange::Finished => ExchangeView::Finished,
        }
    }
}

/// What came of the step that was asked for last.
#[derive(Clone, Debug, PartialEq, Eq)]
pub enum Event {
    /// The pool handed out a connection.
    Acquired,
    /// The pool handed out none.
    AcquireFailed,
    /// The rows that the listing's statement returned.
    Listed(Vec<User>),
    /// The identifiers that the creation's statement returned.
    Inserted(Vec<i32>),
    /// The statement was not carried out, or its rows could not be read.
    StatementFailed,
}

impl View for Event {
    type V = EventView;

    open spec fn view(&self) -> EventView {
        match *self {
            Event::Acquired => EventView::Acquired,
            Event::AcquireFailed => EventView::AcquireFailed,
            Event::Listed(rows) => EventView::Listed(users_view(rows@)),
            Event::Inserted(ids) => EventView::Inserted(ids@.map_values(|id: i32| id as int)),
            Event::StatementFailed => EventView::StatementFailed,
        }
    }
}

/// What the caller is to do next.
#[derive(Clone, Debug, PartialEq, Eq)]
pub enum Step {
    /// Take a connection from the pool.
    Acquire,
    /// Run this statement with these parameters on the connection.
    Execute { statement: &'static str, parameters: Vec<String> },
    /// Send this reply; the exchange is over.
    Reply(Reply),
}

impl View for Step {
    type V = StepView;

    open spec fn view(&self) -> StepView {
        match *self {
            Step::Acquire => StepView::Acquire,
            Step::Execute { statement, parameters } => StepView::Execute {
                statement: statement@,
                parameters: parameters@.map_values(|p: String| p@),
            },
            Step::Reply(reply) => StepView::Reply(reply@),
        }
    }
}

/// Begins the handling of a request for the list of users.
pub fn get_users() -> (start: (Exchange, Step))
    ensures
        (start.0@, start.1@) == list_start(),
{
    (Exchange::Acquiring(Task::ListUsers), Step::Acquire)
}

/// Begins the handling of a request to store a user. `name` and `email`
/// are the body's two fields, each `None` where the body does not hold it
/// as a text.
pub fn create_user(name: Option<String>, email: Option<String>) -> (start: (Exchange, Step))
    ensures
        (start.0@, start.1@) == create_start(text_view(name), text_view(email)),
{
    match name {
        Some(name) => match email {
            Some(email) => (Exchange::Acquiring(Task::CreateUser { name, email }), Step::Acquire),
            None => (Exchange::Finished, Step::Reply(Reply::BadRequest)),
        },
        None => (Exchange::Finished, Step::Reply(Reply::BadRequest)),
    }
}

impl Task {
    /// The step that runs the task's statement.
    fn statement(&self) -> (step: Step)
        ensures
            step@ == (StepView::Execute {
                statement: crate::model::statement_of(self@),
                parameters: crate::model::parameters_of(self@),
            }),
    {
        match self {
            Task::ListUsers => {
                let parameters: Vec<String> = Vec::new();
                assert(parameters@.map_values(|p: String| p@) =~= Seq::<Seq<char>>::empty());
                Step::Execute { statement: SELECT_USERS, parameters }
            },
            Task::CreateUser { name, email } => {
                let mut parameters: Vec<String> = Vec::new();
                parameters.push(name.clone());
                parameters.push(email.clone());
                assert(parameters@.map_values(|p: String| p@) =~= seq![name@, email@]);
                Step::Execute { statement: INSERT_USER, parameters }
            },
        }
    }

    /// The reply to the outcome of the task's statement.
    fn reply(self, event: Event) -> (reply: Reply)
        ensures
            reply@ == crate::model::reply_to(self@, event@),
    {
        match self {
            Task::ListUsers => match event {
                Event::Listed(rows) => Reply::Users(rows),
                _ => Reply::ServerError,
            },
            Task::CreateUser { name, email } => match event {
                Event::Inserted(ids) => {
                    if ids.len() > 0 {
                        Reply::Created(User::new(ids[0], name, email))
                    } else {
                        Reply::ServerError
                    }
                },
                _ => Reply::ServerError,
            },
        }
    }
}

impl Exchange {
    /// Takes what came of the last step and says what to do next.
    ///
    /// A connection is followed by the task's statement, a row set by the
    /// reply that relays it. A failure ends the exchange with the reply
    /// that names it, and so does an event that does not answer the step
    /// asked for.
    pub fn advance(self, event: Event) -> (moved: (Exchange, Step))
        ensures
            (moved.0@, moved.1@) == next(self@, event@),
    {
        match self {
            Exchange::Acquiring(task) => match event {
                Event::Acquired => {
                    let step = task.statement();
                    (Exchange::Executing(task), step)
                },
                Event::AcquireFailed => (Exchange::Finished, Step::Reply(Reply::Unavailable)),
                _ => (Exchange::Finished, Step::Reply(Reply::ServerError)),
            },
            Exchange::Executing(task) => (Exchange::Finished, Step::Reply(task.reply(event))),
            Exchange::Finished => (Exchange::Finished, Step::Reply(Reply::ServerError)),
        }
    }
}

} // verus!
