//! What holds of every exchange, proved from the transition system.

use vstd::prelude::*;
use crate::config::{settings_of, settings_outcome, StartupError};
use crate::model::{
    create_start, events_left, list_start, next, parameters_of, statement_of, EventView,
    ExchangeView, StepView, TaskView, INSERT_USER,
};
use crate::reply::{status_of, ReplyView};
use crate::user::UserView;

verus! {

/// The last step of an exchange in which the pool hands out a connection
/// and the statement ends in `outcome`. An exchange that is over at its
/// start keeps the step it started with.
pub open spec fn served(start: (ExchangeView, StepView), outcome: EventView) -> StepView {
    match start.1 {
        StepView::Acquire => next(next(start.0, EventView::Acquired).0, outcome).1,
        step => step,
    }
}

/// Whether a row with this identifier is among the rows.
pub open spec fn holds_id(rows: Seq<UserView>, id: int) -> bool {
    exists|i: int| 0 <= i < rows.len() && (#[trigger] rows[i]).id == id
}

/// The service starts only with both values of the environment. Where
/// one is missing there are no settings, so no pool and no listener, and
/// nothing stands in for the missing value; where both are there, the
/// settings hold them as they are. This speaks of the settings, not of
/// the pool made from them, which passes over a user that is empty.
pub proof fn startup_needs_both_values(user: Option<Seq<char>>, password: Option<Seq<char>>)
    ensures
        settings_outcome(user, password) is Ok <==> user is Some && password is Some,
        settings_outcome(user, password) matches Err(e) ==> e == (if user is None {
            StartupError::UserNotSet
        } else {
            StartupError::PasswordNotSet
        }),
        settings_outcome(user, password) matches Ok(s) ==> s == settings_of(
            user->0,
            password->0,
        ),
{
}

/// An exchange names its reply exactly when it ends, and every event
/// brings an exchange that is not over closer to its end.
pub proof fn event_brings_reply_closer(state: ExchangeView, event: EventView)
    ensures
        next(state, event).1 is Reply <==> next(state, event).0 is Finished,
        !(state is Finished) ==> events_left(next(state, event).0) < events_left(state),
        state is Finished ==> next(state, event).0 is Finished,
{
}

/// Whatever happens, the reply is out after two events at the latest: no
/// request is left without an answer.
pub proof fn reply_within_two_events(state: ExchangeView, first: EventView, second: EventView)
    ensures
        next(state, first).1 is Reply || next(next(state, first).0, second).1 is Reply,
{
}

/// A statement is asked for only once a connection is there, and it is
/// the statement of the task with the task's parameters.
pub proof fn statement_follows_connection(state: ExchangeView, event: EventView, task: TaskView)
    ensures
        next(state, event).1 is Execute <==> state is Acquiring && event is Acquired,
        next(ExchangeView::Acquiring(task), EventView::Acquired).1 == (StepView::Execute {
            statement: statement_of(task),
            parameters: parameters_of(task),
        }),
{
}

/// A failure is local to its request and is answered: a connection that
/// could not be had with status 503, a statement that was not carried
/// out with status 500.
pub proof fn failure_is_answered(task: TaskView)
    ensures
        next(ExchangeView::Acquiring(task), EventView::AcquireFailed) == (
            ExchangeView::Finished,
            StepView::Reply(ReplyView::Unavailable),
        ),
        next(ExchangeView::Executing(task), EventView::StatementFailed) == (
            ExchangeView::Finished,
            StepView::Reply(ReplyView::ServerError),
        ),
        status_of(ReplyView::Unavailable) == 503,
        status_of(ReplyView::ServerError) == 500,
{
}

/// A listing relays the rows that the database returned, all of them and
/// in their order, with status 200; an empty table gives an empty list.
pub proof fn listing_relays_rows(rows: Seq<UserView>)
    ensures
        served(list_start(), EventView::Listed(rows)) == StepView::Reply(ReplyView::Users(rows)),
        status_of(ReplyView::Users(rows)) == 200,
{
}

/// A creation whose body holds a name and an address runs the insert
/// statement with the two as its parameters, and answers with the
/// identifier that the database returned beside the name and the address
/// as submitted, with status 201.
pub proof fn creation_echoes_identifier(name: Seq<char>, email: Seq<char>, ids: Seq<int>)
    requires
        ids.len() > 0,
    ensures
        next(create_start(Some(name), Some(email)).0, EventView::Acquired).1 == (
            StepView::Execute { statement: INSERT_USER@, parameters: seq![name, email] }
        ),
        served(create_start(Some(name), Some(email)), EventView::Inserted(ids)) == StepView::Reply(
            ReplyView::Created(UserView { id: ids[0], name, email }),
        ),
        status_of(ReplyView::Created(UserView { id: ids[0], name, email })) == 201,
{
}

/// A body that lacks the name or the address is refused with status 400
/// before anything is asked of the database: the exchange is over at its
/// start, and no event makes it run a statement.
pub proof fn incomplete_body_is_refused(
    name: Option<Seq<char>>,
    email: Option<Seq<char>>,
    event: EventView,
)
    requires
        name is None || email is None,
    ensures
        create_start(name, email) == (
            ExchangeView::Finished,
            StepView::Reply(ReplyView::BadRequest),
        ),
        status_of(ReplyView::BadRequest) == 400,
        !(next(create_start(name, email).0, event).1 is Execute),
{
}

/// Nothing is deduplicated. Two creations with the same name and the
/// same address both run the insert statement, and where the database
/// returns two different identifiers the two replies carry two different
/// users with that one name and that one address.
pub proof fn equal_submissions_are_stored_apart(
    name: Seq<char>,
    email: Seq<char>,
    first: int,
    second: int,
)
    requires
        first != second,
    ensures
        next(create_start(Some(name), Some(email)).0, EventView::Acquired).1 is Execute,
        served(create_start(Some(name), Some(email)), EventView::Inserted(seq![first]))
            == StepView::Reply(ReplyView::Created(UserView { id: first, name, email })),
        served(create_start(Some(name), Some(email)), EventView::Inserted(seq![second]))
            == StepView::Reply(ReplyView::Created(UserView { id: second, name, email })),
        (UserView { id: first, name, email }) != (UserView { id: second, name, email }),
{
}

/// The handlers add nothing to and take nothing from what the database
/// does. Where the database gives a new row an identifier that no earlier
/// row bears, the user in the creation's reply bears an identifier that no
/// earlier user bears; and a listing that follows, over the earlier rows
/// and the new one, holds that user and every earlier one.
pub proof fn created_user_is_new_and_listed(
    earlier: Seq<UserView>,
    name: Seq<char>,
    email: Seq<char>,
    id: int,
)
    requires
        !holds_id(earlier, id),
    ensures
        served(create_start(Some(name), Some(email)), EventView::Inserted(seq![id]))
            == StepView::Reply(ReplyView::Created(UserView { id, name, email })),
        !holds_id(earlier, (UserView { id, name, email }).id),
        served(list_start(), EventView::Listed(earlier.push(UserView { id, name, email })))
            == StepView::Reply(ReplyView::Users(earlier.push(UserView { id, name, email }))),
        earlier.push(UserView { id, name, email }).contains(UserView { id, name, email }),
        forall|i: int|
            0 <= i < earlier.len() ==> earlier.push(UserView { id, name, email }).contains(
                #[trigger] earlier[i],
            ),
{
    let user = UserView { id, name, email };
    let listed = earlier.push(user);
    assert(listed[earlier.len() as int] == user);
    assert forall|i: int| 0 <= i < earlier.len() implies listed.contains(#[trigger] earlier[i]) by {
        assert(listed[i] == earlier[i]);
    }
}

} // verus!
