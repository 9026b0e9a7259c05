use users_api::exchange::{create_user, get_users, Event, Exchange, Step, Task};
use users_api::model::{INSERT_USER, SELECT_USERS};
use users_api::reply::{
    Reply, STATUS_BAD_REQUEST, STATUS_CREATED, STATUS_OK, STATUS_SERVER_ERROR, STATUS_UNAVAILABLE,
};
use users_api::user::User;

fn text(s: &str) -> Option<String> {
    Some(s.to_string())
}

fn user(id: i32, name: &str, email: &str) -> User {
    User { id, name: name.to_string(), email: email.to_string() }
}

/// Runs a listing against a database that holds `rows`.
fn list(rows: Vec<User>) -> Reply {
    let (exchange, step) = get_users();
    assert_eq!(step, Step::Acquire);
    let (exchange, step) = exchange.advance(Event::Acquired);
    assert_eq!(step, Step::Execute { statement: SELECT_USERS, parameters: vec![] });
    match exchange.advance(Event::Listed(rows)) {
        (Exchange::Finished, Step::Reply(reply)) => reply,
        other => panic!("no reply: {:?}", other),
    }
}

/// Runs a creation against a database that answers with `ids`.
fn create(name: &str, email: &str, ids: Vec<i32>) -> Reply {
    let (exchange, step) = create_user(text(name), text(email));
    assert_eq!(step, Step::Acquire);
    let (exchange, step) = exchange.advance(Event::Acquired);
    assert_eq!(
        step,
        Step::Execute {
            statement: INSERT_USER,
            parameters: vec![name.to_string(), email.to_string()],
        }
    );
    match exchange.advance(Event::Inserted(ids)) {
        (Exchange::Finished, Step::Reply(reply)) => reply,
        other => panic!("no reply: {:?}", other),
    }
}

#[test]
fn statements_are_as_documented() {
    assert_eq!(SELECT_USERS, "SELECT id, name, email FROM users");
    assert_eq!(INSERT_USER, "INSERT INTO users (name, email) VALUES ($1, $2) RETURNING id");
}

#[test]
fn user_holds_what_it_was_made_of() {
    let made = User::new(7, "Ada".to_string(), "ada@example.com".to_string());
    assert_eq!(made.id, 7);
    assert_eq!(made.name, "Ada");
    assert_eq!(made.email, "ada@example.com");
}

#[test]
fn status_codes_are_as_documented() {
    assert_eq!(Reply::Users(vec![]).status(), 200);
    assert_eq!(Reply::Created(user(1, "Ada", "ada@example.com")).status(), 201);
    assert_eq!(Reply::BadRequest.status(), 400);
    assert_eq!(Reply::ServerError.status(), 500);
    assert_eq!(Reply::Unavailable.status(), 503);
    assert_eq!(STATUS_OK, 200);
    assert_eq!(STATUS_CREATED, 201);
    assert_eq!(STATUS_BAD_REQUEST, 400);
    assert_eq!(STATUS_SERVER_ERROR, 500);
    assert_eq!(STATUS_UNAVAILABLE, 503);
}

#[test]
fn listing_starts_by_asking_for_a_connection() {
    let (exchange, step) = get_users();
    assert_eq!(exchange, Exchange::Acquiring(Task::ListUsers));
    assert_eq!(step, Step::Acquire);
}

#[test]
fn listing_an_empty_table_gives_an_empty_list() {
    let reply = list(vec![]);
    assert_eq!(reply, Reply::Users(vec![]));
    assert_eq!(reply.status(), 200);
}

#[test]
fn listing_keeps_rows_and_their_order() {
    let rows = vec![
        user(3, "Grace", "grace@example.com"),
        user(1, "Ada", "ada@example.com"),
        user(2, "Ada", "ada@example.com"),
    ];
    assert_eq!(list(rows.clone()), Reply::Users(rows));
}

#[test]
fn creation_starts_by_asking_for_a_connection() {
    let (exchange, step) = create_user(text("Ada"), text("ada@example.com"));
    assert_eq!(
        exchange,
        Exchange::Acquiring(Task::CreateUser {
            name: "Ada".to_string(),
            email: "ada@example.com".to_string(),
        })
    );
    assert_eq!(step, Step::Acquire);
}

#[test]
fn created_user_is_echoed_then_listed() {
    let reply = create("Ada", "ada@example.com", vec![1]);
    assert_eq!(reply, Reply::Created(user(1, "Ada", "ada@example.com")));
    assert_eq!(reply.status(), 201);
    let listed = list(vec![user(1, "Ada", "ada@example.com")]);
    assert_eq!(listed, Reply::Users(vec![user(1, "Ada", "ada@example.com")]));
    assert_eq!(listed.status(), 200);
}

#[test]
fn created_user_bears_a_new_identifier_and_is_listed() {
    let earlier = vec![user(1, "Ada", "ada@example.com"), user(2, "Grace", "grace@example.com")];
    let created = match create("Edsger", "edsger@example.com", vec![3]) {
        Reply::Created(created) => created,
        other => panic!("not created: {:?}", other),
    };
    assert!(earlier.iter().all(|u| u.id != created.id));
    let mut rows = earlier.clone();
    rows.push(created.clone());
    match list(rows) {
        Reply::Users(listed) => {
            assert!(listed.contains(&created));
            assert!(earlier.iter().all(|u| listed.contains(u)));
        }
        other => panic!("not listed: {:?}", other),
    }
}

#[test]
fn equal_submissions_give_two_users() {
    let first = create("Ada", "ada@example.com", vec![1]);
    let second = create("Ada", "ada@example.com", vec![2]);
    assert_eq!(first, Reply::Created(user(1, "Ada", "ada@example.com")));
    assert_eq!(second, Reply::Created(user(2, "Ada", "ada@example.com")));
    assert_ne!(first, second);
}

#[test]
fn creation_takes_the_first_identifier_returned() {
    let reply = create("Ada", "ada@example.com", vec![5, 9]);
    assert_eq!(reply, Reply::Created(user(5, "Ada", "ada@example.com")));
}

#[test]
fn creation_accepts_the_extreme_identifiers() {
    assert_eq!(create("a", "b", vec![i32::MAX]), Reply::Created(user(i32::MAX, "a", "b")));
    assert_eq!(create("a", "b", vec![i32::MIN]), Reply::Created(user(i32::MIN, "a", "b")));
}

#[test]
fn creation_keeps_empty_texts() {
    assert_eq!(create("", "", vec![4]), Reply::Created(user(4, "", "")));
}

#[test]
fn creation_without_returned_identifier_is_a_server_error() {
    let reply = create("Ada", "ada@example.com", vec![]);
    assert_eq!(reply, Reply::ServerError);
    assert_eq!(reply.status(), 500);
}

#[test]
fn body_without_name_is_refused() {
    let (exchange, step) = create_user(None, text("ada@example.com"));
    assert_eq!(exchange, Exchange::Finished);
    assert_eq!(step, Step::Reply(Reply::BadRequest));
    assert_eq!(Reply::BadRequest.status(), 400);
}

#[test]
fn body_without_email_is_refused() {
    let (exchange, step) = create_user(text("Ada"), None);
    assert_eq!(exchange, Exchange::Finished);
    assert_eq!(step, Step::Reply(Reply::BadRequest));
}

#[test]
fn body_without_fields_is_refused() {
    let (exchange, step) = create_user(None, None);
    assert_eq!(exchange, Exchange::Finished);
    assert_eq!(step, Step::Reply(Reply::BadRequest));
}

#[test]
fn refused_body_never_reaches_the_database() {
    let events = vec![
        Event::Acquired,
        Event::AcquireFailed,
        Event::Listed(vec![]),
        Event::Inserted(vec![1]),
        Event::StatementFailed,
    ];
    for event in events {
        let (exchange, _) = create_user(text("Ada"), None);
        let (exchange, step) = exchange.advance(event);
        assert_eq!(exchange, Exchange::Finished);
        assert_eq!(step, Step::Reply(Reply::ServerError));
    }
}

#[test]
fn missing_connection_is_answered_as_unavailable() {
    let (exchange, _) = get_users();
    let (exchange, step) = exchange.advance(Event::AcquireFailed);
    assert_eq!(exchange, Exchange::Finished);
    assert_eq!(step, Step::Reply(Reply::Unavailable));
    let (exchange, _) = create_user(text("Ada"), text("ada@example.com"));
    let (exchange, step) = exchange.advance(Event::AcquireFailed);
    assert_eq!(exchange, Exchange::Finished);
    assert_eq!(step, Step::Reply(Reply::Unavailable));
    assert_eq!(Reply::Unavailable.status(), 503);
}

#[test]
fn failed_statement_is_answered_as_server_error() {
    let (exchange, _) = get_users();
    let (exchange, _) = exchange.advance(Event::Acquired);
    let (exchange, step) = exchange.advance(Event::StatementFailed);
    assert_eq!(exchange, Exchange::Finished);
    assert_eq!(step, Step::Reply(Reply::ServerError));
    let (exchange, _) = create_user(text("Ada"), text("ada@example.com"));
    let (exchange, _) = exchange.advance(Event::Acquired);
    let (exchange, step) = exchange.advance(Event::StatementFailed);
    assert_eq!(exchange, Exchange::Finished);
    assert_eq!(step, Step::Reply(Reply::ServerError));
}

#[test]
fn rows_of_the_other_statement_are_a_server_error() {
    let (exchange, _) = get_users();
    let (exchange, _) = exchange.advance(Event::Acquired);
    let (_, step) = exchange.advance(Event::Inserted(vec![1]));
    assert_eq!(step, Step::Reply(Reply::ServerError));
    let (exchange, _) = create_user(text("Ada"), text("ada@example.com"));
    let (exchange, _) = exchange.advance(Event::Acquired);
    let (_, step) = exchange.advance(Event::Listed(vec![user(1, "Ada", "ada@example.com")]));
    assert_eq!(step, Step::Reply(Reply::ServerError));
}

#[test]
fn event_out_of_turn_ends_the_exchange() {
    let (exchange, _) = get_users();
    let (exchange, step) = exchange.advance(Event::Listed(vec![]));
    assert_eq!(exchange, Exchange::Finished);
    assert_eq!(step, Step::Reply(Reply::ServerError));
    let (exchange, _) = get_users();
    let (exchange, _) = exchange.advance(Event::Acquired);
    let (exchange, step) = exchange.advance(Event::Acquired);
    assert_eq!(exchange, Exchange::Finished);
    assert_eq!(step, Step::Reply(Reply::ServerError));
}

#[test]
fn every_exchange_replies_within_two_events() {
    let events = || {
        vec![
            Event::Acquired,
            Event::AcquireFailed,
            Event::Listed(vec![user(1, "Ada", "ada@example.com")]),
            Event::Inserted(vec![1]),
            Event::StatementFailed,
        ]
    };
    let starts = || vec![get_users(), create_user(text("Ada"), text("ada@example.com"))];
    for (index, _) in starts().iter().enumerate() {
        for first in events() {
            for second in events() {
                let (exchange, _) = starts().remove(index);
                let (exchange, step) = exchange.advance(first.clone());
                if matches!(step, Step::Reply(_)) {
                    assert_eq!(exchange, Exchange::Finished);
                } else {
                    let (exchange, step) = exchange.advance(second);
                    assert!(matches!(step, Step::Reply(_)));
                    assert_eq!(exchange, Exchange::Finished);
                }
            }
        }
    }
}
