//! What the service is started with: two values from the environment and
//! a few fixed ones.

use vstd::prelude::*;
use crate::text::text_view;

verus! {

/// Environment variable that holds the database user.
pub const DATABASE_USER: &'static str = "DATABASE_USER";

/// Environment variable that holds the database password.
pub const DATABASE_PASSWORD: &'static str = "DATABASE_PASSWORD";

/// Host of the database server.
pub const DATABASE_HOST: &'static str = "localhost";

/// Name of the database that holds the users table.
pub const DATABASE_NAME: &'static str = "rust_postgres_db";

/// Address on which the service listens.
pub const LISTEN_ADDRESS: &'static str = "127.0.0.1";

/// Port on which the service listens.
pub const LISTEN_PORT: u16 = 8080;

/// Path under which the users are listed and created.
pub const USERS_PATH: &'static str = "/users";

/// Why the service did not start.
#[derive(Clone, Copy, Debug, PartialEq, Eq)]
pub enum StartupError {
    /// The environment holds no database user.
    UserNotSet,
    /// The environment holds no database password.
    PasswordNotSet,
    /// The pool rejected the settings.
    PoolRejected,
}

impl StartupError {
    /// The words with which the process gives up.
    pub fn message(&self) -> (text: &'static str)
        ensures
            text@ == match *self {
                StartupError::UserNotSet => "DATABASE_USER not set"@,
                StartupError::PasswordNotSet => "DATABASE_PASSWORD not set"@,
                StartupError::PoolRejected => "Failed to create pool"@,
            },
    {
        match self {
            StartupError::UserNotSet => "DATABASE_USER not set",
            StartupError::PasswordNotSet => "DATABASE_PASSWORD not set",
            StartupError::PoolRejected => "Failed to create pool",
        }
    }
}

/// The parameters of the connection pool.
#[derive(Clone, Debug, PartialEq, Eq)]
pub struct PoolSettings {
    pub dbname: String,
    pub host: String,
    pub user: String,
    pub password: String,
}

/// What a [`PoolSettings`] is: four texts.
pub struct PoolSettingsView {
    pub dbname: Seq<char>,
    pub host: Seq<char>,
    pub user: Seq<char>,
    pub password: Seq<char>,
}

impl View for PoolSettings {
    type V = PoolSettingsView;

    open spec fn view(&self) -> PoolSettingsView {
        PoolSettingsView {
            dbname: self.dbname@,
            host: self.host@,
            user: self.user@,
            password: self.password@,
        }
    }
}

/// The settings that a user and a password give: the fixed host and
/// database, and the two values as they are.
pub open spec fn settings_of(user: Seq<char>, password: Seq<char>) -> PoolSettingsView {
    PoolSettingsView { dbname: DATABASE_NAME@, host: DATABASE_HOST@, user, password }
}

/// What the environment's two values lead to: the user is looked at
/// first, then the password; nothing stands in for a missing value.
pub open spec fn settings_outcome(
    user: Option<Seq<char>>,
    password: Option<Seq<char>>,
) -> Result<PoolSettingsView, StartupError> {
    match (user, password) {
        (None, _) => Err(StartupError::UserNotSet),
        (Some(_), None) => Err(StartupError::PasswordNotSet),
        (Some(u), Some(p)) => Ok(settings_of(u, p)),
    }
}

/// The settings, or the error, as what it is.
pub open spec fn outcome_view(
    outcome: Result<PoolSettings, StartupError>,
) -> Result<PoolSettingsView, StartupError> {
    match outcome {
        Ok(s) => Ok(s@),
        Err(e) => Err(e),
    }
}

/// Builds the pool's settings from the values of [`DATABASE_USER`] and
/// [`DATABASE_PASSWORD`], each `None` where the environment lacks it.
pub fn pool_settings(user: Option<String>, password: Option<String>) -> (outcome: Result<
    PoolSettings,
    StartupError,
>)
    ensures
        outcome_view(outcome) == settings_outcome(text_view(user), text_view(password)),
{
    match user {
        None => Err(StartupError::UserNotSet),
        Some(user) => match password {
            None => Err(StartupError::PasswordNotSet),
            Some(password) => Ok(
                PoolSettings {
                    dbname: DATABASE_NAME.to_owned(),
                    host: DATABASE_HOST.to_owned(),
                    user,
                    password,
                },
            ),
        },
    }
}

} // verus!
