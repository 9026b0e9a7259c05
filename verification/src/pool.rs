//! The database connection pool of the service.

use vstd::prelude::*;
use crate::config::{
    pool_settings, settings_of, PoolSettings, PoolSettingsView, StartupError, DATABASE_HOST,
    DATABASE_NAME,
};

verus! {

/// The pool of database connections that every request handler shares.
/// The server takes its connections from `inner`.
#[verifier::external_body]
pub struct ConnectionPool {
    pub inner: deadpool_postgres::Pool,
}

/// The connection settings that a pool keeps: the database, the host, the
/// user and the password with which it will open its connections.
pub uninterp spec fn made_from(pool: ConnectionPool) -> PoolSettingsView;

/// Why no pool was made.
#[derive(Clone, Copy, Debug, PartialEq, Eq)]
pub enum PoolFault {
    /// The settings name no database.
    Settings,
    /// The pool could not be built from sound settings.
    Build,
}

/// `deadpool_postgres::Config::create_pool`, with no runtime and no
/// transport encryption, on a configuration that holds the four settings
/// and nothing else. It opens no connection. It makes a pool exactly when
/// the database name is not empty, and reports a fault of the settings
/// otherwise: without a URL and without timeouts, which this
/// configuration lacks, it has no other way to fail. The pool keeps the
/// database, the host and the password as given. It keeps the user as
/// given unless the user is empty: an empty user is passed over, and the
/// `USER` variable of the environment, where there is one, stands in for
/// it. Of the user that the pool keeps then, nothing is claimed.
#[verifier::external_body]
fn create_pool(settings: &PoolSettings) -> (made: Result<ConnectionPool, PoolFault>)
    ensures
        made is Ok <==> settings.dbname@.len() > 0,
        made matches Ok(pool) ==> made_from(pool).dbname == settings.dbname@ && made_from(
            pool,
        ).host == settings.host@ && made_from(pool).password == settings.password@,
        made matches Ok(pool) ==> settings.user@.len() > 0 ==> made_from(pool).user
            == settings.user@,
        made matches Err(fault) ==> fault == PoolFault::Settings,
{
    let mut cfg = deadpool_postgres::Config::new();
    cfg.dbname = Some(settings.dbname.clone());
    cfg.host = Some(settings.host.clone());
    cfg.user = Some(settings.user.clone());
    cfg.password = Some(settings.password.clone());
    match cfg.create_pool(None, tokio_postgres::NoTls) {
        Ok(pool) => Ok(ConnectionPool { inner: pool }),
        Err(deadpool_postgres::CreatePoolError::Config(_)) => Err(PoolFault::Settings),
        Err(deadpool_postgres::CreatePoolError::Build(_)) => Err(PoolFault::Build),
    }
}

/// Makes the pool from given settings. Settings without a database name
/// are rejected; from any others the pool is made. It keeps the database,
/// the host and the password of the settings, and their user unless that
/// is empty: what stands in for an empty user is the environment's to
/// say.
pub fn pool_from(settings: &PoolSettings) -> (made: Result<ConnectionPool, StartupError>)
    ensures
        made is Ok <==> settings.dbname@.len() > 0,
        made matches Ok(pool) ==> made_from(pool).dbname == settings.dbname@ && made_from(
            pool,
        ).host == settings.host@ && made_from(pool).password == settings.password@,
        made matches Ok(pool) ==> settings.user@.len() > 0 ==> made_from(pool).user
            == settings.user@,
        made matches Err(e) ==> e == StartupError::PoolRejected,
{
    match create_pool(settings) {
        Ok(pool) => Ok(pool),
        Err(_) => Err(StartupError::PoolRejected),
    }
}

/// Makes the pool from the values of the two environment variables, each
/// `None` where the environment lacks it. With one missing no pool is
/// made, and the error names the one that is looked at first. With both
/// present the pool is made; it keeps the fixed host and database and the
/// password, and the user unless that is empty. A user that is present
/// but empty is not missing: the pool is made, and what stands in for the
/// user is the environment's to say.
pub fn init_db_pool(user: Option<String>, password: Option<String>) -> (made: Result<
    ConnectionPool,
    StartupError,
>)
    ensures
        made is Ok <==> user is Some && password is Some,
        made matches Err(e) ==> e == (if user is None {
            StartupError::UserNotSet
        } else {
            StartupError::PasswordNotSet
        }),
        made matches Ok(pool) ==> made_from(pool).dbname == DATABASE_NAME@ && made_from(
            pool,
        ).host == DATABASE_HOST@ && made_from(pool).password == password->0@,
        made matches Ok(pool) ==> user->0@.len() > 0 ==> made_from(pool) == settings_of(
            user->0@,
            password->0@,
        ),
{
    match pool_settings(user, password) {
        Err(e) => Err(e),
        Ok(settings) => {
            proof {
                reveal_strlit("rust_postgres_db");
            }
            assert(settings.dbname@ == DATABASE_NAME@);
            pool_from(&settings)
        },
    }
}

} // verus!
