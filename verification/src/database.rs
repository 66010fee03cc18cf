//! The database handle behind the Python `Database` class: what it was
//! opened from, and whether it is connected. Opening and closing the
//! database are coroutines run by the bindings; this module decides what
//! the handle holds before and after them, and what every operation gets.
use vstd::prelude::*;

use crate::error::{from_core, BindingError};
use crate::token::{token_manager_algorithm, token_manager_secret, JwtAlgorithm, PyTokenManager};

verus! {

/// `user_permission_core`'s database: a local SQLite store or an HTTP relay.
#[verifier::external_type_specification]
#[verifier::external_body]
pub struct ExDatabase(user_permission_core::Database);

/// Calls `Clone::clone` on a database. The type derives `Clone` over a single
/// `Arc` field, so the copy shares the backend it was taken from. Claims: the copy
/// equals the database it was taken from.
#[verifier::external_body]
fn clone_database(db: &user_permission_core::Database) -> (r: user_permission_core::Database)
    ensures
        r == *db,
{
    db.clone()
}

/// Whether `db` is a local SQLite store; otherwise it is an HTTP relay (the
/// backend has exactly these two kinds).
pub uninterp spec fn database_is_local(db: user_permission_core::Database) -> bool;

/// Whether `db` holds a token manager: a local store opened with a secret
/// file.
pub uninterp spec fn database_has_token_manager(db: user_permission_core::Database) -> bool;

/// The secret of the token manager a database holds: the one read from (or
/// written to) its secret file when it was opened.
pub uninterp spec fn database_token_secret(db: user_permission_core::Database) -> Seq<char>;

/// Calls `user_permission_core::Database::is_local`. Claims: the answer is
/// `database_is_local`.
#[verifier::external_body]
fn core_is_local(db: &user_permission_core::Database) -> (r: bool)
    ensures
        r == database_is_local(*db),
{
    db.is_local()
}

/// Calls `user_permission_core::Database::is_relay`. Claims: a database is a
/// relay exactly when it is not local, as its backend is one of the two.
#[verifier::external_body]
fn core_is_relay(db: &user_permission_core::Database) -> (r: bool)
    ensures
        r == !database_is_local(*db),
{
    db.is_relay()
}

/// Calls `user_permission_core::Database::token_manager` and copies the token
/// manager it lends. Claims: it lends one exactly when the database holds one,
/// which only a local store can; a local store makes its manager with
/// `HS256` and the secret of its secret file, and the copy keeps both (they
/// are all a token manager holds).
#[verifier::external_body]
fn core_token_manager(
    db: &user_permission_core::Database,
) -> (r: Result<user_permission_core::TokenManager, user_permission_core::Error>)
    ensures
        r is Ok <==> database_has_token_manager(*db),
        r is Ok ==> database_is_local(*db),
        r matches Ok(m) ==> token_manager_algorithm(m) == Some(JwtAlgorithm::HS256),
        r matches Ok(m) ==> token_manager_secret(m) == database_token_secret(*db),
{
    db.token_manager().cloned()
}

/// What an operation gets from a handle whose connection is `conn`: the
/// connected database, or `NotConnected`.
pub open spec fn db_lookup(
    conn: Option<user_permission_core::Database>,
) -> Result<user_permission_core::Database, BindingError> {
    match conn {
        Some(db) => Ok(db),
        None => Err(BindingError::NotConnected),
    }
}

/// The connection after `connect()` (or `async with`) has opened `db`.
pub open spec fn after_connect(
    conn: Option<user_permission_core::Database>,
    db: user_permission_core::Database,
) -> Option<user_permission_core::Database> {
    Some(db)
}

/// The connection after `close()` (or leaving `async with`).
pub open spec fn after_close(
    conn: Option<user_permission_core::Database>,
) -> Option<user_permission_core::Database> {
    None
}

/// The database that `close()` has to close, if any.
pub open spec fn to_close(
    conn: Option<user_permission_core::Database>,
) -> Option<user_permission_core::Database> {
    conn
}

/// A database handle: the target (file path or URL) and secret file it is
/// opened with, and the database once connected.
pub struct PyDatabase {
    target: String,
    secret: Option<String>,
    inner: Option<user_permission_core::Database>,
}

impl PyDatabase {
    /// The connected database, if any.
    pub closed spec fn connection(self) -> Option<user_permission_core::Database> {
        self.inner
    }

    /// The file path or URL the handle opens.
    pub closed spec fn target_text(self) -> String {
        self.target
    }

    /// The secret file the handle opens the database with, if any.
    pub closed spec fn secret_path(self) -> Option<String> {
        self.secret
    }

    /// The file path or URL the handle opens.
    pub fn target(&self) -> (r: &String)
        ensures
            *r == self.target_text(),
    {
        &self.target
    }

    /// The secret file the handle opens the database with, if any.
    pub fn secret(&self) -> (r: &Option<String>)
        ensures
            *r == self.secret_path(),
    {
        &self.secret
    }

    /// A handle for `target` with the secret file `secret`, not yet
    /// connected.
    pub fn new(target: String, secret: Option<String>) -> (r: Self)
        ensures
            r.target_text() == target,
            r.secret_path() == secret,
            r.connection() is None,
    {
        PyDatabase { target, secret, inner: None }
    }

    /// The database every operation runs against; refused until the handle is
    /// connected.
    pub fn get_db(&self) -> (r: Result<user_permission_core::Database, BindingError>)
        ensures
            r == db_lookup(self.connection()),
    {
        match &self.inner {
            Some(db) => Ok(clone_database(db)),
            None => Err(BindingError::NotConnected),
        }
    }

    /// Records that `db` has been opened for this handle.
    pub fn attach(&mut self, db: user_permission_core::Database)
        ensures
            final(self).connection() == after_connect(old(self).connection(), db),
            final(self).target_text() == old(self).target_text(),
            final(self).secret_path() == old(self).secret_path(),
    {
        self.inner = Some(db);
    }

    /// Disconnects the handle, handing back the database that has to be
    /// closed, if it was connected.
    pub fn detach(&mut self) -> (r: Option<user_permission_core::Database>)
        ensures
            r == to_close(old(self).connection()),
            final(self).connection() == after_close(old(self).connection()),
            final(self).target_text() == old(self).target_text(),
            final(self).secret_path() == old(self).secret_path(),
    {
        self.inner.take()
    }

    /// Whether the connected database is a local SQLite store.
    pub fn is_local(&self) -> (r: Result<bool, BindingError>)
        ensures
            r is Ok <==> self.connection() is Some,
            self.connection() matches Some(db) ==> r == Ok::<bool, BindingError>(database_is_local(db)),
            r is Err ==> r == Err::<bool, BindingError>(BindingError::NotConnected),
    {
        let db = self.get_db()?;
        Ok(core_is_local(&db))
    }

    /// Whether the connected database is an HTTP relay.
    pub fn is_relay(&self) -> (r: Result<bool, BindingError>)
        ensures
            r is Ok <==> self.connection() is Some,
            self.connection() matches Some(db) ==> r == Ok::<bool, BindingError>(!database_is_local(db)),
            r is Err ==> r == Err::<bool, BindingError>(BindingError::NotConnected),
    {
        let db = self.get_db()?;
        Ok(core_is_relay(&db))
    }

    /// The token manager of the connected database.
    pub fn token_manager(&self) -> (r: Result<PyTokenManager, BindingError>)
        ensures
            self.connection() is None ==> r == Err::<PyTokenManager, BindingError>(
                BindingError::NotConnected,
            ),
            r matches Err(e) ==> e is NotConnected || e is Core,
            self.connection() matches Some(db) ==> {
                &&& r is Ok <==> database_has_token_manager(db)
                &&& !database_is_local(db) ==> r is Err
                &&& r matches Err(e) ==> e is Core
                &&& r matches Ok(m) ==> m.algorithm() == Some(JwtAlgorithm::HS256)
                &&& r matches Ok(m) ==> m.secret_text() == database_token_secret(db)
            },
    {
        let db = self.get_db()?;
        let manager = from_core(core_token_manager(&db))?;
        Ok(PyTokenManager::from_inner(manager))
    }
}

/// Connecting makes every operation reach the database just opened; closing
/// hands that database back to be closed and makes every later operation
/// fail with `NotConnected`; closing again finds nothing left to close.
pub proof fn lemma_connect_then_close(
    conn: Option<user_permission_core::Database>,
    db: user_permission_core::Database,
)
    ensures
        db_lookup(after_connect(conn, db)) == Ok::<user_permission_core::Database, BindingError>(db),
        to_close(after_connect(conn, db)) == Some(db),
        db_lookup(after_close(after_connect(conn, db))) == Err::<user_permission_core::Database, BindingError>(
            BindingError::NotConnected,
        ),
        to_close(after_close(conn)) is None,
        after_close(after_close(conn)) == after_close(conn),
{
}

/// A handle that was never connected refuses every operation, and closing
/// it has nothing to close.
pub proof fn lemma_unconnected_refuses()
    ensures
        db_lookup(None) == Err::<user_permission_core::Database, BindingError>(BindingError::NotConnected),
        to_close(None) is None,
{
}

} // verus!
