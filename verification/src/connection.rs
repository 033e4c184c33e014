//! Database connection management.
//!
//! A connection binds a caller to an open database and consumes one of the
//! `db_max_connections` slots reserved when the database was opened. It is
//! a single-thread binding: the connection value is not shared, and every
//! operation through it takes the database by mutable reference. A
//! connection must be closed to release its slot.

use vstd::prelude::*;

use crate::database::Database;
use crate::{CoreCode, CoreError, Error};

verus! {

/// A database connection: one occupied connection slot of an open
/// database.
pub struct Connection {
    /// The connection identifier.
    pub id: u64,
}

impl Connection {
    /// Establishes a new connection to `db`.
    ///
    /// Fails with `NoInstance` on a closed database, and with
    /// `TooManyConnections` exactly when every connection slot is in use;
    /// the database is then unchanged. On success one more slot is in
    /// use and nothing else changes.
    pub fn new(db: &mut Database) -> (r: Result<Connection, Error>)
        requires
            old(db).wf(),
        ensures
            final(db).wf(),
            (old(db).closed ==> r == Err::<Connection, Error>(
                Error::Core(CoreError(CoreCode::NoInstance)),
            ) && *final(db) == *old(db)),
            (!old(db).closed && old(db).n_connections >= old(db).max_connections ==> r == Err::<
                Connection,
                Error,
            >(Error::Core(CoreError(CoreCode::TooManyConnections))) && *final(db) == *old(db)),
            (!old(db).closed && old(db).n_connections < old(db).max_connections ==> r is Ok
                && *final(db) == (Database {
                n_connections: (old(db).n_connections + 1) as u32,
                ..*old(db)
            })),
    {
        if db.closed {
            return Err(Error::Core(CoreError(CoreCode::NoInstance)));
        }
        if db.n_connections >= db.max_connections {
            return Err(Error::Core(CoreError(CoreCode::TooManyConnections)));
        }
        let id = db.n_connections as u64;
        db.n_connections = db.n_connections + 1;
        Ok(Connection { id })
    }

    /// Closes the connection and releases its slot. Closing the last
    /// stale connection of an already-closed database is a no-op.
    pub fn close(self, db: &mut Database)
        requires
            old(db).wf(),
        ensures
            final(db).wf(),
            (old(db).n_connections > 0 ==> *final(db) == (Database {
                n_connections: (old(db).n_connections - 1) as u32,
                ..*old(db)
            })),
            (old(db).n_connections == 0 ==> *final(db) == *old(db)),
    {
        if db.n_connections > 0 {
            db.n_connections = db.n_connections - 1;
        }
    }
}

} // verus!
