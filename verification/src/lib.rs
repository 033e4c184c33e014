//! An embedded, transactional database engine with an in-process SQL front
//! end.
//!
//! The crate is organized leaf-first:
//!
//! * [`device`] describes the byte extents (memory or file) that back a
//!   database;
//! * [`store`] is the transactional page/object heap drawn from those
//!   devices;
//! * [`index`] is the ordered index used for class indexes and `ORDER BY`;
//! * [`dict`] is the schema catalog (classes, fields, indexes);
//! * [`database`] ties devices, store, catalog and the transaction manager
//!   together;
//! * [`connection`] binds a caller to an open database;
//! * [`sql`] holds the SQL value model, statement execution, transactions and
//!   result cursors.
//!
//! Every fallible operation reports either a core storage status
//! ([`CoreError`]) or a SQL status ([`sql::SqlError`]); the two code spaces
//! are kept apart, and zero is reserved for success in both.

use vstd::prelude::*;

pub mod connection;
pub mod database;
pub mod device;
pub mod dict;
pub mod index;
pub mod runtime;
pub mod sql;
pub mod store;
pub mod util;

verus! {

/// Core storage status codes. Each fallible core operation reports exactly
/// one of these; the numeric code space is disjoint from the SQL status
/// space, and zero is reserved for success (never carried by an error).
#[derive(Clone, Copy, Debug, PartialEq, Eq, Structural)]
pub enum CoreCode {
    /// A parameter was invalid or oversized for its fixed-size field.
    IllegalParam,
    /// The engine ran out of memory pages or backing space.
    NoMem,
    /// The requested database instance does not exist.
    NoInstance,
    /// All connection slots of the database are in use.
    TooManyConnections,
    /// The database still has live connections and cannot be closed.
    StillInUse,
    /// A conflicting transaction holds the database.
    Conflict,
    /// The dictionary capacity reserved at open time is exhausted.
    DictCapacityExceeded,
    /// A page failed its integrity check.
    PageCorruption,
    /// The operation is not supported by this engine build.
    Unsupported,
}

/// An error of the core storage layer, wrapping a [`CoreCode`].
#[derive(Clone, Copy, Debug, PartialEq, Eq, Structural)]
pub struct CoreError(pub CoreCode);

impl CoreError {
    /// Wraps a core status code.
    pub fn new(rc: CoreCode) -> (r: Self)
        ensures
            r.0 == rc,
    {
        CoreError(rc)
    }

    /// Returns the underlying core status code.
    pub fn code(&self) -> (r: CoreCode)
        ensures
            r == self.0,
    {
        self.0
    }

    /// Returns the numeric value of the code. Zero is reserved for success
    /// and is never returned here.
    pub fn code_num(&self) -> (r: u32)
        ensures
            r == self.0.num(),
            r != 0,
    {
        match self.0 {
            CoreCode::IllegalParam => 1,
            CoreCode::NoMem => 2,
            CoreCode::NoInstance => 3,
            CoreCode::TooManyConnections => 4,
            CoreCode::StillInUse => 5,
            CoreCode::Conflict => 6,
            CoreCode::DictCapacityExceeded => 7,
            CoreCode::PageCorruption => 8,
            CoreCode::Unsupported => 9,
        }
    }
}

impl CoreCode {
    /// The numeric value of each core status code; zero is success.
    pub open spec fn num(self) -> u32 {
        match self {
            CoreCode::IllegalParam => 1,
            CoreCode::NoMem => 2,
            CoreCode::NoInstance => 3,
            CoreCode::TooManyConnections => 4,
            CoreCode::StillInUse => 5,
            CoreCode::Conflict => 6,
            CoreCode::DictCapacityExceeded => 7,
            CoreCode::PageCorruption => 8,
            CoreCode::Unsupported => 9,
        }
    }
}

/// An error of either layer: the core storage layer or the SQL layer.
///
/// Storage errors never leak into the SQL code space and vice versa: each
/// layer maps the other's failures into its own taxonomy at the boundary.
#[derive(Clone, Copy, Debug, PartialEq, Eq, Structural)]
pub enum Error {
    /// A core storage error.
    Core(CoreError),
    /// A SQL error.
    Sql(sql::SqlError),
}

impl Error {
    /// Wraps a core status code.
    pub fn new_core(rc: CoreCode) -> (r: Self)
        ensures
            r == Error::Core(CoreError(rc)),
    {
        Error::Core(CoreError(rc))
    }

    /// Wraps a SQL status code.
    pub fn new_sql(rc: sql::SqlCode) -> (r: Self)
        ensures
            r == Error::Sql(sql::SqlError(rc)),
    {
        Error::Sql(sql::SqlError(rc))
    }

    /// True if this is a core storage error carrying `rc`.
    pub open spec fn is_core(self, rc: CoreCode) -> bool {
        self == Error::Core(CoreError(rc))
    }

    /// True if this is a SQL error carrying `rc`.
    pub open spec fn is_sql(self, rc: sql::SqlCode) -> bool {
        self == Error::Sql(sql::SqlError(rc))
    }
}

} // verus!
