//! The SQL layer: values, statements, transactions, and result cursors.
//!
//! Statements are executed either through an engine (auto-commit) or inside
//! an explicit [`trans::Transaction`]. Queries produce a
//! [`data_source::DataSource`], iterated with a cursor.

use vstd::prelude::*;

pub mod allocator;
pub mod data_source;
pub mod engine;
pub mod rsql;
pub mod stmt;
pub mod trans;
pub mod value;

verus! {

/// SQL status codes. The numeric space is disjoint from the core storage
/// status space; zero is reserved for success.
#[derive(Clone, Copy, Debug, PartialEq, Eq, Structural)]
pub enum SqlCode {
    /// A cursor or iterator was advanced past its last element.
    NoMoreElements,
    /// A value could not be cast to the requested type.
    InvalidTypeCast,
    /// The statement failed to compile; no row was touched.
    CompileError,
    /// An operation is invalid in the current state.
    InvalidOperation,
    /// An index (column or array position) was out of bounds.
    IndexOutOfBounds,
    /// The statement ran out of memory.
    NotEnoughMemory,
    /// A uniqueness constraint was violated.
    NotUnique,
    /// A runtime error aborted the statement.
    RuntimeError,
    /// A communication failure, distinct from SQL failures, so that clients
    /// can tell "the SQL failed" from "the server is unreachable".
    CommunicationError,
    /// A conflicting transaction blocked this one.
    Conflict,
    /// A released or foreign arena value was dereferenced.
    NullReference,
    /// The session or transaction is in an invalid state.
    InvalidState,
    /// An operand had an unsupported type.
    InvalidOperand,
    /// An unexpected SQL `null` value was encountered.
    NullValue,
}

impl SqlCode {
    /// The numeric value of each SQL status code; zero is success.
    pub open spec fn num(self) -> u32 {
        match self {
            SqlCode::NoMoreElements => 1,
            SqlCode::InvalidTypeCast => 2,
            SqlCode::CompileError => 3,
            SqlCode::InvalidOperation => 4,
            SqlCode::IndexOutOfBounds => 5,
            SqlCode::NotEnoughMemory => 6,
            SqlCode::NotUnique => 7,
            SqlCode::RuntimeError => 8,
            SqlCode::CommunicationError => 9,
            SqlCode::Conflict => 10,
            SqlCode::NullReference => 11,
            SqlCode::InvalidState => 12,
            SqlCode::InvalidOperand => 13,
            SqlCode::NullValue => 14,
        }
    }
}

/// An error of the SQL layer, wrapping a [`SqlCode`].
#[derive(Clone, Copy, Debug, PartialEq, Eq, Structural)]
pub struct SqlError(pub SqlCode);

impl SqlError {
    /// Wraps a SQL status code.
    pub fn new(rc: SqlCode) -> (r: Self)
        ensures
            r.0 == rc,
    {
        SqlError(rc)
    }

    /// Returns the underlying SQL status code.
    pub fn code(&self) -> (r: SqlCode)
        ensures
            r == self.0,
    {
        self.0
    }

    /// Returns the numeric value of the code. Zero is reserved for success
    /// and is never returned here.
    pub fn code_num(&self) -> (r: u32)
        ensures
            r == self.0.num(),
            r != 0,
    {
        match self.0 {
            SqlCode::NoMoreElements => 1,
            SqlCode::InvalidTypeCast => 2,
            SqlCode::CompileError => 3,
            SqlCode::InvalidOperation => 4,
            SqlCode::IndexOutOfBounds => 5,
            SqlCode::NotEnoughMemory => 6,
            SqlCode::NotUnique => 7,
            SqlCode::RuntimeError => 8,
            SqlCode::CommunicationError => 9,
            SqlCode::Conflict => 10,
            SqlCode::NullReference => 11,
            SqlCode::InvalidState => 12,
            SqlCode::InvalidOperand => 13,
            SqlCode::NullValue => 14,
        }
    }

    /// Returns the mnemonic name of the code, one fixed string per code.
    pub fn code_str(&self) -> (r: &'static str)
        ensures
            (self.0 == SqlCode::NoMoreElements ==> r@ == "NO_MORE_ELEMENTS"@),
            (self.0 == SqlCode::InvalidTypeCast ==> r@ == "INVALID_TYPE_CAST"@),
            (self.0 == SqlCode::CompileError ==> r@ == "COMPILE_ERROR"@),
            (self.0 == SqlCode::InvalidOperation ==> r@ == "INVALID_OPERATION"@),
            (self.0 == SqlCode::IndexOutOfBounds ==> r@ == "INDEX_OUT_OF_BOUNDS"@),
            (self.0 == SqlCode::NotEnoughMemory ==> r@ == "NOT_ENOUGH_MEMORY"@),
            (self.0 == SqlCode::NotUnique ==> r@ == "NOT_UNIQUE"@),
            (self.0 == SqlCode::RuntimeError ==> r@ == "RUNTIME_ERROR"@),
            (self.0 == SqlCode::CommunicationError ==> r@ == "COMMUNICATION_ERROR"@),
            (self.0 == SqlCode::Conflict ==> r@ == "SQL_CONFLICT"@),
            (self.0 == SqlCode::NullReference ==> r@ == "SQL_NULL_REFERENCE"@),
            (self.0 == SqlCode::InvalidState ==> r@ == "SQL_INVALID_STATE"@),
            (self.0 == SqlCode::InvalidOperand ==> r@ == "SQL_INVALID_OPERAND"@),
            (self.0 == SqlCode::NullValue ==> r@ == "SQL_NULL_VALUE"@),
    {
        match self.0 {
            SqlCode::NoMoreElements => "NO_MORE_ELEMENTS",
            SqlCode::InvalidTypeCast => "INVALID_TYPE_CAST",
            SqlCode::CompileError => "COMPILE_ERROR",
            SqlCode::InvalidOperation => "INVALID_OPERATION",
            SqlCode::IndexOutOfBounds => "INDEX_OUT_OF_BOUNDS",
            SqlCode::NotEnoughMemory => "NOT_ENOUGH_MEMORY",
            SqlCode::NotUnique => "NOT_UNIQUE",
            SqlCode::RuntimeError => "RUNTIME_ERROR",
            SqlCode::CommunicationError => "COMMUNICATION_ERROR",
            SqlCode::Conflict => "SQL_CONFLICT",
            SqlCode::NullReference => "SQL_NULL_REFERENCE",
            SqlCode::InvalidState => "SQL_INVALID_STATE",
            SqlCode::InvalidOperand => "SQL_INVALID_OPERAND",
            SqlCode::NullValue => "SQL_NULL_VALUE",
        }
    }
}

} // verus!
