//! Statement arenas.
//!
//! Every statement invocation materializes its bound values into a
//! short-lived arena, an [`Allocator`], and releases the whole arena when
//! the statement is done. Values are reached through [`ArenaRef`] handles
//! that carry the identifier of their owning arena: a handle of a released
//! arena cannot be dereferenced at all (releasing consumes the arena), and
//! a handle presented to a foreign arena is refused deterministically with
//! `SQL_NULL_REFERENCE` — cross-arena release or access is never silent.
//!
//! The statement executor itself moves values as owned copies, which gives
//! the same lifetime discipline through ownership alone; the arena is the
//! home for callers that keep many per-statement values alive together and
//! want the scoping stated and checked rather than implied.

use vstd::prelude::*;

use crate::sql::value::Value;
use crate::sql::{SqlCode, SqlError};
use crate::Error;

verus! {

/// A handle to a value inside one arena: the arena's identifier and the
/// slot of the value.
#[derive(Clone, Copy, Debug, PartialEq, Eq, Structural)]
pub struct ArenaRef {
    /// The identifier of the owning arena.
    pub arena: u64,
    /// The slot within the arena.
    pub slot: usize,
}

/// A statement arena: values carved for one statement invocation and
/// released together.
pub struct Allocator {
    /// The arena identifier, drawn from the owning database.
    pub id: u64,
    /// The values, in allocation order.
    pub vals: Vec<Value>,
}

impl Allocator {
    /// The values held by the arena, in allocation order.
    pub open spec fn view(self) -> Seq<Value> {
        self.vals@
    }

    /// True if `r` is a live handle of this arena.
    pub open spec fn holds(self, r: ArenaRef) -> bool {
        r.arena == self.id && r.slot < self@.len()
    }

    /// Creates an empty arena under the given identifier.
    pub fn new(id: u64) -> (a: Allocator)
        ensures
            a.id == id,
            a@.len() == 0,
    {
        Allocator { id, vals: Vec::new() }
    }

    /// Returns the number of values in the arena.
    pub fn len(&self) -> (r: usize)
        ensures
            r == self@.len(),
    {
        self.vals.len()
    }

    /// Materializes a value into the arena and hands back its handle.
    pub fn alloc_value(&mut self, v: Value) -> (r: ArenaRef)
        ensures
            r.arena == old(self).id,
            r.slot == old(self)@.len(),
            final(self).id == old(self).id,
            final(self)@ == old(self)@.push(v),
            final(self).holds(r),
    {
        let slot = self.vals.len();
        self.vals.push(v);
        ArenaRef { arena: self.id, slot }
    }

    /// Dereferences a handle: yields the value exactly when the handle is
    /// a live handle of this arena, and `SQL_NULL_REFERENCE` otherwise —
    /// in particular for every handle of a foreign arena.
    pub fn get(&self, r: ArenaRef) -> (out: Result<&Value, Error>)
        ensures
            (self.holds(r) ==> (out matches Ok(v) && *v == self@[r.slot as int])),
            (!self.holds(r) ==> (out matches Err(e) && e == Error::Sql(
                SqlError(SqlCode::NullReference),
            ))),
    {
        if r.arena != self.id {
            return Err(Error::Sql(SqlError(SqlCode::NullReference)));
        }
        if r.slot >= self.vals.len() {
            return Err(Error::Sql(SqlError(SqlCode::NullReference)));
        }
        Ok(&self.vals[r.slot])
    }

    /// Releases the arena and every value in it, exactly once: the arena
    /// is consumed, so no later access through it can be written at all,
    /// and its handles only ever reach other arenas, which refuse them.
    pub fn release(self) {
    }
}

/// Arena lifetime: a handle is dereferenceable exactly in its own live
/// arena. Releasing consumes the arena, so access after release is ruled
/// out by ownership; presenting the handle to any other arena is refused
/// deterministically.
pub proof fn lemma_arena_lifetime(a: Allocator, b: Allocator, r: ArenaRef)
    requires
        a.holds(r),
        b.id != a.id,
    ensures
        !b.holds(r),
{
}

} // verus!
