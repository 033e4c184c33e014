//! Transactions.
//!
//! A transaction is begun against an open database with a [`Mode`] and a
//! priority, subject to the database's concurrency policy. It holds a
//! private snapshot of the committed state: statements executed inside it
//! see and change only the snapshot. `commit` publishes the snapshot as
//! the committed state and makes it durable according to the commit
//! policy; `rollback` discards it — the database never saw the changes,
//! so a rolled-back transaction leaves no trace by construction.

use vstd::prelude::*;

use crate::database::{
    lemma_dict_eq_refl, lemma_dict_eq_sym, lemma_schema_ok_eq, schema_ok, CommitPolicy, Database,
    TransPolicy,
};
use crate::dict::{dict_eq, lemma_dict_eq_wf, Dictionary};
use crate::sql::data_source::DataSource;
use crate::sql::stmt::{compile_sql, run_stmt, StmtResult};
use crate::sql::value::Value;
use crate::sql::{SqlCode, SqlError};
use crate::store::{store_eq, lemma_store_eq_wf, Store};
use crate::{CoreCode, CoreError, Error};

verus! {

/// Transaction mode.
#[derive(Clone, Copy, Debug, PartialEq, Eq, Structural)]
pub enum Mode {
    /// Read-only.
    ReadOnly,
    /// Update (not supported by this engine build).
    Update,
    /// Read-write.
    ReadWrite,
    /// Exclusive: prohibits any other concurrent transaction, whatever
    /// the concurrency policy allows otherwise.
    Exclusive,
}

/// True if a transaction of `mode` may begin against `db` under the
/// database's concurrency policy: nothing begins on a closed database or
/// beside an exclusive transaction; at most one writer is active at a
/// time; an exclusive transaction requires the database to itself; and
/// under the exclusive policy only one transaction of any mode runs.
pub open spec fn begin_allowed(db: Database, mode: Mode) -> bool {
    &&& !db.closed
    &&& !(mode is Update)
    &&& !db.exclusive_active
    &&& (mode is Exclusive ==> !db.writer_active && db.active_readers == 0)
    &&& ((mode is ReadWrite || mode is Exclusive) ==> !db.writer_active)
    &&& (db.trans_policy == TransPolicy::Exclusive ==> !db.writer_active && db.active_readers
        == 0)
    &&& db.active_readers < usize::MAX
    &&& db.next_tx < u64::MAX
}

/// A transaction: a mode, a scheduling priority, and a private snapshot
/// of the committed state at `begin` time.
///
/// A transaction must be finalized with [`Transaction::commit`] or
/// [`Transaction::rollback`]. Dropping a writer without finalizing it
/// discards its snapshot — the database never sees the changes — but
/// leaves the writer slot marked busy, so later writers keep conflicting
/// until the database is reopened; treat an unfinalized drop as a rollback
/// that still owes the database its slot.
pub struct Transaction {
    /// The transaction identifier.
    pub id: u64,
    /// The transaction mode.
    pub mode: Mode,
    /// The scheduling priority, used for tie-breaking under contention.
    pub priority: i32,
    /// The private snapshot of the schema catalog.
    pub snap_dict: Dictionary,
    /// The private snapshot of the object store.
    pub snapshot: Store,
}

impl Transaction {
    /// Transaction sanity: the snapshot is well-formed and agrees with
    /// its catalog.
    pub open spec fn wf(self) -> bool {
        &&& self.snap_dict.wf()
        &&& self.snapshot.wf()
        &&& schema_ok(self.snap_dict, self.snapshot)
    }

    /// Begins a transaction against `db`.
    ///
    /// Fails with `NoInstance` on a closed database, `SQL_INVALID_STATE`
    /// for the unsupported `Update` mode, and `SQL_CONFLICT` exactly when
    /// the concurrency policy refuses the mode beside the currently
    /// active transactions; the database is then unchanged. On success
    /// the transaction observes a snapshot equal to the committed state,
    /// fixed at this moment.
    pub fn begin(db: &mut Database, mode: Mode, priority: i32) -> (r: Result<Transaction, Error>)
        requires
            old(db).wf(),
        ensures
            final(db).wf(),
            (old(db).closed ==> r == Err::<Transaction, Error>(
                Error::Core(CoreError(CoreCode::NoInstance)),
            ) && *final(db) == *old(db)),
            (!old(db).closed && mode is Update ==> r == Err::<Transaction, Error>(
                Error::Sql(SqlError(SqlCode::InvalidState)),
            ) && *final(db) == *old(db)),
            (!old(db).closed && !(mode is Update) && !begin_allowed(*old(db), mode) ==> r
                == Err::<Transaction, Error>(Error::Sql(SqlError(SqlCode::Conflict))) && *final(db) == *old(db)),
            (begin_allowed(*old(db), mode) ==> (r matches Ok(tx) && tx.id == old(db).next_tx
                && tx.mode == mode && tx.priority == priority && tx.wf() && store_eq(
                old(db).mem,
                tx.snapshot,
            ) && dict_eq(old(db).dict, tx.snap_dict) && final(db).next_tx == old(db).next_tx + 1
                && final(db).mem == old(db).mem && final(db).dict == old(db).dict && final(db).durable == old(db).durable && final(db).durable_dict == old(db).durable_dict
                && final(db).pending_commits == old(db).pending_commits && final(db).closed
                == old(db).closed && final(db).n_connections == old(db).n_connections && final(db).commit_policy == old(db).commit_policy && final(db).trans_policy == old(db).trans_policy && final(db).max_delayed_transactions == old(db).max_delayed_transactions && final(db).active_readers == old(db).active_readers + (
            if mode is ReadOnly {
                1int
            } else {
                0int
            }) && final(db).writer_active == (old(db).writer_active || mode is ReadWrite) && final(db).exclusive_active == (mode is Exclusive))),
    {
        if db.closed {
            return Err(Error::Core(CoreError(CoreCode::NoInstance)));
        }
        if matches!(mode, Mode::Update) {
            return Err(Error::Sql(SqlError(SqlCode::InvalidState)));
        }
        if db.exclusive_active {
            return Err(Error::Sql(SqlError(SqlCode::Conflict)));
        }
        let solo_needed = matches!(mode, Mode::Exclusive) || matches!(
            db.trans_policy,
            TransPolicy::Exclusive,
        );
        if solo_needed && (db.writer_active || db.active_readers > 0) {
            return Err(Error::Sql(SqlError(SqlCode::Conflict)));
        }
        if matches!(mode, Mode::ReadWrite) && db.writer_active {
            return Err(Error::Sql(SqlError(SqlCode::Conflict)));
        }
        if db.active_readers == usize::MAX || db.next_tx == u64::MAX {
            return Err(Error::Sql(SqlError(SqlCode::Conflict)));
        }
        let id = db.next_tx;
        db.next_tx = db.next_tx + 1;
        match mode {
            Mode::ReadOnly => {
                db.active_readers = db.active_readers + 1;
            },
            Mode::ReadWrite => {
                db.writer_active = true;
            },
            Mode::Exclusive => {
                db.exclusive_active = true;
            },
            Mode::Update => {},
        }
        let snapshot = db.mem.snapshot();
        let snap_dict = db.dict.snapshot();
        proof {
            lemma_store_eq_wf(db.mem, snapshot);
            lemma_dict_eq_wf(db.dict, snap_dict);
            lemma_schema_ok_eq(db.dict, db.mem, snap_dict, snapshot);
        }
        Ok(Transaction { id, mode, priority, snap_dict, snapshot })
    }

    /// Executes one SQL statement inside the transaction: the statement
    /// sees and changes only the private snapshot. Returns the affected
    /// row count (the result row count for a query).
    ///
    /// A compile error — non-ASCII text, text that does not parse, or a
    /// placeholder count different from the argument count — surfaces
    /// before any row is touched; a failing statement leaves the snapshot
    /// observably unchanged (statements are all-or-nothing).
    pub fn execute_statement(&mut self, sql: &str, args: &Vec<Value>) -> (r: Result<i64, Error>)
        requires
            old(self).wf(),
        ensures
            final(self).wf(),
            final(self).id == old(self).id,
            final(self).mode == old(self).mode,
            (r is Err ==> dict_eq(old(self).snap_dict, final(self).snap_dict) && store_eq(
                old(self).snapshot,
                final(self).snapshot,
            )),
            (!vstd::string::is_ascii(sql) ==> r == Err::<i64, Error>(
                Error::Sql(SqlError(SqlCode::CompileError)),
            )),
            (vstd::string::is_ascii(sql) && crate::sql::stmt::compile_spec(
                vstd::string::StringSliceAdditionalSpecFns::spec_bytes(sql),
            ) is None ==> r == Err::<i64, Error>(Error::Sql(SqlError(SqlCode::CompileError)))),
            (forall|sh: crate::sql::stmt::StmtShape, np: int|
                crate::sql::stmt::compile_spec(
                    vstd::string::StringSliceAdditionalSpecFns::spec_bytes(sql),
                ) == Some::<(crate::sql::stmt::StmtShape, int)>((sh, np)) && np != args@.len()
                    ==> r == Err::<i64, Error>(Error::Sql(SqlError(SqlCode::CompileError)))),
            (forall|sh: crate::sql::stmt::StmtShape, np: int|
                (vstd::string::is_ascii(sql) && crate::sql::stmt::compile_spec(
                    vstd::string::StringSliceAdditionalSpecFns::spec_bytes(sql),
                ) == Some::<(crate::sql::stmt::StmtShape, int)>((sh, np)) && np == args@.len())
                    ==> ({
                    &&& (r is Err ==> crate::sql::stmt::run_clause(
                        old(self).snap_dict,
                        old(self).snapshot,
                        final(self).snap_dict,
                        final(self).snapshot,
                        sh,
                        args.deep_view(),
                        Err(r->Err_0),
                    ))
                    &&& (r is Ok ==> (exists|sr: crate::sql::stmt::StmtResult|
                        crate::sql::stmt::run_clause(
                            old(self).snap_dict,
                            old(self).snapshot,
                            final(self).snap_dict,
                            final(self).snapshot,
                            sh,
                            args.deep_view(),
                            Ok(sr),
                        ) && r->Ok_0 == crate::sql::stmt::affected_count(sr)))
                })),
    {
        let (stmt, np) = match compile_sql(sql) {
            Ok(p) => p,
            Err(e) => {
                proof {
                    lemma_dict_eq_refl(self.snap_dict);
                    crate::database::lemma_store_eq_refl(self.snapshot);
                }
                return Err(e);
            },
        };
        if np != args.len() {
            proof {
                lemma_dict_eq_refl(self.snap_dict);
                crate::database::lemma_store_eq_refl(self.snapshot);
            }
            return Err(Error::Sql(SqlError(SqlCode::CompileError)));
        }
        let res = run_stmt(&mut self.snap_dict, &mut self.snapshot, &stmt, args);
        let ghost resg = res;
        let out: Result<i64, Error> = match res {
            Ok(StmtResult::Count(n)) => {
                proof {
                    assert(resg == Ok::<StmtResult, Error>(StmtResult::Count(n)));
                }
                Ok(n)
            },
            Ok(StmtResult::Rows(ds)) => {
                let n = ds.n_rows();
                proof {
                    assert(resg == Ok::<StmtResult, Error>(StmtResult::Rows(ds)));
                    assert(ds.rows_view().len() == ds.rows@.len());
                }
                if (n as u64) > 0x7fff_ffff_ffff_ffffu64 {
                    proof {
                        assert(crate::sql::stmt::affected_count(resg->Ok_0) == i64::MAX as int);
                    }
                    Ok(i64::MAX)
                } else {
                    proof {
                        assert(crate::sql::stmt::affected_count(resg->Ok_0) == n as int);
                    }
                    Ok(n as i64)
                }
            },
            Err(e) => Err(e),
        };
        proof {
            assert(out is Ok <==> resg is Ok);
            assert(resg is Ok ==> out->Ok_0 == crate::sql::stmt::affected_count(resg->Ok_0));
            assert(resg is Err ==> out == Err::<i64, Error>(resg->Err_0));
            assert forall|sh: crate::sql::stmt::StmtShape, np2: int|
                (vstd::string::is_ascii(sql) && crate::sql::stmt::compile_spec(
                    vstd::string::StringSliceAdditionalSpecFns::spec_bytes(sql),
                ) == Some::<(crate::sql::stmt::StmtShape, int)>((sh, np2)) && np2
                    == args@.len()) implies ({
                &&& (out is Err ==> crate::sql::stmt::run_clause(
                    old(self).snap_dict,
                    old(self).snapshot,
                    self.snap_dict,
                    self.snapshot,
                    sh,
                    args.deep_view(),
                    Err(out->Err_0),
                ))
                &&& (out is Ok ==> (exists|sr: crate::sql::stmt::StmtResult|
                    crate::sql::stmt::run_clause(
                        old(self).snap_dict,
                        old(self).snapshot,
                        self.snap_dict,
                        self.snapshot,
                        sh,
                        args.deep_view(),
                        Ok(sr),
                    ) && out->Ok_0 == crate::sql::stmt::affected_count(sr)))
            }) by {
                assert(sh == stmt.deep_view());
                match resg {
                    Result::Ok(sr) => {
                        assert(crate::sql::stmt::run_clause(
                            old(self).snap_dict,
                            old(self).snapshot,
                            self.snap_dict,
                            self.snapshot,
                            sh,
                            args.deep_view(),
                            Ok(sr),
                        ));
                    },
                    Result::Err(e) => {
                        assert(out == Err::<i64, Error>(e));
                    },
                }
            }
        }
        out
    }

    /// Executes one SQL query inside the transaction and returns its
    /// result set; a statement that produces no result set returns
    /// `None` after taking effect on the snapshot. The same compile
    /// gating as [`Transaction::execute_statement`] applies.
    pub fn execute_query(&mut self, sql: &str, args: &Vec<Value>) -> (r: Result<
        Option<DataSource>,
        Error,
    >)
        requires
            old(self).wf(),
        ensures
            final(self).wf(),
            final(self).id == old(self).id,
            final(self).mode == old(self).mode,
            (r is Err ==> dict_eq(old(self).snap_dict, final(self).snap_dict) && store_eq(
                old(self).snapshot,
                final(self).snapshot,
            )),
            (!vstd::string::is_ascii(sql) ==> r == Err::<Option<DataSource>, Error>(
                Error::Sql(SqlError(SqlCode::CompileError)),
            )),
            (vstd::string::is_ascii(sql) && crate::sql::stmt::compile_spec(
                vstd::string::StringSliceAdditionalSpecFns::spec_bytes(sql),
            ) is None ==> r == Err::<Option<DataSource>, Error>(
                Error::Sql(SqlError(SqlCode::CompileError)),
            )),
            (forall|sh: crate::sql::stmt::StmtShape, np: int|
                crate::sql::stmt::compile_spec(
                    vstd::string::StringSliceAdditionalSpecFns::spec_bytes(sql),
                ) == Some::<(crate::sql::stmt::StmtShape, int)>((sh, np)) && np != args@.len()
                    ==> r == Err::<Option<DataSource>, Error>(
                    Error::Sql(SqlError(SqlCode::CompileError)),
                )),
            (forall|sh: crate::sql::stmt::StmtShape, np: int|
                (vstd::string::is_ascii(sql) && crate::sql::stmt::compile_spec(
                    vstd::string::StringSliceAdditionalSpecFns::spec_bytes(sql),
                ) == Some::<(crate::sql::stmt::StmtShape, int)>((sh, np)) && np == args@.len())
                    ==> ({
                    &&& (r is Err ==> crate::sql::stmt::run_clause(
                        old(self).snap_dict,
                        old(self).snapshot,
                        final(self).snap_dict,
                        final(self).snapshot,
                        sh,
                        args.deep_view(),
                        Err(r->Err_0),
                    ))
                    &&& (r is Ok ==> (exists|sr: crate::sql::stmt::StmtResult|
                        crate::sql::stmt::run_clause(
                            old(self).snap_dict,
                            old(self).snapshot,
                            final(self).snap_dict,
                            final(self).snapshot,
                            sh,
                            args.deep_view(),
                            Ok(sr),
                        ) && r->Ok_0 == (match sr {
                            crate::sql::stmt::StmtResult::Rows(ds) => Some(ds),
                            crate::sql::stmt::StmtResult::Count(_) => None::<DataSource>,
                        })))
                })),
    {
        let (stmt, np) = match compile_sql(sql) {
            Ok(p) => p,
            Err(e) => {
                proof {
                    lemma_dict_eq_refl(self.snap_dict);
                    crate::database::lemma_store_eq_refl(self.snapshot);
                }
                return Err(e);
            },
        };
        if np != args.len() {
            proof {
                lemma_dict_eq_refl(self.snap_dict);
                crate::database::lemma_store_eq_refl(self.snapshot);
            }
            return Err(Error::Sql(SqlError(SqlCode::CompileError)));
        }
        let res = run_stmt(&mut self.snap_dict, &mut self.snapshot, &stmt, args);
        let ghost resg = res;
        let out: Result<Option<DataSource>, Error> = match res {
            Ok(StmtResult::Rows(ds)) => Ok(Some(ds)),
            Ok(StmtResult::Count(_)) => Ok(None),
            Err(e) => Err(e),
        };
        proof {
            assert forall|sh: crate::sql::stmt::StmtShape, np2: int|
                (vstd::string::is_ascii(sql) && crate::sql::stmt::compile_spec(
                    vstd::string::StringSliceAdditionalSpecFns::spec_bytes(sql),
                ) == Some::<(crate::sql::stmt::StmtShape, int)>((sh, np2)) && np2
                    == args@.len()) implies ({
                &&& (out is Err ==> crate::sql::stmt::run_clause(
                    old(self).snap_dict,
                    old(self).snapshot,
                    self.snap_dict,
                    self.snapshot,
                    sh,
                    args.deep_view(),
                    Err(out->Err_0),
                ))
                &&& (out is Ok ==> (exists|sr: crate::sql::stmt::StmtResult|
                    crate::sql::stmt::run_clause(
                        old(self).snap_dict,
                        old(self).snapshot,
                        self.snap_dict,
                        self.snapshot,
                        sh,
                        args.deep_view(),
                        Ok(sr),
                    ) && out->Ok_0 == (match sr {
                        crate::sql::stmt::StmtResult::Rows(ds) => Some(ds),
                        crate::sql::stmt::StmtResult::Count(_) => None::<DataSource>,
                    })))
            }) by {
                assert(sh == stmt.deep_view());
                match resg {
                    Result::Ok(sr) => {
                        assert(crate::sql::stmt::run_clause(
                            old(self).snap_dict,
                            old(self).snapshot,
                            self.snap_dict,
                            self.snapshot,
                            sh,
                            args.deep_view(),
                            Ok(sr),
                        ));
                    },
                    Result::Err(e) => {
                        assert(out == Err::<Option<DataSource>, Error>(e));
                    },
                }
            }
        }
        out
    }

    /// Commits the transaction: a writer publishes its snapshot as the
    /// committed state, a reader merely leaves. The commit policy decides
    /// durability: under `SyncFlush` the durable image equals the
    /// committed state the moment `commit` returns; under `Delayed` the
    /// commit is counted and the image is written out once the configured
    /// count is reached; under `Buffered` and `NoSync` the image is left
    /// for a later flush.
    pub fn commit(self, db: &mut Database) -> (r: Result<(), Error>)
        requires
            old(db).wf(),
            self.wf(),
        ensures
            final(db).wf(),
            r is Ok,
            final(db).closed == old(db).closed,
            final(db).n_connections == old(db).n_connections,
            final(db).commit_policy == old(db).commit_policy,
            final(db).trans_policy == old(db).trans_policy,
            final(db).max_delayed_transactions == old(db).max_delayed_transactions,
            final(db).max_connections == old(db).max_connections,
            final(db).next_tx == old(db).next_tx,
            (self.mode is ReadOnly ==> final(db).mem == old(db).mem && final(db).dict == old(db).dict && final(db).durable == old(db).durable && final(db).durable_dict == old(db).durable_dict && final(db).pending_commits == old(db).pending_commits && final(db).active_readers == (if old(db).active_readers > 0 {
                old(db).active_readers - 1
            } else {
                0int
            }) && final(db).writer_active == old(db).writer_active && final(db).exclusive_active
                == old(db).exclusive_active),
            ((self.mode is ReadWrite || self.mode is Exclusive) ==> store_eq(
                self.snapshot,
                final(db).mem,
            ) && dict_eq(self.snap_dict, final(db).dict) && !final(db).writer_active && !final(db).exclusive_active && final(db).active_readers == old(db).active_readers),
            ((self.mode is ReadWrite || self.mode is Exclusive) && old(db).commit_policy
                == CommitPolicy::SyncFlush ==> final(db).durable_matches_mem() && final(db).pending_commits == 0),
            ((self.mode is ReadWrite || self.mode is Exclusive) && old(db).commit_policy
                == CommitPolicy::Delayed ==> ({
                let counted = if old(db).pending_commits < u32::MAX {
                    old(db).pending_commits + 1int
                } else {
                    old(db).pending_commits as int
                };
                &&& (old(db).max_delayed_transactions > 0 && counted >= old(db).max_delayed_transactions ==> final(db).durable_matches_mem() && final(db).pending_commits == 0)
                &&& (!(old(db).max_delayed_transactions > 0 && counted >= old(db).max_delayed_transactions) ==> final(db).durable == old(db).durable && final(db).durable_dict == old(db).durable_dict && final(db).pending_commits == counted)
            })),
            ((self.mode is ReadWrite || self.mode is Exclusive) && (old(db).commit_policy
                == CommitPolicy::Buffered || old(db).commit_policy == CommitPolicy::NoSync)
                ==> final(db).durable == old(db).durable && final(db).durable_dict == old(db).durable_dict && final(db).pending_commits == old(db).pending_commits),
            (self.mode is Update ==> *final(db) == *old(db)),
    {
        match self.mode {
            Mode::ReadOnly => {
                if db.active_readers > 0 {
                    db.active_readers = db.active_readers - 1;
                }
                Ok(())
            },
            Mode::Update => Ok(()),
            _ => {
                db.mem = self.snapshot;
                db.dict = self.snap_dict;
                db.writer_active = false;
                db.exclusive_active = false;
                proof {
                    crate::database::lemma_store_eq_refl(db.mem);
                    lemma_dict_eq_refl(db.dict);
                }
                match db.commit_policy {
                    CommitPolicy::SyncFlush => {
                        db.flush();
                    },
                    CommitPolicy::Delayed => {
                        let counted = if db.pending_commits < u32::MAX {
                            db.pending_commits + 1
                        } else {
                            db.pending_commits
                        };
                        db.pending_commits = counted;
                        if db.max_delayed_transactions > 0 && counted
                            >= db.max_delayed_transactions {
                            db.flush();
                        }
                    },
                    _ => {},
                }
                Ok(())
            },
        }
    }

    /// Rolls the transaction back: the private snapshot is discarded, and
    /// the committed state and the durable image are exactly what they
    /// were — a subsequent reader observes none of the transaction's
    /// changes.
    pub fn rollback(self, db: &mut Database) -> (r: Result<(), Error>)
        requires
            old(db).wf(),
        ensures
            final(db).wf(),
            r is Ok,
            final(db).mem == old(db).mem,
            final(db).dict == old(db).dict,
            final(db).durable == old(db).durable,
            final(db).durable_dict == old(db).durable_dict,
            final(db).pending_commits == old(db).pending_commits,
            final(db).closed == old(db).closed,
            final(db).n_connections == old(db).n_connections,
            final(db).next_tx == old(db).next_tx,
            final(db).commit_policy == old(db).commit_policy,
            final(db).trans_policy == old(db).trans_policy,
            final(db).max_delayed_transactions == old(db).max_delayed_transactions,
            final(db).max_connections == old(db).max_connections,
            (self.mode is ReadOnly ==> final(db).active_readers == (if old(db).active_readers
                > 0 {
                old(db).active_readers - 1
            } else {
                0int
            }) && final(db).writer_active == old(db).writer_active && final(db).exclusive_active
                == old(db).exclusive_active),
            (self.mode is ReadWrite ==> !final(db).writer_active && final(db).active_readers
                == old(db).active_readers && final(db).exclusive_active == old(db).exclusive_active),
            (self.mode is Exclusive ==> !final(db).exclusive_active && final(db).active_readers
                == old(db).active_readers && final(db).writer_active == old(db).writer_active),
    {
        match self.mode {
            Mode::ReadOnly => {
                if db.active_readers > 0 {
                    db.active_readers = db.active_readers - 1;
                }
            },
            Mode::ReadWrite => {
                db.writer_active = false;
            },
            Mode::Exclusive => {
                db.exclusive_active = false;
            },
            Mode::Update => {},
        }
        Ok(())
    }
}

/// Transaction atomicity: a rolled-back transaction leaves no trace. The
/// committed state a subsequent read-only transaction snapshots after the
/// rollback is exactly the committed state from before the writer began,
/// however many inserts the writer performed on its private snapshot.
pub proof fn lemma_rollback_atomic(pre: Database, post: Database)
    requires
        post.mem == pre.mem,
        post.dict == pre.dict,
    ensures
        store_eq(pre.mem, post.mem),
        dict_eq(pre.dict, post.dict),
{
    crate::database::lemma_store_eq_refl(pre.mem);
    lemma_dict_eq_refl(pre.dict);
}

/// Commit durability boundary: once the durable image holds the committed
/// state — as `commit` guarantees under `SyncFlush`, and under `Delayed`
/// after the threshold is reached or an explicit flush forced it — a
/// crash-and-reopen observes exactly the committed rows.
pub proof fn lemma_commit_durable(db: Database, recovered: Database)
    requires
        db.durable_matches_mem(),
        store_eq(recovered.mem, db.durable),
        dict_eq(recovered.dict, db.durable_dict),
    ensures
        store_eq(recovered.mem, db.mem),
        dict_eq(recovered.dict, db.dict),
{
    crate::database::lemma_store_eq_sym(db.mem, db.durable);
    crate::database::lemma_store_eq_trans(recovered.mem, db.durable, db.mem);
    lemma_dict_eq_sym(db.dict, db.durable_dict);
    lemma_dict_eq_trans(recovered.dict, db.durable_dict, db.dict);
}

/// Observable catalog equality is transitive.
pub proof fn lemma_dict_eq_trans(a: Dictionary, b: Dictionary, c: Dictionary)
    requires
        dict_eq(a, b),
        dict_eq(b, c),
    ensures
        dict_eq(a, c),
{
    assert forall|x: int| 0 <= x < a.classes@.len() implies crate::dict::struct_eq(
        #[trigger] a.classes@[x],
        c.classes@[x],
    ) by {
        assert(crate::dict::struct_eq(a.classes@[x], b.classes@[x]));
        assert(crate::dict::struct_eq(b.classes@[x], c.classes@[x]));
        assert forall|f: int| 0 <= f < a.classes@[x].fields@.len() implies crate::dict::field_eq(
            #[trigger] a.classes@[x].fields@[f],
            c.classes@[x].fields@[f],
        ) by {
            assert(crate::dict::field_eq(a.classes@[x].fields@[f], b.classes@[x].fields@[f]));
            assert(crate::dict::field_eq(b.classes@[x].fields@[f], c.classes@[x].fields@[f]));
        }
    }
    assert forall|x: int| 0 <= x < a.indexes@.len() implies crate::dict::index_eq(
        #[trigger] a.indexes@[x],
        c.indexes@[x],
    ) by {
        assert(crate::dict::index_eq(a.indexes@[x], b.indexes@[x]));
        assert(crate::dict::index_eq(b.indexes@[x], c.indexes@[x]));
    }
}

/// Write isolation under the single-writer policy: while a read-write
/// transaction is active, beginning a second one is refused with
/// `SQL_CONFLICT` — concurrent writers can never silently interleave.
pub proof fn lemma_single_writer(db: Database)
    requires
        db.writer_active,
    ensures
        !begin_allowed(db, Mode::ReadWrite),
        !begin_allowed(db, Mode::Exclusive),
{
}

} // verus!
