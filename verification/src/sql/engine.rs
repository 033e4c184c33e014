//! SQL engines: statement execution with auto-commit.
//!
//! A [`LocalEngine`] executes statements over a database connection. A
//! statement run through the engine without an explicit transaction is
//! wrapped in an implicit read-write transaction that is finalized before
//! the call returns: committed on success, rolled back on failure —
//! auto-commit semantics, so the caller observes all-or-nothing behavior.
//!
//! The engine itself is bound to one caller at a time; concurrent callers
//! each take a [`LocalEngineSession`] over a [`LocalEngineRef`], and every
//! operation hands the database in explicitly, so the borrow rules decide
//! who may touch it when.

use vstd::prelude::*;

use crate::connection::Connection;
use crate::database::{CommitPolicy, Database};
use crate::dict::dict_eq;
use crate::sql::data_source::DataSource;
use crate::sql::trans::{begin_allowed, Mode, Transaction};
use crate::sql::value::Value;
use crate::sql::{SqlCode, SqlError};
use crate::store::store_eq;
use crate::{CoreCode, CoreError, Error};

verus! {

/// A local SQL engine over a database connection.
pub struct LocalEngine {
    /// The identifier of the underlying connection.
    pub conn_id: u64,
}

/// What an auto-commit call leaves behind on failure: the committed state
/// and the durable image are exactly what they were, and no transaction
/// stays active.
pub open spec fn autocommit_err(pre: Database, post: Database) -> bool {
    &&& post.mem == pre.mem
    &&& post.dict == pre.dict
    &&& post.durable == pre.durable
    &&& post.durable_dict == pre.durable_dict
    &&& post.pending_commits == pre.pending_commits
    &&& post.writer_active == pre.writer_active
    &&& post.exclusive_active == pre.exclusive_active
    &&& post.closed == pre.closed
    &&& post.n_connections == pre.n_connections
}

/// What an auto-commit call guarantees on success: the implicit
/// transaction was finalized before returning, and under the synchronous
/// commit policy the durable image holds the new committed state.
pub open spec fn autocommit_ok(pre: Database, post: Database) -> bool {
    &&& post.writer_active == pre.writer_active
    &&& post.exclusive_active == pre.exclusive_active
    &&& post.closed == pre.closed
    &&& post.n_connections == pre.n_connections
    &&& post.commit_policy == pre.commit_policy
    &&& post.trans_policy == pre.trans_policy
    &&& (pre.commit_policy == CommitPolicy::SyncFlush ==> post.durable_matches_mem())
}



/// One witnessed run of a statement between observably-equal states: the
/// body of the auto-commit contracts' existential.
pub open spec fn stmt_run_witness(
    pre: Database,
    post: Database,
    sh: crate::sql::stmt::StmtShape,
    argsv: Seq<crate::sql::value::ValShape>,
    r: Result<i64, Error>,
    dp: crate::dict::Dictionary,
    sp: crate::store::Store,
    dq: crate::dict::Dictionary,
    sq: crate::store::Store,
) -> bool {
    &&& dict_eq(pre.dict, dp)
    &&& store_eq(pre.mem, sp)
    &&& (r is Err ==> crate::sql::stmt::run_clause(dp, sp, dq, sq, sh, argsv, Err(r->Err_0)))
    &&& (r is Ok ==> (exists|sr: crate::sql::stmt::StmtResult|
        crate::sql::stmt::run_clause(dp, sp, dq, sq, sh, argsv, Ok(sr)) && r->Ok_0
            == crate::sql::stmt::affected_count(sr)) && dict_eq(post.dict, dq) && store_eq(
        post.mem,
        sq,
    ))
}

/// One witnessed run of a query between observably-equal states: the
/// body of the auto-commit query contract's existential.
pub open spec fn query_run_witness(
    pre: Database,
    post: Database,
    sh: crate::sql::stmt::StmtShape,
    argsv: Seq<crate::sql::value::ValShape>,
    r: Result<Option<DataSource>, Error>,
    dp: crate::dict::Dictionary,
    sp: crate::store::Store,
    dq: crate::dict::Dictionary,
    sq: crate::store::Store,
) -> bool {
    &&& dict_eq(pre.dict, dp)
    &&& store_eq(pre.mem, sp)
    &&& (r is Err ==> crate::sql::stmt::run_clause(dp, sp, dq, sq, sh, argsv, Err(r->Err_0)))
    &&& (r is Ok ==> (exists|sr: crate::sql::stmt::StmtResult|
        crate::sql::stmt::run_clause(dp, sp, dq, sq, sh, argsv, Ok(sr)) && r->Ok_0 == (match sr {
            crate::sql::stmt::StmtResult::Rows(ds) => Some(ds),
            crate::sql::stmt::StmtResult::Count(_) => None::<DataSource>,
        })) && dict_eq(post.dict, dq) && store_eq(post.mem, sq))
}

/// What an auto-commit statement promises about its result, for every
/// statement the text compiles to with a matching argument count: there
/// are catalog and store states observably equal to the database's
/// committed state that the statement ran against; on failure the
/// statement's whole contract ([`crate::sql::stmt::run_clause`]) holds of
/// that run, and on success it holds with the returned count being the
/// statement's affected-row count and the new committed state observably
/// equal to the run's outcome.
pub open spec fn autocommit_stmt_clause(
    pre: Database,
    post: Database,
    sbytes: Seq<u8>,
    ascii: bool,
    argsv: Seq<crate::sql::value::ValShape>,
    r: Result<i64, Error>,
) -> bool {
    forall|sh: crate::sql::stmt::StmtShape, np: int|
        (ascii && crate::sql::stmt::compile_spec(sbytes) == Some::<
            (crate::sql::stmt::StmtShape, int),
        >((sh, np)) && np == argsv.len()) ==> (exists|
            dp: crate::dict::Dictionary,
            sp: crate::store::Store,
            dq: crate::dict::Dictionary,
            sq: crate::store::Store,
        | stmt_run_witness(pre, post, sh, argsv, r, dp, sp, dq, sq))
}

/// What an auto-commit query promises about its result, in the same
/// shape as [`autocommit_stmt_clause`]: on success the result set is the
/// query's (and `None` exactly for a statement kind that produces no
/// result set), and the new committed state is the run's outcome.
pub open spec fn autocommit_query_clause(
    pre: Database,
    post: Database,
    sbytes: Seq<u8>,
    ascii: bool,
    argsv: Seq<crate::sql::value::ValShape>,
    r: Result<Option<DataSource>, Error>,
) -> bool {
    forall|sh: crate::sql::stmt::StmtShape, np: int|
        (ascii && crate::sql::stmt::compile_spec(sbytes) == Some::<
            (crate::sql::stmt::StmtShape, int),
        >((sh, np)) && np == argsv.len()) ==> (exists|
            dp: crate::dict::Dictionary,
            sp: crate::store::Store,
            dq: crate::dict::Dictionary,
            sq: crate::store::Store,
        | query_run_witness(pre, post, sh, argsv, r, dp, sp, dq, sq))
}


/// Lifts the transaction-level statement contract to the auto-commit
/// face: the implicit transaction's snapshot states are the witnesses.
proof fn lemma_engine_stmt_clause(
    pre: Database,
    post: Database,
    tx0: Transaction,
    tx1: Transaction,
    sbytes: Seq<u8>,
    ascii: bool,
    argsv: Seq<crate::sql::value::ValShape>,
    r: Result<i64, Error>,
    committed: bool,
)
    requires
        dict_eq(pre.dict, tx0.snap_dict),
        store_eq(pre.mem, tx0.snapshot),
        (forall|sh: crate::sql::stmt::StmtShape, np: int|
            (ascii && crate::sql::stmt::compile_spec(sbytes) == Some::<
                (crate::sql::stmt::StmtShape, int),
            >((sh, np)) && np == argsv.len()) ==> ({
                &&& (r is Err ==> crate::sql::stmt::run_clause(
                    tx0.snap_dict,
                    tx0.snapshot,
                    tx1.snap_dict,
                    tx1.snapshot,
                    sh,
                    argsv,
                    Err(r->Err_0),
                ))
                &&& (r is Ok ==> (exists|sr: crate::sql::stmt::StmtResult|
                    crate::sql::stmt::run_clause(
                        tx0.snap_dict,
                        tx0.snapshot,
                        tx1.snap_dict,
                        tx1.snapshot,
                        sh,
                        argsv,
                        Ok(sr),
                    ) && r->Ok_0 == crate::sql::stmt::affected_count(sr)))
            })),
        (committed ==> dict_eq(tx1.snap_dict, post.dict) && store_eq(tx1.snapshot, post.mem)),
        (r is Ok ==> committed),
    ensures
        autocommit_stmt_clause(pre, post, sbytes, ascii, argsv, r),
{
    assert forall|sh: crate::sql::stmt::StmtShape, np: int|
        (ascii && crate::sql::stmt::compile_spec(sbytes) == Some::<
            (crate::sql::stmt::StmtShape, int),
        >((sh, np)) && np == argsv.len()) implies (exists|
        dp: crate::dict::Dictionary,
        sp: crate::store::Store,
        dq: crate::dict::Dictionary,
        sq: crate::store::Store,
    | stmt_run_witness(pre, post, sh, argsv, r, dp, sp, dq, sq)) by {
        if committed {
            crate::database::lemma_dict_eq_sym(tx1.snap_dict, post.dict);
            crate::database::lemma_store_eq_sym(tx1.snapshot, post.mem);
        }
        assert(stmt_run_witness(
            pre,
            post,
            sh,
            argsv,
            r,
            tx0.snap_dict,
            tx0.snapshot,
            tx1.snap_dict,
            tx1.snapshot,
        ));
    }
}

/// Lifts the transaction-level query contract to the auto-commit face,
/// exactly as [`lemma_engine_stmt_clause`] does for statements.
proof fn lemma_engine_query_clause(
    pre: Database,
    post: Database,
    tx0: Transaction,
    tx1: Transaction,
    sbytes: Seq<u8>,
    ascii: bool,
    argsv: Seq<crate::sql::value::ValShape>,
    r: Result<Option<DataSource>, Error>,
    committed: bool,
)
    requires
        dict_eq(pre.dict, tx0.snap_dict),
        store_eq(pre.mem, tx0.snapshot),
        (forall|sh: crate::sql::stmt::StmtShape, np: int|
            (ascii && crate::sql::stmt::compile_spec(sbytes) == Some::<
                (crate::sql::stmt::StmtShape, int),
            >((sh, np)) && np == argsv.len()) ==> ({
                &&& (r is Err ==> crate::sql::stmt::run_clause(
                    tx0.snap_dict,
                    tx0.snapshot,
                    tx1.snap_dict,
                    tx1.snapshot,
                    sh,
                    argsv,
                    Err(r->Err_0),
                ))
                &&& (r is Ok ==> (exists|sr: crate::sql::stmt::StmtResult|
                    crate::sql::stmt::run_clause(
                        tx0.snap_dict,
                        tx0.snapshot,
                        tx1.snap_dict,
                        tx1.snapshot,
                        sh,
                        argsv,
                        Ok(sr),
                    ) && r->Ok_0 == (match sr {
                        crate::sql::stmt::StmtResult::Rows(ds) => Some(ds),
                        crate::sql::stmt::StmtResult::Count(_) => None::<DataSource>,
                    })))
            })),
        (committed ==> dict_eq(tx1.snap_dict, post.dict) && store_eq(tx1.snapshot, post.mem)),
        (r is Ok ==> committed),
    ensures
        autocommit_query_clause(pre, post, sbytes, ascii, argsv, r),
{
    assert forall|sh: crate::sql::stmt::StmtShape, np: int|
        (ascii && crate::sql::stmt::compile_spec(sbytes) == Some::<
            (crate::sql::stmt::StmtShape, int),
        >((sh, np)) && np == argsv.len()) implies (exists|
        dp: crate::dict::Dictionary,
        sp: crate::store::Store,
        dq: crate::dict::Dictionary,
        sq: crate::store::Store,
    | query_run_witness(pre, post, sh, argsv, r, dp, sp, dq, sq)) by {
        if committed {
            crate::database::lemma_dict_eq_sym(tx1.snap_dict, post.dict);
            crate::database::lemma_store_eq_sym(tx1.snapshot, post.mem);
        }
        assert(query_run_witness(
            pre,
            post,
            sh,
            argsv,
            r,
            tx0.snap_dict,
            tx0.snapshot,
            tx1.snap_dict,
            tx1.snapshot,
        ));
    }
}

impl LocalEngine {
    /// Creates a local SQL engine over the connection.
    pub fn new(conn: &Connection) -> (r: Result<LocalEngine, Error>)
        ensures
            (r matches Ok(e) && e.conn_id == conn.id),
    {
        Ok(LocalEngine { conn_id: conn.id })
    }

    /// Executes one SQL statement under an implicit read-write
    /// transaction, finalized before the call returns. Returns the
    /// affected row count.
    ///
    /// Fails with `NoInstance` on a closed database and `SQL_CONFLICT`
    /// while another writer is active; a compile error — non-ASCII text,
    /// text that does not parse, or a placeholder count different from
    /// the argument count — rolls the implicit transaction back, so a
    /// failed call leaves the database observably unchanged.
    pub fn execute_statement(&self, db: &mut Database, sql: &str, args: &Vec<Value>) -> (r: Result<
        i64,
        Error,
    >)
        requires
            old(db).wf(),
        ensures
            final(db).wf(),
            (r is Err ==> autocommit_err(*old(db), *final(db))),
            (r is Ok ==> autocommit_ok(*old(db), *final(db))),
            (old(db).closed ==> r == Err::<i64, Error>(
                Error::Core(CoreError(CoreCode::NoInstance)),
            )),
            (!old(db).closed && !begin_allowed(*old(db), Mode::ReadWrite) ==> r == Err::<
                i64,
                Error,
            >(Error::Sql(SqlError(SqlCode::Conflict)))),
            (begin_allowed(*old(db), Mode::ReadWrite) && !vstd::string::is_ascii(sql) ==> r
                == Err::<i64, Error>(Error::Sql(SqlError(SqlCode::CompileError)))),
            (begin_allowed(*old(db), Mode::ReadWrite) ==> autocommit_stmt_clause(
                *old(db),
                *final(db),
                vstd::string::StringSliceAdditionalSpecFns::spec_bytes(sql),
                vstd::string::is_ascii(sql),
                args.deep_view(),
                r,
            )),
            (begin_allowed(*old(db), Mode::ReadWrite) ==> (forall|
                sh: crate::sql::stmt::StmtShape,
                np: int,
            |
                crate::sql::stmt::compile_spec(
                    vstd::string::StringSliceAdditionalSpecFns::spec_bytes(sql),
                ) == Some::<(crate::sql::stmt::StmtShape, int)>((sh, np)) && np != args@.len()
                    ==> r == Err::<i64, Error>(Error::Sql(SqlError(SqlCode::CompileError))))),

    {
        let mut tx = match Transaction::begin(db, Mode::ReadWrite, 0) {
            Ok(tx) => tx,
            Err(e) => {
                return Err(e);
            },
        };
        let ghost tx0 = tx;
        match tx.execute_statement(sql, args) {
            Ok(n) => {
                let ghost tx1 = tx;
                let c = tx.commit(db);
                proof {
                    assert(c is Ok);
                    lemma_engine_stmt_clause(
                        *old(db),
                        *db,
                        tx0,
                        tx1,
                        vstd::string::StringSliceAdditionalSpecFns::spec_bytes(sql),
                        vstd::string::is_ascii(sql),
                        args.deep_view(),
                        Ok(n),
                        true,
                    );
                }
                Ok(n)
            },
            Err(e) => {
                let ghost tx1 = tx;
                let c = tx.rollback(db);
                proof {
                    assert(c is Ok);
                    lemma_engine_stmt_clause(
                        *old(db),
                        *db,
                        tx0,
                        tx1,
                        vstd::string::StringSliceAdditionalSpecFns::spec_bytes(sql),
                        vstd::string::is_ascii(sql),
                        args.deep_view(),
                        Err(e),
                        false,
                    );
                }
                Err(e)
            },
        }
    }

    /// Executes one SQL query under an implicit read-write transaction,
    /// finalized before the call returns. Returns the result set, or
    /// `None` for a statement that produces no result set. The same
    /// gating and all-or-nothing behavior as
    /// [`LocalEngine::execute_statement`] apply.
    pub fn execute_query(&self, db: &mut Database, sql: &str, args: &Vec<Value>) -> (r: Result<
        Option<DataSource>,
        Error,
    >)
        requires
            old(db).wf(),
        ensures
            final(db).wf(),
            (r is Err ==> autocommit_err(*old(db), *final(db))),
            (r is Ok ==> autocommit_ok(*old(db), *final(db))),
            (old(db).closed ==> r == Err::<Option<DataSource>, Error>(
                Error::Core(CoreError(CoreCode::NoInstance)),
            )),
            (!old(db).closed && !begin_allowed(*old(db), Mode::ReadWrite) ==> r == Err::<
                Option<DataSource>,
                Error,
            >(Error::Sql(SqlError(SqlCode::Conflict)))),
            (begin_allowed(*old(db), Mode::ReadWrite) && !vstd::string::is_ascii(sql) ==> r
                == Err::<Option<DataSource>, Error>(Error::Sql(SqlError(SqlCode::CompileError)))),
            (begin_allowed(*old(db), Mode::ReadWrite) ==> autocommit_query_clause(
                *old(db),
                *final(db),
                vstd::string::StringSliceAdditionalSpecFns::spec_bytes(sql),
                vstd::string::is_ascii(sql),
                args.deep_view(),
                r,
            )),
            (begin_allowed(*old(db), Mode::ReadWrite) ==> (forall|
                sh: crate::sql::stmt::StmtShape,
                np: int,
            |
                crate::sql::stmt::compile_spec(
                    vstd::string::StringSliceAdditionalSpecFns::spec_bytes(sql),
                ) == Some::<(crate::sql::stmt::StmtShape, int)>((sh, np)) && np != args@.len()
                    ==> r == Err::<Option<DataSource>, Error>(
                    Error::Sql(SqlError(SqlCode::CompileError)),
                ))),

    {
        let mut tx = match Transaction::begin(db, Mode::ReadWrite, 0) {
            Ok(tx) => tx,
            Err(e) => {
                return Err(e);
            },
        };
        let ghost tx0 = tx;
        match tx.execute_query(sql, args) {
            Ok(ds) => {
                let ghost tx1 = tx;
                let ghost dsg = ds;
                let c = tx.commit(db);
                proof {
                    assert(c is Ok);
                    lemma_engine_query_clause(
                        *old(db),
                        *db,
                        tx0,
                        tx1,
                        vstd::string::StringSliceAdditionalSpecFns::spec_bytes(sql),
                        vstd::string::is_ascii(sql),
                        args.deep_view(),
                        Ok(dsg),
                        true,
                    );
                }
                Ok(ds)
            },
            Err(e) => {
                let ghost tx1 = tx;
                let c = tx.rollback(db);
                proof {
                    assert(c is Ok);
                    lemma_engine_query_clause(
                        *old(db),
                        *db,
                        tx0,
                        tx1,
                        vstd::string::StringSliceAdditionalSpecFns::spec_bytes(sql),
                        vstd::string::is_ascii(sql),
                        args.deep_view(),
                        Err(e),
                        false,
                    );
                }
                Err(e)
            },
        }
    }
}

/// A reference to a local engine, made to be handed to another caller
/// (for example another thread, which then opens a session over it).
#[derive(Clone, Copy, Debug, PartialEq, Eq, Structural)]
pub struct LocalEngineRef {
    /// The identifier of the underlying connection.
    pub conn_id: u64,
}

impl LocalEngineRef {
    /// Creates a reference to the engine.
    pub fn new(engine: &LocalEngine) -> (r: LocalEngineRef)
        ensures
            r.conn_id == engine.conn_id,
    {
        LocalEngineRef { conn_id: engine.conn_id }
    }
}

/// A session over an engine reference: the per-caller face of a shared
/// engine. Each concurrent caller needs a session of its own; the session
/// executes exactly as the engine does.
pub struct LocalEngineSession {
    /// The identifier of the underlying connection.
    pub conn_id: u64,
}

impl LocalEngineSession {
    /// Opens a session over the engine reference.
    pub fn new(engine_ref: LocalEngineRef) -> (r: Result<LocalEngineSession, Error>)
        ensures
            (r matches Ok(s) && s.conn_id == engine_ref.conn_id),
    {
        Ok(LocalEngineSession { conn_id: engine_ref.conn_id })
    }

    /// Executes one SQL statement under an implicit read-write
    /// transaction, as the engine does.
    pub fn execute_statement(&self, db: &mut Database, sql: &str, args: &Vec<Value>) -> (r: Result<
        i64,
        Error,
    >)
        requires
            old(db).wf(),
        ensures
            final(db).wf(),
            (r is Err ==> autocommit_err(*old(db), *final(db))),
            (r is Ok ==> autocommit_ok(*old(db), *final(db))),
            (begin_allowed(*old(db), Mode::ReadWrite) ==> autocommit_stmt_clause(
                *old(db),
                *final(db),
                vstd::string::StringSliceAdditionalSpecFns::spec_bytes(sql),
                vstd::string::is_ascii(sql),
                args.deep_view(),
                r,
            )),
            (begin_allowed(*old(db), Mode::ReadWrite) ==> (forall|
                sh: crate::sql::stmt::StmtShape,
                np: int,
            |
                crate::sql::stmt::compile_spec(
                    vstd::string::StringSliceAdditionalSpecFns::spec_bytes(sql),
                ) == Some::<(crate::sql::stmt::StmtShape, int)>((sh, np)) && np != args@.len()
                    ==> r == Err::<i64, Error>(Error::Sql(SqlError(SqlCode::CompileError))))),

    {
        let engine = LocalEngine { conn_id: self.conn_id };
        engine.execute_statement(db, sql, args)
    }

    /// Executes one SQL query under an implicit read-write transaction,
    /// as the engine does.
    pub fn execute_query(&self, db: &mut Database, sql: &str, args: &Vec<Value>) -> (r: Result<
        Option<DataSource>,
        Error,
    >)
        requires
            old(db).wf(),
        ensures
            final(db).wf(),
            (r is Err ==> autocommit_err(*old(db), *final(db))),
            (r is Ok ==> autocommit_ok(*old(db), *final(db))),
            (begin_allowed(*old(db), Mode::ReadWrite) ==> autocommit_query_clause(
                *old(db),
                *final(db),
                vstd::string::StringSliceAdditionalSpecFns::spec_bytes(sql),
                vstd::string::is_ascii(sql),
                args.deep_view(),
                r,
            )),
            (begin_allowed(*old(db), Mode::ReadWrite) ==> (forall|
                sh: crate::sql::stmt::StmtShape,
                np: int,
            |
                crate::sql::stmt::compile_spec(
                    vstd::string::StringSliceAdditionalSpecFns::spec_bytes(sql),
                ) == Some::<(crate::sql::stmt::StmtShape, int)>((sh, np)) && np != args@.len()
                    ==> r == Err::<Option<DataSource>, Error>(
                    Error::Sql(SqlError(SqlCode::CompileError)),
                ))),

    {
        let engine = LocalEngine { conn_id: self.conn_id };
        engine.execute_query(db, sql, args)
    }
}

} // verus!
