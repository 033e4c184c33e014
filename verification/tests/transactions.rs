use extremedb::connection::Connection;
use extremedb::database::{CommitPolicy, Database, LogParams, Params, TransPolicy};
use extremedb::device::{Assignment, Device};
use extremedb::runtime::Runtime;
use extremedb::sql::engine::LocalEngine;
use extremedb::sql::trans::{Mode, Transaction};
use extremedb::sql::value::Value;
use extremedb::sql::{SqlCode, SqlError};
use extremedb::{CoreCode, CoreError, Error};

fn open_db(runtime: &Runtime, name: &str, policy: CommitPolicy, delayed: u32) -> Database {
    let mut log = LogParams::new();
    log.default_commit_policy(policy);
    log.max_delayed_transactions(delayed);
    let mut db_params = Params::new();
    db_params.ddl_dict_size(32768);
    db_params.max_classes(100);
    db_params.max_indexes(1000);
    db_params.log_params(log);
    let devs = vec![Device::new_mem_conv(Assignment::Database, 1024 * 1024).unwrap()];
    Database::open(runtime, name, None, &devs, db_params).unwrap()
}

fn count_rows(db: &mut Database, table_query: &str) -> usize {
    let mut tx = Transaction::begin(db, Mode::ReadOnly, 0).unwrap();
    let no_args: Vec<Value> = Vec::new();
    let ds = tx.execute_query(table_query, &no_args).unwrap().unwrap();
    let n = ds.n_rows();
    tx.commit(db).unwrap();
    n
}

#[test]
fn rollback_discards_all_inserts() {
    let runtime = Runtime::start(Vec::new());
    let mut db = open_db(&runtime, "atomic_db", CommitPolicy::SyncFlush, 0);
    let conn = Connection::new(&mut db).unwrap();
    let engine = LocalEngine::new(&conn).unwrap();
    let no_args: Vec<Value> = Vec::new();
    engine
        .execute_statement(&mut db, "CREATE TABLE A(i integer);", &no_args)
        .unwrap();

    let mut tx = Transaction::begin(&mut db, Mode::ReadWrite, 0).unwrap();
    for i in 0..5i64 {
        let args = vec![Value::new_int(i)];
        tx.execute_statement("INSERT INTO A VALUES(?);", &args).unwrap();
    }
    // The writer sees its own five rows on its snapshot.
    let seen = tx.execute_query("SELECT i FROM A;", &no_args).unwrap().unwrap();
    assert_eq!(seen.n_rows(), 5);
    tx.rollback(&mut db).unwrap();

    // A subsequent read-only transaction observes zero of those rows.
    assert_eq!(count_rows(&mut db, "SELECT i FROM A;"), 0);
}

#[test]
fn dropping_a_transaction_publishes_nothing() {
    let runtime = Runtime::start(Vec::new());
    let mut db = open_db(&runtime, "drop_db", CommitPolicy::SyncFlush, 0);
    let conn = Connection::new(&mut db).unwrap();
    let engine = LocalEngine::new(&conn).unwrap();
    let no_args: Vec<Value> = Vec::new();
    engine
        .execute_statement(&mut db, "CREATE TABLE A(i integer);", &no_args)
        .unwrap();

    {
        let mut tx = Transaction::begin(&mut db, Mode::ReadWrite, 0).unwrap();
        let args = vec![Value::new_int(7)];
        tx.execute_statement("INSERT INTO A VALUES(?);", &args).unwrap();
        // The transaction goes out of scope without a commit: its whole
        // snapshot is dropped with it, so the database never sees the row.
    }
    assert_eq!(count_rows(&mut db, "SELECT i FROM A;"), 0);
}

#[test]
fn committed_writes_become_visible() {
    let runtime = Runtime::start(Vec::new());
    let mut db = open_db(&runtime, "commit_db", CommitPolicy::SyncFlush, 0);
    let conn = Connection::new(&mut db).unwrap();
    let engine = LocalEngine::new(&conn).unwrap();
    let no_args: Vec<Value> = Vec::new();
    engine
        .execute_statement(&mut db, "CREATE TABLE A(i integer);", &no_args)
        .unwrap();

    let mut tx = Transaction::begin(&mut db, Mode::ReadWrite, 0).unwrap();
    tx.execute_statement("INSERT INTO A VALUES(10), (20);", &no_args).unwrap();
    tx.commit(&mut db).unwrap();
    assert_eq!(count_rows(&mut db, "SELECT i FROM A;"), 2);
}

#[test]
fn second_writer_conflicts_under_single_writer_policy() {
    let runtime = Runtime::start(Vec::new());
    let mut db = open_db(&runtime, "conflict_db", CommitPolicy::SyncFlush, 0);
    let conn = Connection::new(&mut db).unwrap();
    let engine = LocalEngine::new(&conn).unwrap();
    let no_args: Vec<Value> = Vec::new();
    engine
        .execute_statement(&mut db, "CREATE TABLE A(i integer);", &no_args)
        .unwrap();

    let writer = Transaction::begin(&mut db, Mode::ReadWrite, 0).unwrap();
    // A second read-write transaction while one is active must fail, never
    // silently interleave.
    match Transaction::begin(&mut db, Mode::ReadWrite, 0) {
        Err(Error::Sql(SqlError(SqlCode::Conflict))) => {},
        other => panic!("expected a conflict, got {:?}", other.is_ok()),
    }
    // Readers stay admitted beside the writer.
    let reader = Transaction::begin(&mut db, Mode::ReadOnly, 0).unwrap();
    reader.rollback(&mut db).unwrap();
    writer.rollback(&mut db).unwrap();
    // After the writer left, a new writer may begin.
    let again = Transaction::begin(&mut db, Mode::ReadWrite, 0).unwrap();
    again.rollback(&mut db).unwrap();
}

#[test]
fn exclusive_mode_needs_the_database_alone() {
    let runtime = Runtime::start(Vec::new());
    let mut db = open_db(&runtime, "excl_db", CommitPolicy::SyncFlush, 0);

    let reader = Transaction::begin(&mut db, Mode::ReadOnly, 0).unwrap();
    assert!(Transaction::begin(&mut db, Mode::Exclusive, 0).is_err());
    reader.rollback(&mut db).unwrap();
    let excl = Transaction::begin(&mut db, Mode::Exclusive, 0).unwrap();
    assert!(Transaction::begin(&mut db, Mode::ReadOnly, 0).is_err());
    excl.rollback(&mut db).unwrap();
}

#[test]
fn exclusive_policy_admits_one_transaction() {
    let runtime = Runtime::start(Vec::new());
    let mut log = LogParams::new();
    log.default_commit_policy(CommitPolicy::SyncFlush);
    let mut db_params = Params::new();
    db_params.ddl_dict_size(32768);
    db_params.max_classes(10);
    db_params.max_indexes(10);
    db_params.trans_policy(TransPolicy::Exclusive);
    let devs = vec![Device::new_mem_conv(Assignment::Database, 1024 * 1024).unwrap()];
    let mut db = Database::open(&runtime, "excl_pol", None, &devs, db_params).unwrap();

    let first = Transaction::begin(&mut db, Mode::ReadOnly, 0).unwrap();
    assert!(Transaction::begin(&mut db, Mode::ReadOnly, 0).is_err());
    first.rollback(&mut db).unwrap();
}

#[test]
fn update_mode_is_rejected() {
    let runtime = Runtime::start(Vec::new());
    let mut db = open_db(&runtime, "upd_db", CommitPolicy::SyncFlush, 0);
    assert_eq!(
        Transaction::begin(&mut db, Mode::Update, 0).err(),
        Some(Error::Sql(SqlError(SqlCode::InvalidState)))
    );
}

#[test]
fn sync_flush_survives_a_crash() {
    let runtime = Runtime::start(Vec::new());
    let mut db = open_db(&runtime, "dur_db", CommitPolicy::SyncFlush, 0);
    let conn = Connection::new(&mut db).unwrap();
    let engine = LocalEngine::new(&conn).unwrap();
    let no_args: Vec<Value> = Vec::new();
    engine
        .execute_statement(&mut db, "CREATE TABLE A(i integer, s string);", &no_args)
        .unwrap();
    engine
        .execute_statement(&mut db, "INSERT INTO A VALUES(1, 'x'), (2, 'y');", &no_args)
        .unwrap();

    // Simulated crash and reopen: everything committed is observed.
    let mut db = db.crash_recover();
    assert_eq!(count_rows(&mut db, "SELECT i FROM A;"), 2);
}

#[test]
fn delayed_commits_reach_disk_at_the_threshold() {
    let runtime = Runtime::start(Vec::new());
    let mut db = open_db(&runtime, "delay_db", CommitPolicy::Delayed, 2);
    let conn = Connection::new(&mut db).unwrap();
    let engine = LocalEngine::new(&conn).unwrap();
    let no_args: Vec<Value> = Vec::new();
    engine
        .execute_statement(&mut db, "CREATE TABLE A(i integer);", &no_args)
        .unwrap();
    engine
        .execute_statement(&mut db, "INSERT INTO A VALUES(1);", &no_args)
        .unwrap();
    // Two commits so far (the create and the insert): the threshold of two
    // is reached, so the durable image holds both. One more insert stays
    // pending and is lost in the crash.
    engine
        .execute_statement(&mut db, "INSERT INTO A VALUES(2);", &no_args)
        .unwrap();
    let mut db = db.crash_recover();
    assert_eq!(count_rows(&mut db, "SELECT i FROM A;"), 1);
}

#[test]
fn no_sync_loses_unflushed_commits() {
    let runtime = Runtime::start(Vec::new());
    let mut db = open_db(&runtime, "nosync_db", CommitPolicy::NoSync, 0);
    let conn = Connection::new(&mut db).unwrap();
    let engine = LocalEngine::new(&conn).unwrap();
    let no_args: Vec<Value> = Vec::new();
    engine
        .execute_statement(&mut db, "CREATE TABLE A(i integer);", &no_args)
        .unwrap();
    engine
        .execute_statement(&mut db, "INSERT INTO A VALUES(1);", &no_args)
        .unwrap();
    // Nothing reached the durable image yet.
    let mut db = db.crash_recover();
    let no_table = {
        let mut tx = Transaction::begin(&mut db, Mode::ReadOnly, 0).unwrap();
        let r = tx.execute_query("SELECT i FROM A;", &no_args);
        tx.commit(&mut db).unwrap();
        r.is_err()
    };
    assert!(no_table);
}

#[test]
fn explicit_flush_forces_durability() {
    let runtime = Runtime::start(Vec::new());
    let mut db = open_db(&runtime, "flush_db", CommitPolicy::NoSync, 0);
    let conn = Connection::new(&mut db).unwrap();
    let engine = LocalEngine::new(&conn).unwrap();
    let no_args: Vec<Value> = Vec::new();
    engine
        .execute_statement(&mut db, "CREATE TABLE A(i integer);", &no_args)
        .unwrap();
    engine
        .execute_statement(&mut db, "INSERT INTO A VALUES(1);", &no_args)
        .unwrap();
    db.flush();
    let mut db = db.crash_recover();
    assert_eq!(count_rows(&mut db, "SELECT i FROM A;"), 1);
}

#[test]
fn snapshot_readers_ignore_later_writes() {
    let runtime = Runtime::start(Vec::new());
    let mut db = open_db(&runtime, "snap_db", CommitPolicy::SyncFlush, 0);
    let conn = Connection::new(&mut db).unwrap();
    let engine = LocalEngine::new(&conn).unwrap();
    let no_args: Vec<Value> = Vec::new();
    engine
        .execute_statement(&mut db, "CREATE TABLE A(i integer);", &no_args)
        .unwrap();

    let mut reader = Transaction::begin(&mut db, Mode::ReadOnly, 0).unwrap();
    let mut writer = Transaction::begin(&mut db, Mode::ReadWrite, 0).unwrap();
    writer.execute_statement("INSERT INTO A VALUES(1);", &no_args).unwrap();
    writer.commit(&mut db).unwrap();
    // The reader's snapshot was fixed at begin time: it still sees nothing.
    let seen = reader.execute_query("SELECT i FROM A;", &no_args).unwrap().unwrap();
    assert_eq!(seen.n_rows(), 0);
    reader.commit(&mut db).unwrap();
    // A fresh reader sees the committed row.
    assert_eq!(count_rows(&mut db, "SELECT i FROM A;"), 1);
}

#[test]
fn close_flushes_and_refuses_live_connections() {
    let runtime = Runtime::start(Vec::new());
    let mut db = open_db(&runtime, "close_db", CommitPolicy::NoSync, 0);
    let conn = Connection::new(&mut db).unwrap();
    let engine = LocalEngine::new(&conn).unwrap();
    let no_args: Vec<Value> = Vec::new();
    engine
        .execute_statement(&mut db, "CREATE TABLE A(i integer);", &no_args)
        .unwrap();
    assert_eq!(
        db.close(),
        Err(Error::Core(CoreError(CoreCode::StillInUse)))
    );
    conn.close(&mut db);
    db.close().unwrap();
    // A clean close flushed the committed state; a reopen observes it.
    let mut db = db.crash_recover();
    assert_eq!(count_rows(&mut db, "SELECT i FROM A;"), 0);
}
