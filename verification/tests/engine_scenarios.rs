use extremedb::connection::Connection;
use extremedb::database::{Database, Params};
use extremedb::device::{Assignment, Device};
use extremedb::runtime::Runtime;
use extremedb::sql::engine::LocalEngine;
use extremedb::sql::value::Value;
use extremedb::sql::{SqlCode, SqlError};
use extremedb::{CoreCode, CoreError, Error};

fn open_test_db(runtime: &Runtime) -> Database {
    let mut db_params = Params::new();
    db_params.ddl_dict_size(32768);
    db_params.max_classes(100);
    db_params.max_indexes(1000);
    let devs = vec![Device::new_mem_conv(Assignment::Database, 1024 * 1024).unwrap()];
    Database::open(runtime, "test_db", None, &devs, db_params).unwrap()
}

#[test]
fn two_rows_ordered_scenario() {
    let runtime = Runtime::start(Vec::new());
    let mut db = open_test_db(&runtime);
    let conn = Connection::new(&mut db).unwrap();
    let engine = LocalEngine::new(&conn).unwrap();
    let no_args: Vec<Value> = Vec::new();

    engine
        .execute_statement(&mut db, "CREATE TABLE TestTable(i integer, s string);", &no_args)
        .unwrap();
    let one = vec![Value::new_int(1), Value::new_string("Hello")];
    engine
        .execute_statement(&mut db, "INSERT INTO TestTable(i, s) VALUES(?, ?);", &one)
        .unwrap();
    let two = vec![Value::new_int(2), Value::new_string("World")];
    engine
        .execute_statement(&mut db, "INSERT INTO TestTable(i, s) VALUES(?, ?);", &two)
        .unwrap();

    let ds = engine
        .execute_query(&mut db, "SELECT i, s FROM TestTable ORDER BY i;", &no_args)
        .unwrap();
    assert!(ds.is_some());
    let ds = ds.unwrap();
    assert_eq!(ds.n_columns(), 2);

    let mut cur = ds.cursor().unwrap();
    // The cursor starts before the first row.
    assert!(cur.current_record().is_none());

    assert_eq!(cur.advance().unwrap(), true);
    {
        let rec = cur.current_record().unwrap();
        assert_eq!(rec.get_at(0).unwrap().to_i64().unwrap(), 1);
        assert_eq!(rec.get_at(1).unwrap().to_string().unwrap(), "Hello");
    }
    assert_eq!(cur.advance().unwrap(), true);
    {
        let rec = cur.current_record().unwrap();
        assert_eq!(rec.get_at(0).unwrap().to_i64().unwrap(), 2);
        assert_eq!(rec.get_at(1).unwrap().to_string().unwrap(), "World");
    }
    // A third advance reports the end, and the record is gone.
    assert_eq!(cur.advance().unwrap(), false);
    assert!(cur.current_record().is_none());
    assert_eq!(cur.advance().unwrap(), false);
}

#[test]
fn order_by_descending_and_where() {
    let runtime = Runtime::start(Vec::new());
    let mut db = open_test_db(&runtime);
    let conn = Connection::new(&mut db).unwrap();
    let engine = LocalEngine::new(&conn).unwrap();
    let no_args: Vec<Value> = Vec::new();

    engine
        .execute_statement(&mut db, "CREATE TABLE T(i integer, s string);", &no_args)
        .unwrap();
    engine
        .execute_statement(
            &mut db,
            "INSERT INTO T VALUES(3, 'c'), (1, 'a'), (2, 'b');",
            &no_args,
        )
        .unwrap();

    let ds = engine
        .execute_query(&mut db, "SELECT i FROM T ORDER BY i DESC;", &no_args)
        .unwrap()
        .unwrap();
    let mut cur = ds.cursor().unwrap();
    let mut seen = Vec::new();
    while cur.advance().unwrap() {
        let rec = cur.current_record().unwrap();
        seen.push(rec.get_at(0).unwrap().to_i64().unwrap());
    }
    assert_eq!(seen, vec![3, 2, 1]);

    let filter = vec![Value::new_string("b")];
    let ds = engine
        .execute_query(&mut db, "SELECT i, s FROM T WHERE s = ?;", &filter)
        .unwrap()
        .unwrap();
    let mut cur = ds.cursor().unwrap();
    assert!(cur.advance().unwrap());
    let rec = cur.current_record().unwrap();
    assert_eq!(rec.get_at(0).unwrap().to_i64().unwrap(), 2);
    drop(rec);
    assert!(!cur.advance().unwrap());
}

#[test]
fn select_star_and_empty_table() {
    let runtime = Runtime::start(Vec::new());
    let mut db = open_test_db(&runtime);
    let conn = Connection::new(&mut db).unwrap();
    let engine = LocalEngine::new(&conn).unwrap();
    let no_args: Vec<Value> = Vec::new();

    engine
        .execute_statement(&mut db, "CREATE TABLE Empty(i integer, b boolean);", &no_args)
        .unwrap();
    let ds = engine
        .execute_query(&mut db, "SELECT * FROM Empty;", &no_args)
        .unwrap()
        .unwrap();
    assert_eq!(ds.n_columns(), 2);
    assert_eq!(ds.n_rows(), 0);
    let (ty, name) = ds.column_info(0).unwrap();
    assert_eq!(ty, extremedb::sql::value::Type::Int8);
    assert_eq!(name, "i");
    let mut cur = ds.cursor().unwrap();
    assert!(!cur.advance().unwrap());
    assert!(cur.current_record().is_none());
}

#[test]
fn delete_with_filter() {
    let runtime = Runtime::start(Vec::new());
    let mut db = open_test_db(&runtime);
    let conn = Connection::new(&mut db).unwrap();
    let engine = LocalEngine::new(&conn).unwrap();
    let no_args: Vec<Value> = Vec::new();

    engine
        .execute_statement(&mut db, "CREATE TABLE D(i integer);", &no_args)
        .unwrap();
    engine
        .execute_statement(&mut db, "INSERT INTO D VALUES(1), (2), (1), (3);", &no_args)
        .unwrap();
    let deleted = engine
        .execute_statement(&mut db, "DELETE FROM D WHERE i = 1;", &no_args)
        .unwrap();
    assert_eq!(deleted, 2);
    let ds = engine
        .execute_query(&mut db, "SELECT i FROM D ORDER BY i;", &no_args)
        .unwrap()
        .unwrap();
    assert_eq!(ds.n_rows(), 2);
    let all = engine
        .execute_statement(&mut db, "DELETE FROM D;", &no_args)
        .unwrap();
    assert_eq!(all, 2);
    let ds = engine
        .execute_query(&mut db, "SELECT i FROM D;", &no_args)
        .unwrap()
        .unwrap();
    assert_eq!(ds.n_rows(), 0);
}

#[test]
fn compile_errors_before_any_row() {
    let runtime = Runtime::start(Vec::new());
    let mut db = open_test_db(&runtime);
    let conn = Connection::new(&mut db).unwrap();
    let engine = LocalEngine::new(&conn).unwrap();
    let no_args: Vec<Value> = Vec::new();
    let compile_err = Error::Sql(SqlError(SqlCode::CompileError));

    // Text that does not parse.
    assert_eq!(
        engine.execute_statement(&mut db, "FROBNICATE;", &no_args),
        Err(compile_err)
    );
    // Unknown table.
    assert_eq!(
        engine.execute_query(&mut db, "SELECT i FROM Nowhere;", &no_args).err(),
        Some(compile_err)
    );
    // Placeholder count different from the argument count.
    engine
        .execute_statement(&mut db, "CREATE TABLE C(i integer);", &no_args)
        .unwrap();
    assert_eq!(
        engine.execute_statement(&mut db, "INSERT INTO C VALUES(?);", &no_args),
        Err(compile_err)
    );
}

#[test]
fn type_mismatch_is_a_cast_error() {
    let runtime = Runtime::start(Vec::new());
    let mut db = open_test_db(&runtime);
    let conn = Connection::new(&mut db).unwrap();
    let engine = LocalEngine::new(&conn).unwrap();
    let no_args: Vec<Value> = Vec::new();

    engine
        .execute_statement(&mut db, "CREATE TABLE M(i integer);", &no_args)
        .unwrap();
    assert_eq!(
        engine.execute_statement(&mut db, "INSERT INTO M VALUES('text');", &no_args),
        Err(Error::Sql(SqlError(SqlCode::InvalidTypeCast)))
    );
    // Nothing was stored.
    let ds = engine
        .execute_query(&mut db, "SELECT i FROM M;", &no_args)
        .unwrap()
        .unwrap();
    assert_eq!(ds.n_rows(), 0);
    // Nulls go anywhere.
    engine
        .execute_statement(&mut db, "INSERT INTO M VALUES(null);", &no_args)
        .unwrap();
}

#[test]
fn duplicate_table_rejected() {
    let runtime = Runtime::start(Vec::new());
    let mut db = open_test_db(&runtime);
    let conn = Connection::new(&mut db).unwrap();
    let engine = LocalEngine::new(&conn).unwrap();
    let no_args: Vec<Value> = Vec::new();

    engine
        .execute_statement(&mut db, "CREATE TABLE Twice(i integer);", &no_args)
        .unwrap();
    assert_eq!(
        engine.execute_statement(&mut db, "CREATE TABLE Twice(i integer);", &no_args),
        Err(Error::Core(CoreError(CoreCode::IllegalParam)))
    );
}

#[test]
fn dictionary_capacity_is_enforced() {
    let runtime = Runtime::start(Vec::new());
    let mut db_params = Params::new();
    db_params.ddl_dict_size(32768);
    db_params.max_classes(1);
    db_params.max_indexes(10);
    let devs = vec![Device::new_mem_conv(Assignment::Database, 1024 * 1024).unwrap()];
    let mut db = Database::open(&runtime, "cap_db", None, &devs, db_params).unwrap();
    let conn = Connection::new(&mut db).unwrap();
    let engine = LocalEngine::new(&conn).unwrap();
    let no_args: Vec<Value> = Vec::new();

    engine
        .execute_statement(&mut db, "CREATE TABLE One(i integer);", &no_args)
        .unwrap();
    assert_eq!(
        engine.execute_statement(&mut db, "CREATE TABLE TwoMore(i integer);", &no_args),
        Err(Error::Core(CoreError(CoreCode::DictCapacityExceeded)))
    );
}

#[test]
fn page_exhaustion_reports_no_mem() {
    let runtime = Runtime::start(Vec::new());
    let mut db_params = Params::new();
    db_params.ddl_dict_size(32768);
    db_params.max_classes(10);
    db_params.max_indexes(10);
    db_params.mem_page_size(256);
    // Three pages in all.
    let devs = vec![Device::new_mem_conv(Assignment::Database, 768).unwrap()];
    let mut db = Database::open(&runtime, "tiny_db", None, &devs, db_params).unwrap();
    let conn = Connection::new(&mut db).unwrap();
    let engine = LocalEngine::new(&conn).unwrap();
    let no_args: Vec<Value> = Vec::new();

    engine
        .execute_statement(&mut db, "CREATE TABLE S(i integer);", &no_args)
        .unwrap();
    engine
        .execute_statement(&mut db, "INSERT INTO S VALUES(1), (2), (3);", &no_args)
        .unwrap();
    // A fourth row does not fit: exhaustion, reported distinctly, and the
    // statement is all-or-nothing.
    assert_eq!(
        engine.execute_statement(&mut db, "INSERT INTO S VALUES(4), (5);", &no_args),
        Err(Error::Core(CoreError(CoreCode::NoMem)))
    );
    let ds = engine
        .execute_query(&mut db, "SELECT i FROM S;", &no_args)
        .unwrap()
        .unwrap();
    assert_eq!(ds.n_rows(), 3);
}

#[test]
fn multi_row_insert_reports_count() {
    let runtime = Runtime::start(Vec::new());
    let mut db = open_test_db(&runtime);
    let conn = Connection::new(&mut db).unwrap();
    let engine = LocalEngine::new(&conn).unwrap();
    let no_args: Vec<Value> = Vec::new();

    engine
        .execute_statement(&mut db, "CREATE TABLE N(i integer, b boolean);", &no_args)
        .unwrap();
    let n = engine
        .execute_statement(
            &mut db,
            "INSERT INTO N VALUES(1, true), (2, false), (-3, true);",
            &no_args,
        )
        .unwrap();
    assert_eq!(n, 3);
    let ds = engine
        .execute_query(&mut db, "SELECT b FROM N ORDER BY i;", &no_args)
        .unwrap()
        .unwrap();
    let mut cur = ds.cursor().unwrap();
    assert!(cur.advance().unwrap());
    assert!(cur.current_record().unwrap().get_at(0).unwrap().is_true());
}

#[test]
fn update_with_filter_changes_only_matching_rows() {
    let runtime = Runtime::start(Vec::new());
    let mut db = open_test_db(&runtime);
    let conn = Connection::new(&mut db).unwrap();
    let engine = LocalEngine::new(&conn).unwrap();
    let no_args: Vec<Value> = Vec::new();

    engine
        .execute_statement(&mut db, "CREATE TABLE U(i integer, s string);", &no_args)
        .unwrap();
    engine
        .execute_statement(
            &mut db,
            "INSERT INTO U VALUES(1, 'one'), (2, 'two'), (1, 'uno');",
            &no_args,
        )
        .unwrap();

    // Two rows carry i = 1; both take the new string, the third is untouched.
    let n = engine
        .execute_statement(&mut db, "UPDATE U SET s = 'won' WHERE i = 1;", &no_args)
        .unwrap();
    assert_eq!(n, 2);

    let ds = engine
        .execute_query(&mut db, "SELECT i, s FROM U;", &no_args)
        .unwrap()
        .unwrap();
    let mut cur = ds.cursor().unwrap();
    let mut got: Vec<(i64, String)> = Vec::new();
    while cur.advance().unwrap() {
        let rec = cur.current_record().unwrap();
        got.push((
            rec.get_at(0).unwrap().to_i64().unwrap(),
            rec.get_at(1).unwrap().to_string().unwrap(),
        ));
    }
    assert_eq!(
        got,
        vec![
            (1, "won".to_string()),
            (2, "two".to_string()),
            (1, "won".to_string()),
        ]
    );
}

#[test]
fn update_without_filter_changes_every_row() {
    let runtime = Runtime::start(Vec::new());
    let mut db = open_test_db(&runtime);
    let conn = Connection::new(&mut db).unwrap();
    let engine = LocalEngine::new(&conn).unwrap();
    let no_args: Vec<Value> = Vec::new();

    engine
        .execute_statement(&mut db, "CREATE TABLE V(i integer, b boolean);", &no_args)
        .unwrap();
    engine
        .execute_statement(
            &mut db,
            "INSERT INTO V VALUES(1, true), (2, false), (3, true);",
            &no_args,
        )
        .unwrap();

    // Two assignments in one statement; a placeholder supplies one value.
    let args = vec![Value::new_int(9)];
    let n = engine
        .execute_statement(&mut db, "UPDATE V SET i = ?, b = false;", &args)
        .unwrap();
    assert_eq!(n, 3);

    let ds = engine
        .execute_query(&mut db, "SELECT i, b FROM V;", &no_args)
        .unwrap()
        .unwrap();
    let mut cur = ds.cursor().unwrap();
    let mut rows = 0;
    while cur.advance().unwrap() {
        let rec = cur.current_record().unwrap();
        assert_eq!(rec.get_at(0).unwrap().to_i64().unwrap(), 9);
        assert!(!rec.get_at(1).unwrap().is_true());
        rows += 1;
    }
    assert_eq!(rows, 3);
}

#[test]
fn update_errors_leave_rows_alone() {
    let runtime = Runtime::start(Vec::new());
    let mut db = open_test_db(&runtime);
    let conn = Connection::new(&mut db).unwrap();
    let engine = LocalEngine::new(&conn).unwrap();
    let no_args: Vec<Value> = Vec::new();

    engine
        .execute_statement(&mut db, "CREATE TABLE W(i integer);", &no_args)
        .unwrap();
    engine
        .execute_statement(&mut db, "INSERT INTO W VALUES(5);", &no_args)
        .unwrap();

    // An unknown table, an unknown column, and a value of the wrong type.
    assert_eq!(
        engine.execute_statement(&mut db, "UPDATE Missing SET i = 1;", &no_args),
        Err(Error::Sql(SqlError(SqlCode::CompileError)))
    );
    assert_eq!(
        engine.execute_statement(&mut db, "UPDATE W SET nope = 1;", &no_args),
        Err(Error::Sql(SqlError(SqlCode::CompileError)))
    );
    assert_eq!(
        engine.execute_statement(&mut db, "UPDATE W SET i = 'text';", &no_args),
        Err(Error::Sql(SqlError(SqlCode::InvalidTypeCast)))
    );

    let ds = engine
        .execute_query(&mut db, "SELECT i FROM W;", &no_args)
        .unwrap()
        .unwrap();
    let mut cur = ds.cursor().unwrap();
    assert!(cur.advance().unwrap());
    assert_eq!(cur.current_record().unwrap().get_at(0).unwrap().to_i64().unwrap(), 5);
    assert!(!cur.advance().unwrap());
}

#[test]
fn update_matching_zero_rows_reports_zero() {
    let runtime = Runtime::start(Vec::new());
    let mut db = open_test_db(&runtime);
    let conn = Connection::new(&mut db).unwrap();
    let engine = LocalEngine::new(&conn).unwrap();
    let no_args: Vec<Value> = Vec::new();

    engine
        .execute_statement(&mut db, "CREATE TABLE Z(i integer);", &no_args)
        .unwrap();
    engine
        .execute_statement(&mut db, "INSERT INTO Z VALUES(1);", &no_args)
        .unwrap();
    let n = engine
        .execute_statement(&mut db, "UPDATE Z SET i = 7 WHERE i = 42;", &no_args)
        .unwrap();
    assert_eq!(n, 0);
}
