use sql_connect::sqlite::{
    check, classify_step, parameter_slot, Connection, Step, SQLITE_ABORT, SQLITE_AUTH,
    SQLITE_BLOB, SQLITE_BUSY, SQLITE_CANTOPEN, SQLITE_CONSTRAINT, SQLITE_CORRUPT, SQLITE_DONE,
    SQLITE_EMPTY, SQLITE_ERROR, SQLITE_FLOAT, SQLITE_FORMAT, SQLITE_FULL, SQLITE_INTEGER,
    SQLITE_INTERNAL, SQLITE_INTERRUPT, SQLITE_IOERR, SQLITE_LOCKED, SQLITE_MISMATCH,
    SQLITE_MISUSE, SQLITE_NOLFS, SQLITE_NOMEM, SQLITE_NOTADB, SQLITE_NOTFOUND, SQLITE_NULL,
    SQLITE_OK, SQLITE_PERM, SQLITE_PROTOCOL, SQLITE_RANGE, SQLITE_READONLY, SQLITE_ROW,
    SQLITE_SCHEMA, SQLITE_TEXT, SQLITE_TOOBIG,
};
use sql_connect::{Error, ErrorKind, SqliteError};
use std::path::PathBuf;

#[test]
fn result_codes_are_those_of_the_engine() {
    assert_eq!(SQLITE_OK, libsqlite3_sys::SQLITE_OK);
    assert_eq!(SQLITE_ERROR, libsqlite3_sys::SQLITE_ERROR);
    assert_eq!(SQLITE_INTERNAL, libsqlite3_sys::SQLITE_INTERNAL);
    assert_eq!(SQLITE_PERM, libsqlite3_sys::SQLITE_PERM);
    assert_eq!(SQLITE_ABORT, libsqlite3_sys::SQLITE_ABORT);
    assert_eq!(SQLITE_BUSY, libsqlite3_sys::SQLITE_BUSY);
    assert_eq!(SQLITE_LOCKED, libsqlite3_sys::SQLITE_LOCKED);
    assert_eq!(SQLITE_NOMEM, libsqlite3_sys::SQLITE_NOMEM);
    assert_eq!(SQLITE_READONLY, libsqlite3_sys::SQLITE_READONLY);
    assert_eq!(SQLITE_INTERRUPT, libsqlite3_sys::SQLITE_INTERRUPT);
    assert_eq!(SQLITE_IOERR, libsqlite3_sys::SQLITE_IOERR);
    assert_eq!(SQLITE_CORRUPT, libsqlite3_sys::SQLITE_CORRUPT);
    assert_eq!(SQLITE_NOTFOUND, libsqlite3_sys::SQLITE_NOTFOUND);
    assert_eq!(SQLITE_FULL, libsqlite3_sys::SQLITE_FULL);
    assert_eq!(SQLITE_CANTOPEN, libsqlite3_sys::SQLITE_CANTOPEN);
    assert_eq!(SQLITE_PROTOCOL, libsqlite3_sys::SQLITE_PROTOCOL);
    assert_eq!(SQLITE_EMPTY, libsqlite3_sys::SQLITE_EMPTY);
    assert_eq!(SQLITE_SCHEMA, libsqlite3_sys::SQLITE_SCHEMA);
    assert_eq!(SQLITE_TOOBIG, libsqlite3_sys::SQLITE_TOOBIG);
    assert_eq!(SQLITE_CONSTRAINT, libsqlite3_sys::SQLITE_CONSTRAINT);
    assert_eq!(SQLITE_MISMATCH, libsqlite3_sys::SQLITE_MISMATCH);
    assert_eq!(SQLITE_MISUSE, libsqlite3_sys::SQLITE_MISUSE);
    assert_eq!(SQLITE_NOLFS, libsqlite3_sys::SQLITE_NOLFS);
    assert_eq!(SQLITE_AUTH, libsqlite3_sys::SQLITE_AUTH);
    assert_eq!(SQLITE_FORMAT, libsqlite3_sys::SQLITE_FORMAT);
    assert_eq!(SQLITE_RANGE, libsqlite3_sys::SQLITE_RANGE);
    assert_eq!(SQLITE_NOTADB, libsqlite3_sys::SQLITE_NOTADB);
    assert_eq!(SQLITE_ROW, libsqlite3_sys::SQLITE_ROW);
    assert_eq!(SQLITE_DONE, libsqlite3_sys::SQLITE_DONE);
}

#[test]
fn storage_type_codes_are_those_of_the_engine() {
    assert_eq!(SQLITE_INTEGER, libsqlite3_sys::SQLITE_INTEGER);
    assert_eq!(SQLITE_FLOAT, libsqlite3_sys::SQLITE_FLOAT);
    assert_eq!(SQLITE_TEXT, libsqlite3_sys::SQLITE_TEXT);
    assert_eq!(SQLITE_BLOB, libsqlite3_sys::SQLITE_BLOB);
    assert_eq!(SQLITE_NULL, libsqlite3_sys::SQLITE_NULL);
}

#[test]
fn check_accepts_success() {
    assert_eq!(check(0), Ok(()));
    // Only the primary code counts: 256 has the primary code 0.
    assert_eq!(check(256), Ok(()));
}

#[test]
fn check_names_each_primary_code() {
    let table = [
        (1, SqliteError::Unknown),
        (2, SqliteError::Internal),
        (3, SqliteError::Perm),
        (4, SqliteError::Abort),
        (5, SqliteError::Busy),
        (6, SqliteError::Locked),
        (7, SqliteError::NoMem),
        (8, SqliteError::ReadOnly),
        (9, SqliteError::Interrupt),
        (10, SqliteError::IO),
        (11, SqliteError::Corrupt),
        (12, SqliteError::NotFound),
        (13, SqliteError::Full),
        (14, SqliteError::CantOpen),
        (15, SqliteError::Protocol),
        (16, SqliteError::Empty),
        (17, SqliteError::Schema),
        (18, SqliteError::TooBig),
        (19, SqliteError::Constraint),
        (20, SqliteError::Mismatch),
        (21, SqliteError::Misuse),
        (22, SqliteError::NoLFS),
        (23, SqliteError::Auth),
        (24, SqliteError::Format),
        (25, SqliteError::Range),
        (26, SqliteError::NotADB),
        (27, SqliteError::Unknown),
        (100, SqliteError::Unknown),
        (101, SqliteError::Unknown),
        (255, SqliteError::Unknown),
    ];
    for (code, error) in table {
        assert_eq!(check(code), Err(error));
    }
}

#[test]
fn check_reads_extended_codes_by_their_primary_code() {
    // SQLITE_BUSY_SNAPSHOT, SQLITE_IOERR_READ, SQLITE_CONSTRAINT_UNIQUE
    assert_eq!(check(517), Err(SqliteError::Busy));
    assert_eq!(check(266), Err(SqliteError::IO));
    assert_eq!(check(2067), Err(SqliteError::Constraint));
    assert_eq!(check(-1), Err(SqliteError::Unknown));
    assert_eq!(check(-251), Err(SqliteError::Busy));
    assert_eq!(check(i32::MIN), Ok(()));
    assert_eq!(check(i32::MAX), Err(SqliteError::Unknown));
}

#[test]
fn native_errors_keep_contention_and_schema_change() {
    let busy = Error::from(SqliteError::Busy);
    assert!(matches!(busy.kind(), ErrorKind::Busy));
    assert!(busy.kind().is_busy());
    assert_eq!(busy.source(), Some(SqliteError::Busy));
    let schema = Error::from(SqliteError::Schema);
    assert!(matches!(schema.kind(), ErrorKind::SchemaChanged));
    assert_eq!(schema.source(), Some(SqliteError::Schema));
    for e in [SqliteError::Unknown, SqliteError::Locked, SqliteError::Constraint, SqliteError::NotADB] {
        let error = Error::from(e);
        assert!(matches!(error.kind(), ErrorKind::Failure));
        assert!(!error.kind().is_busy());
        assert_eq!(error.source(), Some(e));
    }
}

#[test]
fn error_new_keeps_kind_and_source() {
    let e = Error::new(ErrorKind::InvalidQuery, Some(SqliteError::Unknown));
    assert!(matches!(e.kind(), ErrorKind::InvalidQuery));
    assert_eq!(e.source(), Some(SqliteError::Unknown));
    let e = Error::new(ErrorKind::InvalidString("a\0b".to_string()), None);
    assert!(matches!(e.kind(), ErrorKind::InvalidString(s) if s == "a\0b"));
    assert_eq!(e.source(), None);
}

#[test]
fn err_has_no_source() {
    let e = ErrorKind::Busy.err();
    assert!(matches!(e.kind(), ErrorKind::Busy));
    assert_eq!(e.source(), None);
    let e = ErrorKind::InvalidPath(PathBuf::from("/no/such")).err();
    assert!(matches!(e.kind(), ErrorKind::InvalidPath(p) if p == &PathBuf::from("/no/such")));
}

#[test]
fn only_busy_is_busy() {
    assert!(ErrorKind::Busy.is_busy());
    assert!(!ErrorKind::InvalidString(String::new()).is_busy());
    assert!(!ErrorKind::InvalidPath(PathBuf::new()).is_busy());
    assert!(!ErrorKind::InvalidQuery.is_busy());
    assert!(!ErrorKind::Failure.is_busy());
    assert!(!ErrorKind::SchemaChanged.is_busy());
    assert!(!ErrorKind::ConversionFailed.is_busy());
}

#[test]
fn messages() {
    assert_eq!(ErrorKind::InvalidString("x".to_string()).to_string(), "invalid string");
    assert_eq!(ErrorKind::InvalidPath(PathBuf::from("x")).to_string(), "invalid path");
    assert_eq!(ErrorKind::InvalidQuery.to_string(), "invalid query");
    assert_eq!(ErrorKind::Failure.to_string(), "failure");
    assert_eq!(ErrorKind::Busy.to_string(), "busy");
    assert_eq!(ErrorKind::SchemaChanged.to_string(), "schema changed");
    assert_eq!(ErrorKind::ConversionFailed.to_string(), "conversion failed");
    assert_eq!(ErrorKind::Busy.message(), "busy");
    assert_eq!(Error::from(SqliteError::Schema).to_string(), "schema changed");
    assert_eq!(ErrorKind::Failure.err().to_string(), "failure");
}

#[test]
fn error_kind_clone_keeps_the_payload() {
    let kind = ErrorKind::InvalidPath(PathBuf::from("/tmp/db"));
    assert!(matches!(kind.clone(), ErrorKind::InvalidPath(p) if p == PathBuf::from("/tmp/db")));
}

#[test]
fn steps_are_read_by_code() {
    assert!(matches!(classify_step(SQLITE_ROW), Step::Row));
    assert!(matches!(classify_step(SQLITE_DONE), Step::Done));
    assert!(matches!(classify_step(SQLITE_BUSY), Step::Busy));
    assert!(matches!(classify_step(517), Step::Busy));
    match classify_step(SQLITE_SCHEMA) {
        Step::Failed(e) => {
            assert!(matches!(e.kind(), ErrorKind::SchemaChanged));
            assert_eq!(e.source(), Some(SqliteError::Schema));
        }
        _ => panic!("a schema change is a failure"),
    }
    match classify_step(SQLITE_CONSTRAINT) {
        Step::Failed(e) => {
            assert!(matches!(e.kind(), ErrorKind::Failure));
            assert_eq!(e.source(), Some(SqliteError::Constraint));
        }
        _ => panic!("a constraint violation is a failure"),
    }
    match classify_step(SQLITE_OK) {
        Step::Failed(e) => {
            assert!(matches!(e.kind(), ErrorKind::Failure));
            assert_eq!(e.source(), None);
        }
        _ => panic!("a step never reports plain success"),
    }
}

#[test]
fn compile_outcomes() {
    assert!(matches!(Connection::prepared(SQLITE_OK, Some(7)), Ok(Some(7))));
    assert!(matches!(Connection::prepared::<i32>(SQLITE_OK, None), Ok(None)));
    match Connection::prepared(SQLITE_ERROR, Some(7)) {
        Err(e) => {
            assert!(matches!(e.kind(), ErrorKind::InvalidQuery));
            assert_eq!(e.source(), Some(SqliteError::Unknown));
        }
        Ok(_) => panic!("a text that does not compile is an error"),
    }
    match Connection::prepared::<i32>(SQLITE_BUSY, None) {
        Err(e) => assert!(e.kind().is_busy()),
        Ok(_) => panic!("busy is an error"),
    }
    match Connection::prepared::<i32>(SQLITE_NOMEM, None) {
        Err(e) => {
            assert!(matches!(e.kind(), ErrorKind::Failure));
            assert_eq!(e.source(), Some(SqliteError::NoMem));
        }
        Ok(_) => panic!("out of memory is an error"),
    }
    // 27 has no name of its own and is not the generic error.
    match Connection::prepared::<i32>(27, None) {
        Err(e) => assert!(matches!(e.kind(), ErrorKind::Failure)),
        Ok(_) => panic!("an unknown code is an error"),
    }
}

#[test]
fn parameter_slots_count_from_one() {
    assert_eq!(parameter_slot(0), 1);
    assert_eq!(parameter_slot(1), 2);
    assert_eq!(parameter_slot(32765), 32766);
    assert_eq!(parameter_slot(i32::MAX as usize - 1), i32::MAX);
}

#[test]
fn status_reads_a_result_code() {
    assert!(sql_connect::sqlite::status(SQLITE_OK).is_ok());
    match sql_connect::sqlite::status(SQLITE_CANTOPEN) {
        Err(e) => {
            assert!(matches!(e.kind(), ErrorKind::Failure));
            assert_eq!(e.source(), Some(SqliteError::CantOpen));
        }
        Ok(()) => panic!("a database that cannot be opened is an error"),
    }
    match sql_connect::sqlite::status(SQLITE_BUSY) {
        Err(e) => assert!(e.kind().is_busy()),
        Ok(()) => panic!("busy is an error"),
    }
    match sql_connect::sqlite::status(SQLITE_ERROR) {
        Err(e) => assert!(matches!(e.kind(), ErrorKind::Failure)),
        Ok(()) => panic!("the generic error is an error"),
    }
}

#[test]
fn native_errors_have_names() {
    assert_eq!(SqliteError::Unknown.to_string(), "Unknown");
    assert_eq!(SqliteError::NoMem.to_string(), "NoMem");
    assert_eq!(SqliteError::IO.name(), "IO");
    assert_eq!(SqliteError::NotADB.name(), "NotADB");
    for e in [SqliteError::Busy, SqliteError::CantOpen, SqliteError::NoLFS, SqliteError::Schema] {
        assert_eq!(e.to_string(), format!("{:?}", e));
    }
}
