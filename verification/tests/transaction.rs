use sql_connect::sqlite;
use sql_connect::transaction::{
    anonymous_savepoint_name, begin, prepare_scope, savepoint, savepoint_sql,
};
use sql_connect::{prepare_list, Error, ErrorKind, Opening, SqliteError, Transaction};

/// An engine stand-in: it records the texts it is asked to compile, refuses
/// the texts listed in `broken`, compiles blank text to nothing, and keeps a
/// table of one column with the usual meaning of BEGIN, COMMIT and ROLLBACK.
struct Model {
    prepared: Vec<String>,
    broken: Vec<String>,
    names: sqlite::Connection,
    rows: Vec<String>,
    saved: Option<Vec<String>>,
}

impl Model {
    fn new() -> Model {
        Model {
            prepared: Vec::new(),
            broken: Vec::new(),
            names: sqlite::Connection::new(),
            rows: Vec::new(),
            saved: None,
        }
    }

    fn execute(&mut self, statement: &str) -> usize {
        if statement == "BEGIN" {
            self.saved = Some(self.rows.clone());
        } else if statement == "COMMIT" {
            self.saved = None;
        } else if statement == "ROLLBACK" {
            if let Some(saved) = self.saved.take() {
                self.rows = saved;
            }
        } else if let Some(rest) = statement.strip_prefix("INSERT ") {
            self.rows.push(rest.to_string());
        }
        self.rows.len()
    }
}

impl Model {
    fn prepare(&mut self, sql: &str) -> Result<Option<String>, Error> {
        self.prepared.push(sql.to_string());
        if self.broken.iter().any(|b| b == sql) {
            Err(Error::new(ErrorKind::InvalidQuery, Some(SqliteError::Unknown)))
        } else if sql.trim().is_empty() {
            Ok(None)
        } else {
            Ok(Some(sql.to_string()))
        }
    }
}

impl Model {
    fn begin(&mut self) -> Result<Opening<String>, Error> {
        begin(|text| self.prepare(text))
    }

    fn savepoint(&mut self, name: Option<String>) -> Result<Opening<String>, Error> {
        let name = match name {
            Some(name) => name,
            None => self.names.anonymous_savepoint_name(),
        };
        savepoint(&name, |text| self.prepare(text))
    }

    fn prepare_list(&mut self, sql: &str) -> Result<Vec<String>, Error> {
        prepare_list(sql, |part| self.prepare(part))
    }
}

#[test]
fn rollback_undoes_and_commit_keeps() {
    let mut ctx = Model::new();
    assert_eq!(ctx.execute("INSERT bar"), 1);

    let Opening { begin, mut transaction } = ctx.begin().ok().expect("the statements compile");
    ctx.execute(&begin);
    assert_eq!(ctx.execute("INSERT biz"), 2);
    let rollback = transaction.rollback().expect("the first resolution executes");
    assert_eq!(rollback, "ROLLBACK");
    assert_eq!(ctx.execute(&rollback), 1);
    assert_eq!(ctx.rows, vec!["bar"]);

    let Opening { begin, mut transaction } = ctx.begin().ok().expect("the statements compile");
    ctx.execute(&begin);
    assert_eq!(ctx.execute("INSERT biz"), 2);
    let commit = transaction.commit().expect("the first resolution executes");
    assert_eq!(commit, "COMMIT");
    assert_eq!(ctx.execute(&commit), 2);
    assert_eq!(ctx.rows, vec!["bar", "biz"]);
    assert!(transaction.finish().is_none());
}

#[test]
fn commit_twice_resolves_once() {
    let mut transaction = Transaction::new("COMMIT", "ROLLBACK");
    assert!(!transaction.is_done());
    assert_eq!(transaction.commit(), Some("COMMIT"));
    assert!(transaction.is_done());
    assert_eq!(transaction.commit(), None);
    assert_eq!(transaction.commit(), None);
    assert!(transaction.is_done());
}

#[test]
fn rollback_twice_resolves_once() {
    let mut transaction = Transaction::new("COMMIT", "ROLLBACK");
    assert_eq!(transaction.rollback(), Some("ROLLBACK"));
    assert_eq!(transaction.rollback(), None);
    assert!(transaction.is_done());
}

#[test]
fn resolved_scope_stays_resolved() {
    let mut transaction = Transaction::new("COMMIT", "ROLLBACK");
    assert_eq!(transaction.commit(), Some("COMMIT"));
    assert_eq!(transaction.rollback(), None);
    assert_eq!(transaction.finish(), None);
    let mut transaction = Transaction::new("COMMIT", "ROLLBACK");
    assert_eq!(transaction.rollback(), Some("ROLLBACK"));
    assert_eq!(transaction.commit(), None);
    assert_eq!(transaction.finish(), None);
}

#[test]
fn unresolved_scope_is_rolled_back_at_its_end() {
    let mut transaction = Transaction::new("COMMIT", "ROLLBACK");
    assert_eq!(transaction.finish(), Some("ROLLBACK"));
    assert!(transaction.is_done());
    assert_eq!(transaction.finish(), None);
    assert_eq!(transaction.commit(), None);
}

#[test]
fn transfer_hands_the_statements_over() {
    let mut inner = Transaction::new("RELEASE s", "ROLLBACK TO s");
    let mut heir = inner.transfer();
    assert!(!inner.is_done());
    // The scope that gave its statements away tells the engine nothing.
    assert_eq!(inner.finish(), None);
    assert!(!heir.is_done());
    assert_eq!(heir.commit(), Some("RELEASE s"));
    assert_eq!(heir.rollback(), None);

    let mut resolved = Transaction::new("COMMIT", "ROLLBACK");
    assert_eq!(resolved.commit(), Some("COMMIT"));
    let mut heir = resolved.transfer();
    assert!(!heir.is_done());
    assert_eq!(heir.commit(), None);
    assert!(heir.is_done());
}

#[test]
fn begin_compiles_three_statements_in_order() {
    let mut ctx = Model::new();
    let opening = ctx.begin().ok().expect("the statements compile");
    assert_eq!(ctx.prepared, vec!["BEGIN", "COMMIT", "ROLLBACK"]);
    assert_eq!(opening.begin, "BEGIN");
    let mut transaction = opening.transaction;
    assert!(!transaction.is_done());
    assert_eq!(transaction.commit(), Some("COMMIT".to_string()));
}

#[test]
fn begin_stops_at_the_first_failure() {
    let mut ctx = Model::new();
    ctx.broken.push("COMMIT".to_string());
    match ctx.begin() {
        Err(e) => assert!(matches!(e.kind(), ErrorKind::InvalidQuery)),
        Ok(_) => panic!("the second statement does not compile"),
    }
    assert_eq!(ctx.prepared, vec!["BEGIN", "COMMIT"]);
}

#[test]
fn scope_needs_three_statements() {
    let mut ctx = Model::new();
    match prepare_scope(|text| ctx.prepare(text), "BEGIN", "  ", "ROLLBACK") {
        Err(e) => {
            assert!(matches!(e.kind(), ErrorKind::InvalidQuery));
            assert_eq!(e.source(), None);
        }
        Ok(_) => panic!("blank text compiles to no statement"),
    }
    assert_eq!(ctx.prepared, vec!["BEGIN", "  "]);
}

#[test]
fn named_savepoint_uses_the_name_given() {
    let mut ctx = Model::new();
    let opening = ctx.savepoint(Some("mark".to_string())).ok().expect("the statements compile");
    assert_eq!(ctx.prepared, vec!["SAVEPOINT mark", "RELEASE mark", "ROLLBACK TO mark"]);
    assert_eq!(opening.begin, "SAVEPOINT mark");
    let mut transaction = opening.transaction;
    assert_eq!(transaction.rollback(), Some("ROLLBACK TO mark".to_string()));
    // No anonymous name was used up.
    assert_eq!(ctx.names.anonymous_savepoint_name(), "anon0");
}

#[test]
fn anonymous_savepoints_get_distinct_increasing_names() {
    let mut ctx = Model::new();
    let first = ctx.savepoint(None).ok().expect("the statements compile");
    let second = ctx.savepoint(None).ok().expect("the statements compile");
    assert_eq!(first.begin, "SAVEPOINT anon0");
    assert_eq!(second.begin, "SAVEPOINT anon1");
    assert_ne!(first.begin, second.begin);
    assert_eq!(
        ctx.prepared,
        vec![
            "SAVEPOINT anon0",
            "RELEASE anon0",
            "ROLLBACK TO anon0",
            "SAVEPOINT anon1",
            "RELEASE anon1",
            "ROLLBACK TO anon1",
        ]
    );
    let mut first = first.transaction;
    assert_eq!(first.commit(), Some("RELEASE anon0".to_string()));
}

#[test]
fn anonymous_names_count_up() {
    let mut connection = sqlite::Connection::new();
    let mut last: Option<u64> = None;
    for expected in 0..25u64 {
        let name = connection.anonymous_savepoint_name();
        assert_eq!(name, format!("anon{}", expected));
        let number: u64 = name["anon".len()..].parse().unwrap();
        if let Some(previous) = last {
            assert!(number > previous);
        }
        last = Some(number);
    }
}

#[test]
fn anonymous_name_of_a_number() {
    assert_eq!(anonymous_savepoint_name(0), "anon0");
    assert_eq!(anonymous_savepoint_name(9), "anon9");
    assert_eq!(anonymous_savepoint_name(10), "anon10");
    assert_eq!(anonymous_savepoint_name(1203), "anon1203");
    assert_eq!(anonymous_savepoint_name(usize::MAX), format!("anon{}", usize::MAX));
}

#[test]
fn savepoint_texts() {
    let (begin, end, rollback) = savepoint_sql("sp");
    assert_eq!(begin, "SAVEPOINT sp");
    assert_eq!(end, "RELEASE sp");
    assert_eq!(rollback, "ROLLBACK TO sp");
}

#[test]
fn prepare_list_compiles_in_source_order() {
    let mut ctx = Model::new();
    let statements = ctx.prepare_list("A; B 'x;y';;  ;C (1;2)").ok().expect("all compile");
    // The empty segment is never handed to the engine; the blank one is,
    // and compiles to nothing.
    assert_eq!(ctx.prepared, vec!["A", " B 'x;y'", "  ", "C (1;2)"]);
    assert_eq!(statements, vec!["A", " B 'x;y'", "C (1;2)"]);
}

#[test]
fn prepare_list_stops_at_the_first_failure() {
    let mut ctx = Model::new();
    ctx.broken.push(" B".to_string());
    match ctx.prepare_list("A; B; C") {
        Err(e) => assert!(matches!(e.kind(), ErrorKind::InvalidQuery)),
        Ok(_) => panic!("the second statement does not compile"),
    }
    assert_eq!(ctx.prepared, vec!["A", " B"]);
}

#[test]
fn prepare_list_of_nothing() {
    let mut ctx = Model::new();
    assert_eq!(ctx.prepare_list("").ok(), Some(Vec::new()));
    assert_eq!(ctx.prepare_list(";;").ok(), Some(Vec::new()));
    assert!(ctx.prepared.is_empty());
}

#[test]
fn savepoint_stops_at_the_first_failure() {
    let mut ctx = Model::new();
    ctx.broken.push("SAVEPOINT bad name".to_string());
    assert!(ctx.savepoint(Some("bad name".to_string())).is_err());
    assert_eq!(ctx.prepared, vec!["SAVEPOINT bad name"]);
    let mut ctx = Model::new();
    ctx.broken.push("ROLLBACK TO s".to_string());
    assert!(ctx.savepoint(Some("s".to_string())).is_err());
    assert_eq!(ctx.prepared, vec!["SAVEPOINT s", "RELEASE s", "ROLLBACK TO s"]);
}

#[test]
fn fresh_connection_has_minted_no_name() {
    let mut connection = sqlite::Connection::new();
    assert_eq!(connection.savepoint_count(), 0);
    let first = connection.anonymous_savepoint_name();
    let second = connection.anonymous_savepoint_name();
    assert_ne!(first, second);
    assert_eq!(connection.savepoint_count(), 2);
}
