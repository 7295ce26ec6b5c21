//! Transactions and savepoints: which statements open and resolve a scope,
//! how anonymous savepoints are named, and the rule that a scope is
//! resolved once.
//!
//! A scope that is neither committed nor rolled back by its owner is rolled
//! back when it ends.

use crate::error::{Error, ErrorKind, Result};
use vstd::prelude::*;
use vstd::string::StringExecFns;

verus! {

broadcast use vstd::function::group_function_axioms;

/// The decimal digit of a number below ten.
pub open spec fn digit(d: nat) -> char {
    if d == 0 {
        '0'
    } else if d == 1 {
        '1'
    } else if d == 2 {
        '2'
    } else if d == 3 {
        '3'
    } else if d == 4 {
        '4'
    } else if d == 5 {
        '5'
    } else if d == 6 {
        '6'
    } else if d == 7 {
        '7'
    } else if d == 8 {
        '8'
    } else {
        '9'
    }
}

/// The decimal notation of a number, without leading zeros.
pub open spec fn decimal(n: nat) -> Seq<char>
    decreases n,
{
    if n < 10 {
        seq![digit(n)]
    } else {
        decimal(n / 10).push(digit(n % 10))
    }
}

/// The number that a decimal digit stands for; ten for any other character.
pub open spec fn digit_value(c: char) -> nat {
    if c == '0' {
        0
    } else if c == '1' {
        1
    } else if c == '2' {
        2
    } else if c == '3' {
        3
    } else if c == '4' {
        4
    } else if c == '5' {
        5
    } else if c == '6' {
        6
    } else if c == '7' {
        7
    } else if c == '8' {
        8
    } else if c == '9' {
        9
    } else {
        10
    }
}

/// The number that a sequence of decimal digits denotes.
pub open spec fn decimal_value(s: Seq<char>) -> nat
    decreases s.len(),
{
    if s.len() == 0 {
        0
    } else {
        decimal_value(s.drop_last()) * 10 + digit_value(s.last())
    }
}

/// Reading the decimal notation of a number gives the number back.
pub proof fn lemma_decimal_value(n: nat)
    ensures
        decimal_value(decimal(n)) == n,
        decimal(n).len() > 0,
    decreases n,
{
    if n < 10 {
        let s = decimal(n);
        assert(s.drop_last() =~= Seq::empty());
        assert(decimal_value(s.drop_last()) == 0);
    } else {
        lemma_decimal_value(n / 10);
        let s = decimal(n);
        assert(s.drop_last() =~= decimal(n / 10));
        assert(s.last() == digit(n % 10));
    }
}

/// The text prefix of every anonymous savepoint name.
pub open spec fn anonymous_prefix() -> Seq<char> {
    seq!['a', 'n', 'o', 'n']
}

/// The name of the anonymous savepoint with the given number.
pub open spec fn anonymous_name(number: nat) -> Seq<char> {
    anonymous_prefix() + decimal(number)
}

/// The number inside an anonymous savepoint name.
pub open spec fn anonymous_number(name: Seq<char>) -> nat {
    decimal_value(name.skip(4))
}

/// An anonymous name carries its number.
pub proof fn lemma_anonymous_number(number: nat)
    ensures
        anonymous_number(anonymous_name(number)) == number,
{
    lemma_decimal_value(number);
    assert(anonymous_name(number).skip(4) =~= decimal(number));
}

/// Savepoint naming: anonymous savepoints with different numbers have
/// different names, and the name minted later carries the greater number.
pub proof fn lemma_anonymous_names(first: nat, second: nat)
    requires
        first < second,
    ensures
        anonymous_name(first) != anonymous_name(second),
        anonymous_number(anonymous_name(first)) < anonymous_number(anonymous_name(second)),
{
    lemma_anonymous_number(first);
    lemma_anonymous_number(second);
}

/// The text of one decimal digit.
fn digit_text(d: usize) -> (text: &'static str)
    requires
        d < 10,
    ensures
        text@ == seq![digit(d as nat)],
{
    proof {
        reveal_strlit("0");
        reveal_strlit("1");
        reveal_strlit("2");
        reveal_strlit("3");
        reveal_strlit("4");
        reveal_strlit("5");
        reveal_strlit("6");
        reveal_strlit("7");
        reveal_strlit("8");
        reveal_strlit("9");
    }
    let text = if d == 0 {
        "0"
    } else if d == 1 {
        "1"
    } else if d == 2 {
        "2"
    } else if d == 3 {
        "3"
    } else if d == 4 {
        "4"
    } else if d == 5 {
        "5"
    } else if d == 6 {
        "6"
    } else if d == 7 {
        "7"
    } else if d == 8 {
        "8"
    } else {
        "9"
    };
    assert(text@ =~= seq![digit(d as nat)]);
    text
}

/// Appends the decimal notation of `n` to `text`.
fn append_decimal(text: &mut String, n: usize)
    ensures
        final(text)@ == old(text)@ + decimal(n as nat),
    decreases n,
{
    if n < 10 {
        text.append(digit_text(n));
    } else {
        append_decimal(text, n / 10);
        text.append(digit_text(n % 10));
        assert(final(text)@ =~= old(text)@ + decimal(n as nat));
    }
}

/// The name of the anonymous savepoint with the given number.
pub fn anonymous_savepoint_name(number: usize) -> (name: String)
    ensures
        name@ == anonymous_name(number as nat),
{
    proof {
        reveal_strlit("anon");
    }
    let mut name = String::from_str("anon");
    assert(name@ =~= anonymous_prefix());
    append_decimal(&mut name, number);
    name
}

/// A transaction or savepoint, as contracts see it.
pub struct TransactionView<S> {
    /// Whether the scope has been resolved.
    pub done: bool,
    /// The statement that resolves the scope as a success, while it is owed.
    pub end: Option<S>,
    /// The statement that resolves the scope as a failure, while it is owed.
    pub rollback: Option<S>,
}

/// A scope that is open on a connection, with the two compiled statements
/// that can resolve it. It is resolved once: by `commit`, by `rollback`, or
/// by `finish` when the scope ends unresolved.
pub struct Transaction<S> {
    done: bool,
    end: Option<S>,
    rollback: Option<S>,
}

impl<S> View for Transaction<S> {
    type V = TransactionView<S>;

    closed spec fn view(&self) -> TransactionView<S> {
        TransactionView { done: self.done, end: self.end, rollback: self.rollback }
    }
}

/// The scope once it is resolved: nothing is owed any more.
pub open spec fn resolved<S>() -> TransactionView<S> {
    TransactionView { done: true, end: None, rollback: None }
}

/// Committing: the first resolution executes the committing statement; a
/// resolved scope stays as it is and nothing is executed.
pub open spec fn commit_spec<S>(v: TransactionView<S>) -> (TransactionView<S>, Option<S>) {
    if v.done {
        (v, None)
    } else {
        (resolved(), v.end)
    }
}

/// Rolling back: the first resolution executes the undoing statement; a
/// resolved scope stays as it is and nothing is executed.
pub open spec fn rollback_spec<S>(v: TransactionView<S>) -> (TransactionView<S>, Option<S>) {
    if v.done {
        (v, None)
    } else {
        (resolved(), v.rollback)
    }
}

impl<S> Transaction<S> {
    /// An open scope that `end` commits and `rollback` undoes.
    pub fn new(end: S, rollback: S) -> (transaction: Transaction<S>)
        ensures
            transaction@ == (TransactionView {
                done: false,
                end: Some(end),
                rollback: Some(rollback),
            }),
    {
        Transaction { done: false, end: Some(end), rollback: Some(rollback) }
    }

    /// Whether the scope has been resolved.
    pub fn is_done(&self) -> (done: bool)
        ensures
            done == self@.done,
    {
        self.done
    }

    /// Resolves the scope as a success. Returns the statement to execute
    /// now, if there is one.
    pub fn commit(&mut self) -> (statement: Option<S>)
        ensures
            (final(self)@, statement) == commit_spec(old(self)@),
    {
        if self.done {
            None
        } else {
            self.done = true;
            self.rollback = None;
            self.end.take()
        }
    }

    /// Resolves the scope as a failure. Returns the statement to execute
    /// now, if there is one.
    pub fn rollback(&mut self) -> (statement: Option<S>)
        ensures
            (final(self)@, statement) == rollback_spec(old(self)@),
    {
        if self.done {
            None
        } else {
            self.done = true;
            self.end = None;
            self.rollback.take()
        }
    }

    /// Resolves the scope at its end: a scope that nobody resolved is rolled
    /// back.
    pub fn finish(&mut self) -> (statement: Option<S>)
        ensures
            (final(self)@, statement) == rollback_spec(old(self)@),
    {
        self.rollback()
    }

    /// Hands the duty to resolve over to a new scope: the new scope owes
    /// what this one owed, and this one owes nothing any more, so that the
    /// engine is told once.
    pub fn transfer(&mut self) -> (heir: Transaction<S>)
        ensures
            heir@ == (TransactionView { done: false, ..old(self)@ }),
            final(self)@ == (TransactionView { end: None, rollback: None, ..old(self)@ }),
    {
        Transaction { done: false, end: self.end.take(), rollback: self.rollback.take() }
    }
}

/// Idempotent resolution: once a scope has been committed or rolled back,
/// every further commit or rollback executes nothing and changes nothing.
/// The flag that marks the scope as resolved is set by the first resolution
/// and never cleared.
pub proof fn lemma_resolved_once<S>(v: TransactionView<S>)
    ensures
        commit_spec(v).0.done,
        rollback_spec(v).0.done,
        commit_spec(commit_spec(v).0) == (commit_spec(v).0, None::<S>),
        rollback_spec(commit_spec(v).0) == (commit_spec(v).0, None::<S>),
        commit_spec(rollback_spec(v).0) == (rollback_spec(v).0, None::<S>),
        rollback_spec(rollback_spec(v).0) == (rollback_spec(v).0, None::<S>),
{
}

/// A scope whose opening statement is compiled and not yet executed. Once
/// `begin` has been executed the scope is open and `transaction` holds it.
pub struct Opening<S> {
    pub begin: S,
    pub transaction: Transaction<S>,
}

/// The error for a text that compiles to no statement where one is needed.
pub open spec fn no_statement() -> Error {
    Error { kind: ErrorKind::InvalidQuery, source: None }
}

/// Whether asking for the statement of `text` can come to `r`: the
/// statement it compiles to, the error of the engine, or the error for a
/// text that holds no statement.
pub open spec fn required<S, F: FnMut(&str) -> Result<Option<S>>>(
    prepare: F,
    text: &str,
    r: Result<S>,
) -> bool {
    match r {
        Ok(statement) => call_ensures(prepare, (text,), Ok(Some(statement))),
        Err(e) => call_ensures(prepare, (text,), Err(e)) || (call_ensures(
            prepare,
            (text,),
            Ok(None),
        ) && e == no_statement()),
    }
}

/// Whether compiling the three texts of a scope, in the order opening,
/// committing, undoing, and stopping at the first failure, can come to `r`.
pub open spec fn scope_of<S, F: FnMut(&str) -> Result<Option<S>>>(
    prepare: F,
    begin: &str,
    end: &str,
    rollback: &str,
    r: Result<Opening<S>>,
) -> bool {
    match r {
        Ok(opening) => {
            &&& required(prepare, begin, Ok(opening.begin))
            &&& !opening.transaction@.done
            &&& opening.transaction@.end matches Some(statement) && required(
                prepare,
                end,
                Ok(statement),
            )
            &&& opening.transaction@.rollback matches Some(statement) && required(
                prepare,
                rollback,
                Ok(statement),
            )
        },
        Err(e) => {
            ||| required(prepare, begin, Err::<S, _>(e))
            ||| exists|first: S|
                required(prepare, begin, Ok(first)) && required(prepare, end, Err::<S, _>(e))
            ||| exists|first: S, second: S|
                required(prepare, begin, Ok(first)) && required(prepare, end, Ok(second))
                    && required(prepare, rollback, Err::<S, _>(e))
        },
    }
}

/// Compiles the three statements of a scope, in the order opening,
/// committing, undoing, and stops at the first that fails. A text that
/// compiles to nothing fails as an invalid query.
pub fn prepare_scope<S, F: FnMut(&str) -> Result<Option<S>>>(
    mut prepare: F,
    begin: &str,
    end: &str,
    rollback: &str,
) -> (r: Result<Opening<S>>)
    requires
        forall|text: &str| call_requires(prepare, (text,)),
    ensures
        scope_of(prepare, begin, end, rollback, r),
{
    let begin_statement = match prepare(begin) {
        Err(e) => {
            return Err(e);
        },
        Ok(None) => {
            return Err(ErrorKind::InvalidQuery.err());
        },
        Ok(Some(statement)) => statement,
    };
    assert(required(prepare, begin, Ok::<S, Error>(begin_statement)));
    let end_statement = match prepare(end) {
        Err(e) => {
            assert(required(prepare, end, Err::<S, _>(e)));
            return Err(e);
        },
        Ok(None) => {
            let e = ErrorKind::InvalidQuery.err();
            assert(required(prepare, end, Err::<S, _>(e)));
            return Err(e);
        },
        Ok(Some(statement)) => statement,
    };
    assert(required(prepare, end, Ok::<S, Error>(end_statement)));
    let rollback_statement = match prepare(rollback) {
        Err(e) => {
            assert(required(prepare, rollback, Err::<S, _>(e)));
            return Err(e);
        },
        Ok(None) => {
            let e = ErrorKind::InvalidQuery.err();
            assert(required(prepare, rollback, Err::<S, _>(e)));
            return Err(e);
        },
        Ok(Some(statement)) => statement,
    };
    Ok(
        Opening {
            begin: begin_statement,
            transaction: Transaction::new(end_statement, rollback_statement),
        },
    )
}

/// Compiles the statements of a new toplevel transaction: `BEGIN` opens
/// it, `COMMIT` and `ROLLBACK` resolve it. The caller executes `begin` to
/// open the transaction.
pub fn begin<S, F: FnMut(&str) -> Result<Option<S>>>(prepare: F) -> (r: Result<Opening<S>>)
    requires
        forall|text: &str| call_requires(prepare, (text,)),
    ensures
        scope_of(prepare, "BEGIN", "COMMIT", "ROLLBACK", r),
{
    prepare_scope(prepare, "BEGIN", "COMMIT", "ROLLBACK")
}

/// The texts of the savepoint of a given name: opening, releasing, undoing.
pub open spec fn savepoint_texts(name: Seq<char>) -> (Seq<char>, Seq<char>, Seq<char>) {
    ("SAVEPOINT "@ + name, "RELEASE "@ + name, "ROLLBACK TO "@ + name)
}

/// The three texts of the savepoint of a given name.
pub fn savepoint_sql(name: &str) -> (texts: (String, String, String))
    ensures
        (texts.0@, texts.1@, texts.2@) == savepoint_texts(name@),
{
    let mut begin = String::from_str("SAVEPOINT ");
    begin.append(name);
    let mut end = String::from_str("RELEASE ");
    end.append(name);
    let mut rollback = String::from_str("ROLLBACK TO ");
    rollback.append(name);
    (begin, end, rollback)
}

/// Compiles the statements of a new savepoint of the given name. The
/// caller executes `begin` to open the savepoint.
pub fn savepoint<S, F: FnMut(&str) -> Result<Option<S>>>(name: &str, prepare: F) -> (r: Result<
    Opening<S>,
>)
    requires
        forall|text: &str| call_requires(prepare, (text,)),
    ensures
        exists|begin: &str, end: &str, rollback: &str|
            (begin@, end@, rollback@) == savepoint_texts(name@) && scope_of(
                prepare,
                begin,
                end,
                rollback,
                r,
            ),
{
    let texts = savepoint_sql(name);
    prepare_scope(prepare, texts.0.as_str(), texts.1.as_str(), texts.2.as_str())
}

} // verus!
