//! The decisions taken around the calls into the SQLite engine: how its
//! result codes are read, what a step of a statement leads to, and how a
//! stream of rows moves from one state to the next.
//!
//! Nothing here touches the engine. The caller makes each native call and
//! reports what came back; these functions say what follows from it.

use crate::backoff::{busy_error, wait_for, BackoffState, Schedule, Wait};
use crate::error::{kind_of, Error, ErrorKind, Result, SqliteError};
use crate::transaction::anonymous_name;
use crate::value::Value;
use std::time::Duration;
use vstd::prelude::*;

verus! {

broadcast use vstd::function::group_function_axioms;

pub const SQLITE_OK: i32 = 0;

pub const SQLITE_ERROR: i32 = 1;

pub const SQLITE_INTERNAL: i32 = 2;

pub const SQLITE_PERM: i32 = 3;

pub const SQLITE_ABORT: i32 = 4;

pub const SQLITE_BUSY: i32 = 5;

pub const SQLITE_LOCKED: i32 = 6;

pub const SQLITE_NOMEM: i32 = 7;

pub const SQLITE_READONLY: i32 = 8;

pub const SQLITE_INTERRUPT: i32 = 9;

pub const SQLITE_IOERR: i32 = 10;

pub const SQLITE_CORRUPT: i32 = 11;

pub const SQLITE_NOTFOUND: i32 = 12;

pub const SQLITE_FULL: i32 = 13;

pub const SQLITE_CANTOPEN: i32 = 14;

pub const SQLITE_PROTOCOL: i32 = 15;

pub const SQLITE_EMPTY: i32 = 16;

pub const SQLITE_SCHEMA: i32 = 17;

pub const SQLITE_TOOBIG: i32 = 18;

pub const SQLITE_CONSTRAINT: i32 = 19;

pub const SQLITE_MISMATCH: i32 = 20;

pub const SQLITE_MISUSE: i32 = 21;

pub const SQLITE_NOLFS: i32 = 22;

pub const SQLITE_AUTH: i32 = 23;

pub const SQLITE_FORMAT: i32 = 24;

pub const SQLITE_RANGE: i32 = 25;

pub const SQLITE_NOTADB: i32 = 26;

pub const SQLITE_ROW: i32 = 100;

pub const SQLITE_DONE: i32 = 101;

pub const SQLITE_INTEGER: i32 = 1;

pub const SQLITE_FLOAT: i32 = 2;

pub const SQLITE_TEXT: i32 = 3;

pub const SQLITE_BLOB: i32 = 4;

pub const SQLITE_NULL: i32 = 5;

/// The primary result code: the low eight bits of a result code. The bits
/// above them refine it and are not looked at.
pub open spec fn primary_code(code: i32) -> i32 {
    code & 0xff
}

/// The error that a primary result code stands for; `None` for success.
pub open spec fn classify(primary: i32) -> Option<SqliteError> {
    if primary == SQLITE_OK {
        None
    } else if primary == SQLITE_INTERNAL {
        Some(SqliteError::Internal)
    } else if primary == SQLITE_PERM {
        Some(SqliteError::Perm)
    } else if primary == SQLITE_ABORT {
        Some(SqliteError::Abort)
    } else if primary == SQLITE_BUSY {
        Some(SqliteError::Busy)
    } else if primary == SQLITE_LOCKED {
        Some(SqliteError::Locked)
    } else if primary == SQLITE_NOMEM {
        Some(SqliteError::NoMem)
    } else if primary == SQLITE_READONLY {
        Some(SqliteError::ReadOnly)
    } else if primary == SQLITE_INTERRUPT {
        Some(SqliteError::Interrupt)
    } else if primary == SQLITE_IOERR {
        Some(SqliteError::IO)
    } else if primary == SQLITE_CORRUPT {
        Some(SqliteError::Corrupt)
    } else if primary == SQLITE_NOTFOUND {
        Some(SqliteError::NotFound)
    } else if primary == SQLITE_FULL {
        Some(SqliteError::Full)
    } else if primary == SQLITE_CANTOPEN {
        Some(SqliteError::CantOpen)
    } else if primary == SQLITE_PROTOCOL {
        Some(SqliteError::Protocol)
    } else if primary == SQLITE_EMPTY {
        Some(SqliteError::Empty)
    } else if primary == SQLITE_SCHEMA {
        Some(SqliteError::Schema)
    } else if primary == SQLITE_TOOBIG {
        Some(SqliteError::TooBig)
    } else if primary == SQLITE_CONSTRAINT {
        Some(SqliteError::Constraint)
    } else if primary == SQLITE_MISMATCH {
        Some(SqliteError::Mismatch)
    } else if primary == SQLITE_MISUSE {
        Some(SqliteError::Misuse)
    } else if primary == SQLITE_NOLFS {
        Some(SqliteError::NoLFS)
    } else if primary == SQLITE_AUTH {
        Some(SqliteError::Auth)
    } else if primary == SQLITE_FORMAT {
        Some(SqliteError::Format)
    } else if primary == SQLITE_RANGE {
        Some(SqliteError::Range)
    } else if primary == SQLITE_NOTADB {
        Some(SqliteError::NotADB)
    } else {
        Some(SqliteError::Unknown)
    }
}

/// The primary code is the result code modulo 256.
pub proof fn lemma_primary_code(code: i32)
    ensures
        0 <= primary_code(code) < 256,
        primary_code(code) == code % 256,
{
    assert(0 <= code & 0xff < 256) by (bit_vector);
    assert(code & 0xff == code % 256) by (bit_vector);
}

/// Reads a result code of the engine: success, or the error that its
/// primary code stands for.
pub fn check(code: i32) -> (r: std::result::Result<(), SqliteError>)
    ensures
        r == match classify(primary_code(code)) {
            None => Ok::<(), SqliteError>(()),
            Some(e) => Err(e),
        },
{
    let primary: i32 = code & 0xff;
    if primary == SQLITE_OK {
        Ok(())
    } else if primary == SQLITE_INTERNAL {
        Err(SqliteError::Internal)
    } else if primary == SQLITE_PERM {
        Err(SqliteError::Perm)
    } else if primary == SQLITE_ABORT {
        Err(SqliteError::Abort)
    } else if primary == SQLITE_BUSY {
        Err(SqliteError::Busy)
    } else if primary == SQLITE_LOCKED {
        Err(SqliteError::Locked)
    } else if primary == SQLITE_NOMEM {
        Err(SqliteError::NoMem)
    } else if primary == SQLITE_READONLY {
        Err(SqliteError::ReadOnly)
    } else if primary == SQLITE_INTERRUPT {
        Err(SqliteError::Interrupt)
    } else if primary == SQLITE_IOERR {
        Err(SqliteError::IO)
    } else if primary == SQLITE_CORRUPT {
        Err(SqliteError::Corrupt)
    } else if primary == SQLITE_NOTFOUND {
        Err(SqliteError::NotFound)
    } else if primary == SQLITE_FULL {
        Err(SqliteError::Full)
    } else if primary == SQLITE_CANTOPEN {
        Err(SqliteError::CantOpen)
    } else if primary == SQLITE_PROTOCOL {
        Err(SqliteError::Protocol)
    } else if primary == SQLITE_EMPTY {
        Err(SqliteError::Empty)
    } else if primary == SQLITE_SCHEMA {
        Err(SqliteError::Schema)
    } else if primary == SQLITE_TOOBIG {
        Err(SqliteError::TooBig)
    } else if primary == SQLITE_CONSTRAINT {
        Err(SqliteError::Constraint)
    } else if primary == SQLITE_MISMATCH {
        Err(SqliteError::Mismatch)
    } else if primary == SQLITE_MISUSE {
        Err(SqliteError::Misuse)
    } else if primary == SQLITE_NOLFS {
        Err(SqliteError::NoLFS)
    } else if primary == SQLITE_AUTH {
        Err(SqliteError::Auth)
    } else if primary == SQLITE_FORMAT {
        Err(SqliteError::Format)
    } else if primary == SQLITE_RANGE {
        Err(SqliteError::Range)
    } else if primary == SQLITE_NOTADB {
        Err(SqliteError::NotADB)
    } else {
        Err(SqliteError::Unknown)
    }
}

/// The outcome that a result code stands for: success, or the native error
/// under the kind that it is reported as.
pub open spec fn status_of(code: i32) -> Result<()> {
    match classify(primary_code(code)) {
        None => Ok(()),
        Some(e) => Err(error_of(e)),
    }
}

/// Reads a result code of the engine as an outcome of the library.
pub fn status(code: i32) -> (r: Result<()>)
    ensures
        r == status_of(code),
{
    match check(code) {
        Ok(()) => Ok(()),
        Err(e) => Err(Error::from(e)),
    }
}

/// What one step of a statement reported.
pub enum Step {
    /// A row is ready to be read.
    Row,
    /// The statement ran to its end.
    Done,
    /// The engine is locked by someone else: the step can be tried again.
    Busy,
    /// The step failed for good.
    Failed(Error),
}

/// The error under which a native error is handed to the caller.
pub open spec fn error_of(e: SqliteError) -> Error {
    Error { kind: kind_of(e), source: Some(e) }
}

/// How the result code of a step is read. A row and the end have codes of
/// their own. Of the others the primary code decides: busy is the transient
/// condition; every other code is a failure, and so is a code that stands
/// for success, which a step never reports.
pub open spec fn step_of(code: i32) -> Step {
    if code == SQLITE_ROW {
        Step::Row
    } else if code == SQLITE_DONE {
        Step::Done
    } else {
        match classify(primary_code(code)) {
            Some(SqliteError::Busy) => Step::Busy,
            Some(e) => Step::Failed(error_of(e)),
            None => Step::Failed(Error { kind: ErrorKind::Failure, source: None }),
        }
    }
}

/// Reads the result code of a step.
pub fn classify_step(code: i32) -> (step: Step)
    ensures
        step == step_of(code),
{
    if code == SQLITE_ROW {
        Step::Row
    } else if code == SQLITE_DONE {
        Step::Done
    } else {
        match check(code) {
            Err(SqliteError::Busy) => Step::Busy,
            Err(e) => Step::Failed(Error::from(e)),
            Ok(()) => Step::Failed(ErrorKind::Failure.err()),
        }
    }
}

/// A cursor over the columns of the current row, from the first column on.
#[derive(Clone, Copy, Debug, PartialEq, Eq, Structural)]
pub struct Row {
    pub column_count: usize,
    pub index: usize,
}

impl Row {
    /// A cursor before the first of `column_count` columns.
    pub fn new(column_count: usize) -> (row: Row)
        ensures
            row == (Row { column_count, index: 0 }),
    {
        Row { column_count, index: 0 }
    }

    /// The index of the next column to read, counted from 0; `None` past the
    /// last column, however often it is asked.
    pub fn next(&mut self) -> (column: Option<usize>)
        ensures
            old(self).index < old(self).column_count ==> column == Some(old(self).index)
                && *final(self) == (Row { index: (old(self).index + 1) as usize, ..*old(self) }),
            old(self).index >= old(self).column_count ==> column is None && *final(self) == *old(
                self,
            ),
    {
        if self.index < self.column_count {
            let column = self.index;
            self.index = self.index + 1;
            Some(column)
        } else {
            None
        }
    }
}

/// Where a stream of rows stands.
#[derive(Clone, Copy, Debug, PartialEq, Eq, Structural)]
pub enum Phase {
    /// The first row is already there and has not been handed out.
    FirstRowPending,
    /// The next poll steps the statement.
    Stepping,
    /// The engine was busy; a delay is being waited out.
    AwaitingBackoff,
    /// The stream is over.
    Exhausted,
}

/// What the driver of a stream does next.
pub enum Action {
    /// Step the statement and report the result code with `stepped`.
    Step,
    /// Hand out the current row, to be read through this cursor.
    Emit(Row),
    /// Wait on the timer, then poll again.
    Wait(Wait),
    /// Hand out this error; the stream is over.
    Fail(Error),
    /// The stream is over.
    Finish,
}

/// A stream of rows, as contracts see it.
pub struct RowsView {
    pub column_count: usize,
    pub phase: Phase,
    /// Whether a timer has been created for this stream.
    pub armed: bool,
    /// Whether the statement has been reset since the stream was made.
    pub closed: bool,
}

/// The poll of a stream: the pending first row is handed out, an exhausted
/// stream stays over, and otherwise the statement is to be stepped.
pub open spec fn poll_spec(v: RowsView) -> (RowsView, Action) {
    match v.phase {
        Phase::FirstRowPending => (
            RowsView { phase: Phase::Stepping, ..v },
            Action::Emit(Row { column_count: v.column_count, index: 0 }),
        ),
        Phase::Stepping => (v, Action::Step),
        Phase::AwaitingBackoff => (RowsView { phase: Phase::Stepping, ..v }, Action::Step),
        Phase::Exhausted => (v, Action::Finish),
    }
}

/// What follows from a step that reported `code`, when the schedule's next
/// answer is `next`. The schedule matters only to a busy step, which is
/// waited out while delays are left and fails as busy when none is.
pub open spec fn advance_spec(v: RowsView, code: i32, next: Option<Duration>) -> (
    RowsView,
    Action,
) {
    if v.phase is Exhausted {
        (v, Action::Finish)
    } else {
        match step_of(code) {
            Step::Row => (
                RowsView { phase: Phase::Stepping, ..v },
                Action::Emit(Row { column_count: v.column_count, index: 0 }),
            ),
            Step::Done => (RowsView { phase: Phase::Exhausted, ..v }, Action::Finish),
            Step::Busy => match next {
                Some(delay) => (
                    RowsView { phase: Phase::AwaitingBackoff, armed: true, ..v },
                    Action::Wait(wait_for(v.armed, delay)),
                ),
                None => (RowsView { phase: Phase::Exhausted, ..v }, Action::Fail(busy_error())),
            },
            Step::Failed(e) => (RowsView { phase: Phase::Exhausted, ..v }, Action::Fail(e)),
        }
    }
}

/// The state of a stream of rows over one statement. The stream is read in
/// one pass; to read the rows again the statement is executed again. A
/// statement carries one stream at a time: to keep to that is the caller's
/// part.
pub struct Rows {
    column_count: usize,
    phase: Phase,
    backoff: BackoffState,
    closed: bool,
}

impl View for Rows {
    type V = RowsView;

    closed spec fn view(&self) -> RowsView {
        RowsView {
            column_count: self.column_count,
            phase: self.phase,
            armed: self.backoff@,
            closed: self.closed,
        }
    }
}

impl Rows {
    /// The stream of a query that ran to its end without a row: it hands
    /// out nothing, and never steps the statement.
    pub fn empty(column_count: usize) -> (rows: Rows)
        ensures
            rows@ == (RowsView {
                column_count,
                phase: Phase::Exhausted,
                armed: false,
                closed: false,
            }),
    {
        Rows {
            column_count,
            phase: Phase::Exhausted,
            backoff: BackoffState::new(Schedule::new()),
            closed: false,
        }
    }

    /// The stream of a query whose first row is there already.
    pub fn new(column_count: usize) -> (rows: Rows)
        ensures
            rows@ == (RowsView {
                column_count,
                phase: Phase::FirstRowPending,
                armed: false,
                closed: false,
            }),
    {
        Rows {
            column_count,
            phase: Phase::FirstRowPending,
            backoff: BackoffState::new(Schedule::new()),
            closed: false,
        }
    }

    /// Number of columns of each row.
    pub fn column_count(&self) -> (n: usize)
        ensures
            n == self@.column_count,
    {
        self.column_count
    }

    /// Where the stream stands.
    pub fn phase(&self) -> (phase: Phase)
        ensures
            phase == self@.phase,
    {
        self.phase
    }

    /// Drops the pending first row, if there is one.
    pub fn consume(&mut self)
        ensures
            final(self)@ == if old(self)@.phase is FirstRowPending {
                RowsView { phase: Phase::Stepping, ..old(self)@ }
            } else {
                old(self)@
            },
    {
        match self.phase {
            Phase::FirstRowPending => {
                self.phase = Phase::Stepping;
            },
            _ => {},
        }
    }

    /// What the consumer's poll leads to.
    pub fn poll_next(&mut self) -> (action: Action)
        ensures
            (final(self)@, action) == poll_spec(old(self)@),
    {
        match self.phase {
            Phase::FirstRowPending => {
                self.phase = Phase::Stepping;
                Action::Emit(Row::new(self.column_count))
            },
            Phase::Stepping => Action::Step,
            Phase::AwaitingBackoff => {
                self.phase = Phase::Stepping;
                Action::Step
            },
            Phase::Exhausted => Action::Finish,
        }
    }

    /// What a step that reported `code` leads to, given the schedule's next
    /// answer.
    pub fn advance(&mut self, code: i32, next: Option<Duration>) -> (action: Action)
        ensures
            (final(self)@, action) == advance_spec(old(self)@, code, next),
    {
        match self.phase {
            Phase::Exhausted => {
                return Action::Finish;
            },
            _ => {},
        }
        match classify_step(code) {
            Step::Row => {
                self.phase = Phase::Stepping;
                Action::Emit(Row::new(self.column_count))
            },
            Step::Done => {
                self.phase = Phase::Exhausted;
                Action::Finish
            },
            Step::Busy => match self.backoff.decide(next) {
                Ok(wait) => {
                    self.phase = Phase::AwaitingBackoff;
                    Action::Wait(wait)
                },
                Err(e) => {
                    self.phase = Phase::Exhausted;
                    Action::Fail(e)
                },
            },
            Step::Failed(e) => {
                self.phase = Phase::Exhausted;
                Action::Fail(e)
            },
        }
    }

    /// What a step that reported `code` leads to. The stream's own schedule
    /// is asked for a delay only when the step was busy and the stream is
    /// not over.
    pub fn stepped(&mut self, code: i32) -> (action: Action)
        ensures
            old(self)@.phase is Exhausted || !(step_of(code) is Busy) ==> (final(self)@, action)
                == advance_spec(old(self)@, code, None),
            exists|next: Option<Duration>|
                (final(self)@, action) == advance_spec(old(self)@, code, next),
    {
        let busy = match self.phase {
            Phase::Exhausted => false,
            _ => match classify_step(code) {
                Step::Busy => true,
                _ => false,
            },
        };
        let next = if busy {
            self.backoff.next_backoff()
        } else {
            None
        };
        self.advance(code, next)
    }

    /// Ends the stream, however far it got. Returns whether the statement
    /// is to be reset now: `true` the first time, `false` ever after.
    pub fn close(&mut self) -> (reset: bool)
        ensures
            reset == !old(self)@.closed,
            final(self)@ == (RowsView { phase: Phase::Exhausted, closed: true, ..old(self)@ }),
    {
        let reset = !self.closed;
        self.closed = true;
        self.phase = Phase::Exhausted;
        reset
    }
}

/// What the first step of an execution leads to: no stream for a statement
/// without result columns, the empty stream for a query without rows, a
/// stream with its first row pending for a query with rows. A busy step is
/// an error of kind busy, for the caller to retry under backoff.
pub open spec fn first_step(column_count: usize, code: i32) -> Result<Option<RowsView>> {
    match step_of(code) {
        Step::Done => if column_count > 0 {
            Ok(
                Some(
                    RowsView {
                        column_count,
                        phase: Phase::Exhausted,
                        armed: false,
                        closed: false,
                    },
                ),
            )
        } else {
            Ok(None)
        },
        Step::Row => Ok(
            Some(
                RowsView {
                    column_count,
                    phase: Phase::FirstRowPending,
                    armed: false,
                    closed: false,
                },
            ),
        ),
        Step::Busy => Err(error_of(SqliteError::Busy)),
        Step::Failed(e) => Err(e),
    }
}

/// Reads the first step of an execution of a statement with `column_count`
/// result columns.
pub fn try_execute(column_count: usize, code: i32) -> (r: Result<Option<Rows>>)
    ensures
        match first_step(column_count, code) {
            Ok(Some(v)) => r matches Ok(Some(rows)) && rows@ == v,
            Ok(None) => r matches Ok(None),
            Err(e) => r matches Err(f) && f == e,
        },
{
    match classify_step(code) {
        Step::Done => {
            if column_count > 0 {
                Ok(Some(Rows::empty(column_count)))
            } else {
                Ok(None)
            }
        },
        Step::Row => Ok(Some(Rows::new(column_count))),
        Step::Busy => Err(Error::from(SqliteError::Busy)),
        Step::Failed(e) => Err(e),
    }
}

/// What the consumer of a stream is handed when it polls the stream to its
/// end while the steps of the statement report `steps[0]`, `steps[1]` and
/// so on. Each entry is a result code together with the answer that the
/// schedule has ready at that moment. A wait hands out nothing.
pub open spec fn handed_out(v: RowsView, steps: Seq<(i32, Option<Duration>)>) -> Seq<Result<Row>>
    decreases steps.len(),
        (if v.phase is FirstRowPending {
            1nat
        } else {
            0nat
        }),
{
    let polled = poll_spec(v);
    match polled.1 {
        Action::Emit(row) => seq![Ok(row)] + handed_out(polled.0, steps),
        Action::Step => if steps.len() == 0 {
            Seq::empty()
        } else {
            let stepped = advance_spec(polled.0, steps[0].0, steps[0].1);
            match stepped.1 {
                Action::Emit(row) => seq![Ok(row)] + handed_out(stepped.0, steps.drop_first()),
                Action::Wait(_) => handed_out(stepped.0, steps.drop_first()),
                Action::Fail(e) => seq![Err(e)],
                _ => Seq::empty(),
            }
        },
        _ => Seq::empty(),
    }
}

/// Whether two streams stand at the same place as far as the consumer can
/// tell: a stream that waits is as good as one about to step.
pub open spec fn same_place(a: RowsView, b: RowsView) -> bool {
    &&& a.column_count == b.column_count
    &&& a.phase is FirstRowPending <==> b.phase is FirstRowPending
    &&& a.phase is Exhausted <==> b.phase is Exhausted
}

/// What is handed out depends on where the stream stands, not on its timer.
pub proof fn lemma_handed_out_same(a: RowsView, b: RowsView, steps: Seq<(i32, Option<Duration>)>)
    requires
        same_place(a, b),
    ensures
        handed_out(a, steps) == handed_out(b, steps),
    decreases steps.len(),
        (if a.phase is FirstRowPending {
            1nat
        } else {
            0nat
        }),
{
    let pa = poll_spec(a);
    let pb = poll_spec(b);
    if a.phase is FirstRowPending {
        lemma_handed_out_same(pa.0, pb.0, steps);
    } else if !(a.phase is Exhausted) && steps.len() > 0 {
        let sa = advance_spec(pa.0, steps[0].0, steps[0].1);
        let sb = advance_spec(pb.0, steps[0].0, steps[0].1);
        lemma_handed_out_same(sa.0, sb.0, steps.drop_first());
    }
}

/// A busy step is invisible to the consumer: when the schedule has a delay
/// left, the stream hands out what it would have handed out without that
/// step, with no error and no row twice.
pub proof fn lemma_busy_is_invisible(
    v: RowsView,
    code: i32,
    delay: Duration,
    rest: Seq<(i32, Option<Duration>)>,
)
    requires
        step_of(code) is Busy,
    ensures
        handed_out(v, seq![(code, Some(delay))] + rest) == handed_out(v, rest),
    decreases
            (if v.phase is FirstRowPending {
                1nat
            } else {
                0nat
            }),
{
    let steps = seq![(code, Some(delay))] + rest;
    let polled = poll_spec(v);
    if v.phase is FirstRowPending {
        lemma_busy_is_invisible(polled.0, code, delay, rest);
    } else if !(v.phase is Exhausted) {
        let stepped = advance_spec(polled.0, code, Some(delay));
        assert(steps[0] == (code, Some(delay)));
        assert(steps.drop_first() =~= rest);
        lemma_handed_out_same(stepped.0, v, rest);
    }
}

/// The kinds of value that a column can hold.
#[derive(Clone, Copy, Debug, PartialEq, Eq, Structural)]
pub enum ColumnType {
    Integer,
    Float,
    Text,
    Blob,
    Null,
}

/// The kind of value behind a storage type code of the engine. A code that
/// stands for none of the four kinds with content is read as null.
pub open spec fn column_type_of(code: i32) -> ColumnType {
    if code == SQLITE_INTEGER {
        ColumnType::Integer
    } else if code == SQLITE_FLOAT {
        ColumnType::Float
    } else if code == SQLITE_TEXT {
        ColumnType::Text
    } else if code == SQLITE_BLOB {
        ColumnType::Blob
    } else {
        ColumnType::Null
    }
}

/// Reads a storage type code of the engine.
pub fn column_type(code: i32) -> (kind: ColumnType)
    ensures
        kind == column_type_of(code),
{
    if code == SQLITE_INTEGER {
        ColumnType::Integer
    } else if code == SQLITE_FLOAT {
        ColumnType::Float
    } else if code == SQLITE_TEXT {
        ColumnType::Text
    } else if code == SQLITE_BLOB {
        ColumnType::Blob
    } else {
        ColumnType::Null
    }
}

/// The parameter slot of the engine for the argument at `index`: arguments
/// are counted from 0, slots from 1.
pub fn parameter_slot(index: usize) -> (slot: i32)
    requires
        index < i32::MAX,
    ensures
        slot == index + 1,
{
    (index + 1) as i32
}

/// Whether binding the argument at `index` can come to `r`: what the engine
/// says of it in its slot, or a range error where the index is beyond the
/// slots that the engine can number.
pub open spec fn binds_to<F: FnMut(i32, &Value) -> Result<()>>(
    bind: F,
    args: Seq<Value>,
    index: int,
    r: Result<()>,
) -> bool {
    if index < i32::MAX {
        call_ensures(bind, ((index + 1) as i32, &args[index]), r)
    } else {
        r == Err::<(), Error>(error_of(SqliteError::Range))
    }
}

/// Binds the arguments of a statement in their order, the argument at
/// index `i` to the slot `i + 1`, and stops at the first that fails.
pub fn bind_all<F: FnMut(i32, &Value) -> Result<()>>(args: &Vec<Value>, mut bind: F) -> (r: Result<
    (),
>)
    requires
        forall|slot: i32, value: &Value| call_requires(bind, (slot, value)),
    ensures
        match r {
            Ok(()) => forall|i: int|
                0 <= i < args.len() ==> #[trigger] binds_to(bind, args@, i, Ok::<(), Error>(())),
            Err(e) => exists|k: int|
                {
                    &&& 0 <= k < args.len()
                    &&& #[trigger] binds_to(bind, args@, k, Err::<(), Error>(e))
                    &&& forall|i: int|
                        0 <= i < k ==> #[trigger] binds_to(bind, args@, i, Ok::<(), Error>(()))
                },
        },
{
    let ghost given = bind;
    let mut failure: Option<Error> = None;
    let mut index: usize = 0;
    while index < args.len()
        invariant_except_break
            failure is None,
        invariant
            index <= args.len(),
            bind == given,
            forall|slot: i32, value: &Value| call_requires(bind, (slot, value)),
            forall|i: int| 0 <= i < index ==> #[trigger] binds_to(given, args@, i, Ok::<(), Error>(())),
        ensures
            failure is None ==> index == args.len(),
            failure matches Some(e) ==> index < args.len() && binds_to(
                given,
                args@,
                index as int,
                Err::<(), Error>(e),
            ),
        decreases args.len() - index,
    {
        if index >= 0x7fff_ffff {
            failure = Some(Error::from(SqliteError::Range));
            break ;
        }
        let outcome = bind(parameter_slot(index), &args[index]);
        assert(binds_to(given, args@, index as int, outcome));
        match outcome {
            Ok(done) => {
                assert(outcome == Ok::<(), Error>(()));
            },
            Err(e) => {
                failure = Some(e);
                break ;
            },
        }
        index = index + 1;
    }
    match failure {
        Some(e) => Err(e),
        None => Ok(()),
    }
}

/// What compiling a text came to, read from the result code and from the
/// statement that the engine gave, if it gave one. A text that does not
/// compile is an invalid query; the other codes are reported as they are.
pub open spec fn compiled<S>(code: i32, statement: Option<S>) -> Result<Option<S>> {
    match classify(primary_code(code)) {
        None => Ok(statement),
        Some(e) => if primary_code(code) == SQLITE_ERROR {
            Err(Error { kind: ErrorKind::InvalidQuery, source: Some(e) })
        } else {
            Err(error_of(e))
        },
    }
}

/// The library's own state of one connection to the engine: the count of
/// anonymous savepoint names minted on it. The native handle is the
/// caller's.
pub struct Connection {
    next_savepoint: usize,
}

impl Connection {
    /// The state of a connection that has just been opened.
    pub fn new() -> (connection: Connection)
        ensures
            connection.savepoints() == 0,
    {
        Connection { next_savepoint: 0 }
    }

    /// How many anonymous savepoint names have been minted.
    pub closed spec fn savepoints(&self) -> nat {
        self.next_savepoint as nat
    }

    /// How many anonymous savepoint names have been minted.
    pub fn savepoint_count(&self) -> (count: usize)
        ensures
            count == self.savepoints(),
    {
        self.next_savepoint
    }

    /// Reads the outcome of compiling a text.
    pub fn prepared<S>(code: i32, statement: Option<S>) -> (r: Result<Option<S>>)
        ensures
            r == compiled(code, statement),
    {
        match check(code) {
            Ok(()) => Ok(statement),
            Err(e) => {
                if code & 0xff == SQLITE_ERROR {
                    Err(Error::new(ErrorKind::InvalidQuery, Some(e)))
                } else {
                    Err(Error::from(e))
                }
            },
        }
    }

    /// Mints a savepoint name that this connection has not given before.
    pub fn anonymous_savepoint_name(&mut self) -> (name: String)
        requires
            old(self).savepoints() < usize::MAX,
        ensures
            name@ == anonymous_name(old(self).savepoints()),
            final(self).savepoints() == old(self).savepoints() + 1,
    {
        let number = self.next_savepoint;
        self.next_savepoint = self.next_savepoint + 1;
        crate::transaction::anonymous_savepoint_name(number)
    }
}

} // verus!
