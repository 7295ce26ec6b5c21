//! The error taxonomy of the library.

use std::path::PathBuf;
use vstd::prelude::*;

verus! {

/// A file system path, carried through as it was given.
#[verifier::external_type_specification]
#[verifier::external_body]
pub struct ExPathBuf(PathBuf);

/// `PathBuf::clone` of std: the copy is the same path.
pub assume_specification[ <PathBuf as Clone>::clone ](path: &PathBuf) -> (copy: PathBuf)
    ensures
        copy == *path,
;

pub type Result<T> = std::result::Result<T, Error>;

/// A primary result code of the native engine, other than success.
#[derive(Debug, Clone, Copy, PartialEq, Eq, Structural)]
pub enum SqliteError {
    Unknown,
    Internal,
    Perm,
    Abort,
    Busy,
    Locked,
    NoMem,
    ReadOnly,
    Interrupt,
    IO,
    Corrupt,
    NotFound,
    Full,
    CantOpen,
    Protocol,
    Empty,
    Schema,
    TooBig,
    Constraint,
    Mismatch,
    Misuse,
    NoLFS,
    Auth,
    Format,
    Range,
    NotADB,
}

/// What went wrong, as the caller sees it.
#[derive(Clone, Debug)]
pub enum ErrorKind {
    InvalidString(String),
    InvalidPath(PathBuf),
    /// The SQL text does not compile.
    InvalidQuery,
    /// A native error that is not classified further.
    Failure,
    /// The database is busy.
    Busy,
    /// The database schema changed since the statement was prepared.
    SchemaChanged,
    /// A column value does not fit the type asked for.
    ConversionFailed,
}

/// An error of the library: its kind, and the native error behind it if
/// there is one.
#[derive(Debug)]
pub struct Error {
    pub kind: ErrorKind,
    pub source: Option<SqliteError>,
}

/// The kind under which a native error is reported: contention and schema
/// changes keep their meaning, everything else is an opaque failure.
pub open spec fn kind_of(e: SqliteError) -> ErrorKind {
    match e {
        SqliteError::Busy => ErrorKind::Busy,
        SqliteError::Schema => ErrorKind::SchemaChanged,
        _ => ErrorKind::Failure,
    }
}

/// The text that describes a kind of error.
pub open spec fn message_of(kind: ErrorKind) -> Seq<char> {
    match kind {
        ErrorKind::InvalidString(_) => "invalid string"@,
        ErrorKind::InvalidPath(_) => "invalid path"@,
        ErrorKind::InvalidQuery => "invalid query"@,
        ErrorKind::Failure => "failure"@,
        ErrorKind::Busy => "busy"@,
        ErrorKind::SchemaChanged => "schema changed"@,
        ErrorKind::ConversionFailed => "conversion failed"@,
    }
}

/// The name of a native error.
pub open spec fn name_of(e: SqliteError) -> Seq<char> {
    match e {
        SqliteError::Unknown => "Unknown"@,
        SqliteError::Internal => "Internal"@,
        SqliteError::Perm => "Perm"@,
        SqliteError::Abort => "Abort"@,
        SqliteError::Busy => "Busy"@,
        SqliteError::Locked => "Locked"@,
        SqliteError::NoMem => "NoMem"@,
        SqliteError::ReadOnly => "ReadOnly"@,
        SqliteError::Interrupt => "Interrupt"@,
        SqliteError::IO => "IO"@,
        SqliteError::Corrupt => "Corrupt"@,
        SqliteError::NotFound => "NotFound"@,
        SqliteError::Full => "Full"@,
        SqliteError::CantOpen => "CantOpen"@,
        SqliteError::Protocol => "Protocol"@,
        SqliteError::Empty => "Empty"@,
        SqliteError::Schema => "Schema"@,
        SqliteError::TooBig => "TooBig"@,
        SqliteError::Constraint => "Constraint"@,
        SqliteError::Mismatch => "Mismatch"@,
        SqliteError::Misuse => "Misuse"@,
        SqliteError::NoLFS => "NoLFS"@,
        SqliteError::Auth => "Auth"@,
        SqliteError::Format => "Format"@,
        SqliteError::Range => "Range"@,
        SqliteError::NotADB => "NotADB"@,
    }
}

impl SqliteError {
    /// The name of this error.
    pub fn name(&self) -> (s: &'static str)
        ensures
            s@ == name_of(*self),
    {
        match self {
            SqliteError::Unknown => "Unknown",
            SqliteError::Internal => "Internal",
            SqliteError::Perm => "Perm",
            SqliteError::Abort => "Abort",
            SqliteError::Busy => "Busy",
            SqliteError::Locked => "Locked",
            SqliteError::NoMem => "NoMem",
            SqliteError::ReadOnly => "ReadOnly",
            SqliteError::Interrupt => "Interrupt",
            SqliteError::IO => "IO",
            SqliteError::Corrupt => "Corrupt",
            SqliteError::NotFound => "NotFound",
            SqliteError::Full => "Full",
            SqliteError::CantOpen => "CantOpen",
            SqliteError::Protocol => "Protocol",
            SqliteError::Empty => "Empty",
            SqliteError::Schema => "Schema",
            SqliteError::TooBig => "TooBig",
            SqliteError::Constraint => "Constraint",
            SqliteError::Mismatch => "Mismatch",
            SqliteError::Misuse => "Misuse",
            SqliteError::NoLFS => "NoLFS",
            SqliteError::Auth => "Auth",
            SqliteError::Format => "Format",
            SqliteError::Range => "Range",
            SqliteError::NotADB => "NotADB",
        }
    }

    /// The name of this error, owned.
    pub fn to_string(&self) -> (s: String)
        ensures
            s@ == name_of(*self),
    {
        self.name().to_owned()
    }
}

impl Error {
    pub fn new(kind: ErrorKind, source: Option<SqliteError>) -> (e: Error)
        ensures
            e == (Error { kind, source }),
    {
        Error { kind, source }
    }

    pub fn kind(&self) -> (k: &ErrorKind)
        ensures
            *k == self.kind,
    {
        &self.kind
    }

    pub fn source(&self) -> (s: Option<SqliteError>)
        ensures
            s == self.source,
    {
        self.source
    }

    /// The description of the error's kind.
    pub fn to_string(&self) -> (s: String)
        ensures
            s@ == message_of(self.kind),
    {
        self.kind.to_string()
    }
}

impl ErrorKind {
    /// An error of this kind with no native error behind it.
    pub fn err(self) -> (e: Error)
        ensures
            e == (Error { kind: self, source: None }),
    {
        Error { kind: self, source: None }
    }

    pub fn is_busy(&self) -> (b: bool)
        ensures
            b == (*self is Busy),
    {
        match self {
            ErrorKind::Busy => true,
            _ => false,
        }
    }

    /// The description of this kind.
    pub fn message(&self) -> (s: &'static str)
        ensures
            s@ == message_of(*self),
    {
        match self {
            ErrorKind::InvalidString(_) => "invalid string",
            ErrorKind::InvalidPath(_) => "invalid path",
            ErrorKind::InvalidQuery => "invalid query",
            ErrorKind::Failure => "failure",
            ErrorKind::Busy => "busy",
            ErrorKind::SchemaChanged => "schema changed",
            ErrorKind::ConversionFailed => "conversion failed",
        }
    }

    /// The description of this kind, owned.
    pub fn to_string(&self) -> (s: String)
        ensures
            s@ == message_of(*self),
    {
        self.message().to_owned()
    }
}

impl From<SqliteError> for Error {
    fn from(e: SqliteError) -> (r: Error) {
        let kind = match e {
            SqliteError::Busy => ErrorKind::Busy,
            SqliteError::Schema => ErrorKind::SchemaChanged,
            _ => ErrorKind::Failure,
        };
        Error::new(kind, Some(e))
    }
}

impl vstd::std_specs::convert::FromSpecImpl<SqliteError> for Error {
    open spec fn obeys_from_spec() -> bool {
        true
    }

    open spec fn from_spec(e: SqliteError) -> Error {
        Error { kind: kind_of(e), source: Some(e) }
    }
}

} // verus!
