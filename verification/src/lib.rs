//! A non-blocking execution layer in front of an embedded SQL engine.
//!
//! The library holds the decisions of that layer: how a script is split
//! into statements, when a busy operation is retried and when it is given
//! up, how a stream of rows moves on from one step of a statement to the
//! next, how column values are decoded, and how transactions and savepoints
//! are opened and resolved. The native calls, the timer and the task that
//! waits belong to the program around it, which reports to these types what
//! came back and does what they decide.

pub mod backend;
pub mod backoff;
pub mod connection;
pub mod error;
pub mod parsing;
pub mod row;
pub mod transaction;
pub mod value;

pub use backend::sqlite;
pub use backoff::{BackoffFuture, BackoffState, Retry, Schedule, Wait};
pub use connection::prepare_list;
pub use error::{Error, ErrorKind, Result, SqliteError};
pub use row::FromRow;
pub use transaction::{Opening, Transaction};
pub use value::{Blob, Float, FromValue, Text, Value};
