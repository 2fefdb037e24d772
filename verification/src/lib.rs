//! Squire: an idiomatic interface to SQLite, with the parts that decide
//! things (result codes, errors, versions, open flags, statement options,
//! parameter and column indexes, bound values) stated and proved.

pub mod bind;
pub mod blob;
pub mod codes;
pub mod connection;
pub mod database;
pub mod decimal;
pub mod endpoint;
pub mod error;
pub mod hex;
pub mod statement;
pub mod types;
pub mod version;

pub use bind::Bind;
pub use blob::Reservation;
pub use connection::ConnectionBuilder;
pub use database::Database;
pub use endpoint::{Endpoint, Local, Memory, Uri, Vfs};
pub use error::{
    AbortError, AuthorizationError, BusyError, CantOpenError, ConstraintError, CorruptError, Error,
    ErrorCategory, ErrorCode, ErrorContainer, ErrorLocation, ErrorMessage, ErrorReason, FetchError,
    GeneralError, IntegrationError, IoError, LockedError, ParameterError, ReadOnlyError, Result,
    RowError,
};
pub use statement::{
    PrepareOptions, StatementColumnIter, StatementColumns, StatementParameterIter,
    StatementParameters,
};
pub use types::{BindIndex, BindIndexes, ColumnIndex, RowId, StringRepresentation};
pub use version::Version;
