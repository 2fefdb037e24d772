//! Errors returned by Squire: SQLite result codes, translated into a
//! [category](ErrorCategory) and a specific [reason](ErrorReason).

mod category;
mod code;
mod extended;
mod integration;
mod location;
mod message;
mod names;
mod reason;

pub use category::{category_of, lemma_category_roundtrip, ErrorCategory};
pub use code::{
    code_name, code_text, is_squire_code, lemma_code_name_prefix, squire_code_description,
    ErrorCode,
};
pub use extended::{
    AbortError, AuthorizationError, BusyError, CantOpenError, ConstraintError, CorruptError,
    FetchError, GeneralError, IoError, LockedError, ParameterError, ReadOnlyError, RowError,
};
pub use reason::{lemma_reason_category, lemma_reason_roundtrip, reason_of, ErrorReason};
pub use location::ErrorLocation;
pub use names::{
    category_name, has_code_name, lemma_category_code_names, lemma_named_code_meaning,
    lemma_reason_code_names, reason_name, reason_word,
};
pub use message::{ErrorContext, ErrorMessage};
pub use integration::{ErrorContainer, IntegrationError};

use vstd::prelude::*;

use crate::codes::{
    SQLITE_ERROR, SQLITE_MISUSE, SQLITE_RANGE, SQLITE_TOOBIG, SQUIRE_ERROR_FETCH_PARSE,
    SQUIRE_ERROR_PARAMETER_BIND, SQUIRE_ERROR_PARAMETER_RESOLVE, SQUIRE_ERROR_ROW_NOT_RETURNED,
};

verus! {

/// A [`Result`](core::result::Result) returned by Squire, with a default
/// `Err` type of [`Error`].
pub type Result<T, E = Error> = core::result::Result<T, E>;

/// The text of an optional message.
pub open spec fn message_view(message: Option<String>) -> Option<Seq<char>> {
    match message {
        Some(m) => Some(m@),
        None => None,
    }
}

/// The text of an error with result code `code` and message `message`, as
/// shown to a user, given the description SQLite gives of `code`: for an
/// error from SQLite, its message (or else the description) and the code in
/// brackets; for one from Squire, Squire's description of the code (or else
/// SQLite's) and the message after a colon, if there is one.
pub open spec fn error_text(
    code: i32,
    message: Option<Seq<char>>,
    sqlite_description: Seq<char>,
) -> Seq<char> {
    let description = match squire_code_description(code) {
        Some(d) => d,
        None => sqlite_description,
    };
    if !is_squire_code(code) {
        let shown = match message {
            Some(m) => m,
            None => description,
        };
        shown + " ["@ + code_text(code) + "]"@
    } else {
        match message {
            Some(m) => description + ": "@ + m,
            None => description,
        }
    }
}

/// What an [`Error`] carries besides its code.
#[derive(Clone, Debug)]
enum ErrorDetail {
    Message(String),
    SourceMessage(String, ErrorLocation),
    Integration(IntegrationError),
}

#[derive(Clone, Debug)]
struct ErrorInner {
    code: ErrorCode,
    detail: Option<ErrorDetail>,
}

/// An error returned by Squire.
///
/// `Error` encapsulates errors returned by SQLite, translating its result
/// codes into a general [category](ErrorCategory) and a specific
/// [reason](ErrorReason). It can also represent an error encountered by
/// Squire itself, or by one of the crates it integrates with.
#[derive(Clone, Debug)]
pub struct Error {
    inner: Box<ErrorInner>,
}

impl Error {
    /// The [`ErrorCode`] of the error.
    pub closed spec fn code_spec(self) -> ErrorCode {
        self.inner.code
    }

    /// The message the error carries, if any.
    pub closed spec fn message_spec(self) -> Option<Seq<char>> {
        match self.inner.detail {
            Some(ErrorDetail::Message(message)) => Some(message@),
            Some(ErrorDetail::SourceMessage(message, _)) => Some(message@),
            _ => None,
        }
    }

    /// The location in the SQL source the error carries, if any.
    pub closed spec fn location_spec(self) -> Option<ErrorLocation> {
        match self.inner.detail {
            Some(ErrorDetail::SourceMessage(_, location)) => Some(location),
            _ => None,
        }
    }

    /// The [`IntegrationError`] the error carries, if any.
    pub closed spec fn integration_spec(self) -> Option<IntegrationError> {
        match self.inner.detail {
            Some(ErrorDetail::Integration(error)) => Some(error),
            _ => None,
        }
    }

    /// `true` when the error carries nothing but its code.
    pub open spec fn is_bare(self) -> bool {
        &&& self.message_spec() is None
        &&& self.location_spec() is None
        &&& self.integration_spec() is None
    }

    /// The error with result code `code` and nothing else.
    pub closed spec fn bare(code: ErrorCode) -> Error {
        Error { inner: Box::new(ErrorInner { code, detail: None }) }
    }

    /// An error with the given [`ErrorCode`] and no further detail.
    pub fn new(code: ErrorCode) -> (r: Self)
        ensures
            r == Error::bare(code),
            r.code_spec() == code,
            r.is_bare(),
    {
        Error { inner: Box::new(ErrorInner { code, detail: None }) }
    }

    fn with_detail(code: ErrorCode, detail: ErrorDetail) -> (r: Self)
        ensures
            r.code_spec() == code,
            r.inner.detail == Some(detail),
    {
        Error { inner: Box::new(ErrorInner { code, detail: Some(detail) }) }
    }

    /// An error with result code `code` carrying a message.
    pub fn with_message(code: ErrorCode, message: String) -> (r: Self)
        ensures
            r.code_spec() == code,
            r.message_spec() == Some(message@),
            r.location_spec() is None,
            r.integration_spec() is None,
    {
        Self::with_detail(code, ErrorDetail::Message(message))
    }

    /// The error for a SQLite result code; `None` when `code` is `0`
    /// (`SQLITE_OK`).
    pub fn from_code(code: i32) -> (r: Option<Self>)
        ensures
            r is Some <==> code != 0,
            r matches Some(e) ==> e.code_spec()@ == code && e.is_bare(),
    {
        match ErrorCode::new(code) {
            Some(code) => Some(Self::new(code)),
            None => None,
        }
    }

    /// The error for the result `code` of a call on a connection, given the
    /// connection's error message (`None` when the connection has no message
    /// of its own for the error); `None` when `code` is `0` (`SQLITE_OK`).
    pub fn from_result(code: i32, message: Option<String>) -> (r: Option<Self>)
        ensures
            r is Some <==> code != 0,
            r matches Some(e) ==> {
                &&& e.code_spec()@ == code
                &&& e.message_spec() == message_view(message)
                &&& e.location_spec() is None
                &&& e.integration_spec() is None
            },
    {
        match ErrorCode::new(code) {
            Some(code) => match message {
                Some(message) => Some(Self::with_message(code, message)),
                None => Some(Self::new(code)),
            },
            None => None,
        }
    }

    /// The error for the result `code` of preparing a statement, given the
    /// connection's error message and the offset SQLite reports for the
    /// error in the SQL text (negative when there is none). The location is
    /// kept only together with a message. `None` when `code` is `0`.
    pub fn from_prepare_result(code: i32, message: Option<String>, offset: i32) -> (r: Option<
        Self,
    >)
        ensures
            r is Some <==> code != 0,
            r matches Some(e) ==> {
                &&& e.code_spec()@ == code
                &&& e.message_spec() == message_view(message)
                &&& (e.location_spec() is Some <==> (message is Some && offset >= 0))
                &&& e.location_spec() matches Some(l) ==> l@ == offset
                &&& e.integration_spec() is None
            },
    {
        match ErrorCode::new(code) {
            Some(code) => match message {
                Some(message) => match ErrorLocation::new(offset) {
                    Some(location) => Some(
                        Self::with_detail(code, ErrorDetail::SourceMessage(message, location)),
                    ),
                    None => Some(Self::with_message(code, message)),
                },
                None => Some(Self::new(code)),
            },
            None => None,
        }
    }

    /// A [parameter binding error](ParameterError::Bind) caused by an
    /// integrated crate.
    pub fn from_bind(source: IntegrationError) -> (r: Self)
        ensures
            r.code_spec()@ == SQUIRE_ERROR_PARAMETER_BIND,
            r.integration_spec() == Some(source),
            r.message_spec() is None,
            r.location_spec() is None,
    {
        Self::with_detail(
            ErrorCode::define(SQUIRE_ERROR_PARAMETER_BIND),
            ErrorDetail::Integration(source),
        )
    }

    /// A [fetch parse error](FetchError::Parse) caused by an integrated crate.
    pub fn from_fetch(source: IntegrationError) -> (r: Self)
        ensures
            r.code_spec()@ == SQUIRE_ERROR_FETCH_PARSE,
            r.integration_spec() == Some(source),
            r.message_spec() is None,
            r.location_spec() is None,
    {
        Self::with_detail(
            ErrorCode::define(SQUIRE_ERROR_FETCH_PARSE),
            ErrorDetail::Integration(source),
        )
    }

    /// A [parameter binding error](ParameterError::Bind) with a message.
    pub fn bind(message: &str) -> (r: Self)
        ensures
            r.code_spec()@ == SQUIRE_ERROR_PARAMETER_BIND,
            r.message_spec() == Some(message@),
            r.location_spec() is None,
            r.integration_spec() is None,
    {
        Self::with_message(ErrorCode::define(SQUIRE_ERROR_PARAMETER_BIND), message.to_owned())
    }

    /// A [parameter index resolution error](ParameterError::Resolve) with a
    /// message.
    pub fn resolve(message: &str) -> (r: Self)
        ensures
            r.code_spec()@ == SQUIRE_ERROR_PARAMETER_RESOLVE,
            r.message_spec() == Some(message@),
            r.location_spec() is None,
            r.integration_spec() is None,
    {
        Self::with_message(ErrorCode::define(SQUIRE_ERROR_PARAMETER_RESOLVE), message.to_owned())
    }

    /// A [fetch error](FetchError) with a message.
    pub fn fetch(code: FetchError, message: &str) -> (r: Self)
        ensures
            r.code_spec()@ == code.raw_code(),
            r.message_spec() == Some(message@),
            r.location_spec() is None,
            r.integration_spec() is None,
    {
        Self::with_message(ErrorReason::Fetch(code).code(), message.to_owned())
    }

    /// The error for a query that was expected to return a row but did not.
    pub fn row_not_returned() -> (r: Self)
        ensures
            r.code_spec()@ == SQUIRE_ERROR_ROW_NOT_RETURNED,
            r.is_bare(),
    {
        Self::new(ErrorCode::define(SQUIRE_ERROR_ROW_NOT_RETURNED))
    }

    /// The `SQLITE_MISUSE` error: the library was used in a way SQLite does
    /// not support.
    pub fn misuse() -> (r: Self)
        ensures
            r.code_spec()@ == SQLITE_MISUSE,
            r.is_bare(),
    {
        Self::new(ErrorCode::define(SQLITE_MISUSE))
    }

    /// The `SQLITE_RANGE` error: a parameter or column index was out of
    /// range.
    pub fn range() -> (r: Self)
        ensures
            r.code_spec()@ == SQLITE_RANGE,
            r.is_bare(),
    {
        Self::new(ErrorCode::define(SQLITE_RANGE))
    }

    /// The `SQLITE_TOOBIG` error: a string or blob was too large.
    pub fn too_big() -> (r: Self)
        ensures
            r.code_spec()@ == SQLITE_TOOBIG,
            r.is_bare(),
    {
        Self::new(ErrorCode::define(SQLITE_TOOBIG))
    }

    /// The error as text, given the description SQLite gives of its code
    /// (what `sqlite3_errstr` returns for it).
    pub fn describe(&self, sqlite_description: &str) -> (r: String)
        ensures
            r@ == error_text(self.code_spec()@, self.message_spec(), sqlite_description@),
    {
        let code = self.code();
        let description = match code.squire_description() {
            Some(d) => d,
            None => sqlite_description,
        };
        if code.is_sqlite() {
            let mut text = match self.message() {
                Some(m) => m.to_owned(),
                None => description.to_owned(),
            };
            text.append(" [");
            let name = code.to_string();
            text.append(name.as_str());
            text.append("]");
            text
        } else {
            let mut text = description.to_owned();
            match self.message() {
                Some(m) => {
                    text.append(": ");
                    text.append(m);
                },
                None => {},
            }
            text
        }
    }

    /// The [`ErrorCode`] identifying what error occurred.
    pub fn code(&self) -> (r: ErrorCode)
        ensures
            r == self.code_spec(),
    {
        self.inner.code
    }

    /// The [category](ErrorCategory) of error that occurred, or `None` if
    /// unknown.
    pub fn category(&self) -> (r: Option<ErrorCategory>)
        ensures
            r == category_of(self.code_spec()@),
    {
        ErrorCategory::from_code(self.code())
    }

    /// The [specific reason](ErrorReason) the error occurred, or `None` if
    /// unknown.
    pub fn reason(&self) -> (r: Option<ErrorReason>)
        ensures
            r == reason_of(self.code_spec()@),
    {
        ErrorReason::from_code(self.code())
    }

    /// `true` if this error originated from within SQLite; `false` for errors
    /// originating in Squire.
    pub fn is_sqlite(&self) -> (r: bool)
        ensures
            r == !is_squire_code(self.code_spec()@),
    {
        self.inner.code.is_sqlite()
    }

    /// `true` if this error originated from Squire, or a crate it integrates
    /// with; `false` for errors originating from SQLite.
    pub fn is_squire(&self) -> (r: bool)
        ensures
            r == is_squire_code(self.code_spec()@),
    {
        self.inner.code.is_squire()
    }

    /// `true` if this error carries an [`IntegrationError`].
    pub fn is_integration(&self) -> (r: bool)
        ensures
            r == self.integration_spec() is Some,
    {
        match &self.inner.detail {
            Some(ErrorDetail::Integration(_)) => true,
            _ => false,
        }
    }

    /// The [`IntegrationError`] returned by a crate with which Squire
    /// integrates, or `None`.
    pub fn as_integration(&self) -> (r: Option<&IntegrationError>)
        ensures
            r is Some <==> self.integration_spec() is Some,
            r matches Some(e) ==> self.integration_spec() == Some(*e),
    {
        match &self.inner.detail {
            Some(ErrorDetail::Integration(error)) => Some(error),
            _ => None,
        }
    }

    /// The offset in the input SQL where the error was found.
    pub fn source_location(&self) -> (r: Option<ErrorLocation>)
        ensures
            r == self.location_spec(),
    {
        match &self.inner.detail {
            Some(ErrorDetail::SourceMessage(_, location)) => Some(*location),
            _ => None,
        }
    }

    /// The message the error carries, if any.
    pub fn message(&self) -> (r: Option<&str>)
        ensures
            r is Some <==> self.message_spec() is Some,
            r matches Some(m) ==> self.message_spec() == Some(m@),
    {
        match &self.inner.detail {
            Some(ErrorDetail::Message(message)) => Some(message.as_str()),
            Some(ErrorDetail::SourceMessage(message, _)) => Some(message.as_str()),
            _ => None,
        }
    }
}

impl Default for Error {
    /// The generic `SQLITE_ERROR` error.
    fn default() -> (r: Self)
        ensures
            r.code_spec()@ == SQLITE_ERROR,
            r.is_bare(),
    {
        Self::new(ErrorCode::default())
    }
}

impl From<ErrorCategory> for Error {
    fn from(category: ErrorCategory) -> (r: Self) {
        let code = category.code();
        proof {
            ErrorCode::lemma_with_raw_view(code);
        }
        Error::new(code)
    }
}

impl vstd::std_specs::convert::FromSpecImpl<ErrorCategory> for Error {
    open spec fn obeys_from_spec() -> bool {
        true
    }

    open spec fn from_spec(category: ErrorCategory) -> Self {
        Error::bare(ErrorCode::with_raw(category.raw_code()))
    }
}

impl From<ErrorReason> for Error {
    fn from(reason: ErrorReason) -> (r: Self) {
        let code = reason.code();
        proof {
            ErrorCode::lemma_with_raw_view(code);
        }
        Error::new(code)
    }
}

impl vstd::std_specs::convert::FromSpecImpl<ErrorReason> for Error {
    open spec fn obeys_from_spec() -> bool {
        true
    }

    open spec fn from_spec(reason: ErrorReason) -> Self {
        Error::bare(ErrorCode::with_raw(reason.raw_code()))
    }
}

impl From<i32> for Error {
    /// The error for a result code; the generic `SQLITE_ERROR` error for `0`.
    fn from(code: i32) -> (r: Self) {
        match ErrorCode::new(code) {
            Some(c) => Error::new(c),
            None => Error::new(ErrorCode::default()),
        }
    }
}

impl vstd::std_specs::convert::FromSpecImpl<i32> for Error {
    open spec fn obeys_from_spec() -> bool {
        true
    }

    open spec fn from_spec(code: i32) -> Self {
        Error::bare(ErrorCode::with_raw(if code != 0 { code } else { SQLITE_ERROR }))
    }
}

/// The codes of the reasons Squire defines (fetching, parameters, rows) are
/// Squire's codes; those of every other reason are SQLite's.
pub proof fn lemma_reason_origin(reason: ErrorReason)
    ensures
        is_squire_code(reason.raw_code()) <==> (reason is Fetch || reason is Parameter
            || reason is Row),
{
    match reason {
        ErrorReason::Aborted(e) => match e {
            _ => {},
        },
        ErrorReason::Authorization(e) => match e {
            _ => {},
        },
        ErrorReason::Busy(e) => match e {
            _ => {},
        },
        ErrorReason::CantOpen(e) => match e {
            _ => {},
        },
        ErrorReason::Constraint(e) => match e {
            _ => {},
        },
        ErrorReason::Corrupt(e) => match e {
            _ => {},
        },
        ErrorReason::Error(e) => match e {
            _ => {},
        },
        ErrorReason::Io(e) => match e {
            _ => {},
        },
        ErrorReason::Locked(e) => match e {
            _ => {},
        },
        ErrorReason::ReadOnly(e) => match e {
            _ => {},
        },
        ErrorReason::Fetch(e) => match e {
            _ => {},
        },
        ErrorReason::Parameter(e) => match e {
            _ => {},
        },
        ErrorReason::Row(e) => match e {
            _ => {},
        },
    }
}

/// An error made from a reason reports that reason, and the reason's
/// category; an error made from a category reports that category.
pub proof fn lemma_error_from_reason_and_category(reason: ErrorReason, category: ErrorCategory)
    ensures
        reason_of(Error::bare(ErrorCode::with_raw(reason.raw_code())).code_spec()@) == Some(
            reason,
        ),
        category_of(Error::bare(ErrorCode::with_raw(reason.raw_code())).code_spec()@) == Some(
            reason.spec_category(),
        ),
        category_of(Error::bare(ErrorCode::with_raw(category.raw_code())).code_spec()@) == Some(
            category,
        ),
{
    lemma_reason_roundtrip(reason);
    lemma_reason_category(reason);
    lemma_category_roundtrip(category);
    ErrorCode::lemma_raw_of_with_raw(reason.raw_code());
    ErrorCode::lemma_raw_of_with_raw(category.raw_code());
}

} // verus!
