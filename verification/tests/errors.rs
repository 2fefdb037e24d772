use core::mem::size_of;

use squire::error::ErrorContext;
use squire::{
    BusyError, Error, ErrorCategory, ErrorCode, ErrorMessage, ErrorReason, FetchError,
    IntegrationError, ParameterError, RowError,
};

#[test]
fn integration_error_size() {
    assert!(
        size_of::<IntegrationError>() <= 2 * size_of::<usize>(),
        "size of IntegrationError ({}) should be ≤ 2 words",
        size_of::<IntegrationError>(),
    );
}

#[test]
fn error_code_rejects_zero() {
    assert!(ErrorCode::new(0).is_none());
    assert_eq!(ErrorCode::new(5).unwrap().raw(), 5);
}

#[test]
fn error_code_origin() {
    assert!(ErrorCode::new(5).unwrap().is_sqlite());
    assert!(!ErrorCode::new(5).unwrap().is_squire());
    assert!(ErrorCode::new(0x01c2).unwrap().is_squire());
    assert!(!ErrorCode::new(0x01c2).unwrap().is_sqlite());
}

#[test]
fn error_code_names() {
    assert_eq!(ErrorCode::new(5).unwrap().name(), Some("SQLITE_BUSY"));
    assert_eq!(ErrorCode::new(0x0105).unwrap().name(), Some("SQLITE_BUSY_RECOVERY"));
    assert_eq!(ErrorCode::new(0x0a13).unwrap().name(), Some("SQLITE_CONSTRAINT_ROWID"));
    assert_eq!(ErrorCode::new(0x01c2).unwrap().name(), Some("SQUIRE_ERROR_PARAMETER_BIND"));
    assert_eq!(ErrorCode::new(0x00c0).unwrap().name(), Some("SQUIRE_ERROR"));
    assert_eq!(ErrorCode::new(0x04c2).unwrap().name(), None);
    assert_eq!(ErrorCode::new(0x04d2).unwrap().name(), None);
}

#[test]
fn error_code_text() {
    assert_eq!(ErrorCode::new(5).unwrap().to_string(), "SQLITE_BUSY");
    assert_eq!(ErrorCode::new(0x04d2).unwrap().to_string(), "0x04d2");
    assert_eq!(ErrorCode::new(0x7f).unwrap().to_string(), "0x007f");
    assert_eq!(ErrorCode::new(0x3f).unwrap().to_string(), "0x003f");
    assert_eq!(ErrorCode::new(0x12345).unwrap().to_string(), "0x12345");
    assert_eq!(ErrorCode::new(-1).unwrap().to_string(), "0xffffffff");
}

#[test]
fn error_code_squire_descriptions() {
    assert_eq!(
        ErrorCode::new(0x01c1).unwrap().squire_description(),
        Some("error parsing column value")
    );
    assert_eq!(
        ErrorCode::new(0x04c2).unwrap().squire_description(),
        Some("parameter index must be > 0")
    );
    assert_eq!(ErrorCode::new(5).unwrap().squire_description(), None);
    assert_eq!(ErrorCode::new(0x00c0).unwrap().squire_description(), None);
}

#[test]
fn error_code_default_is_generic_error() {
    assert_eq!(ErrorCode::default().raw(), 1);
}

#[test]
fn category_of_codes() {
    assert_eq!(ErrorCategory::from_raw_code(5), Some(ErrorCategory::Busy));
    assert_eq!(ErrorCategory::from_raw_code(0x0105), Some(ErrorCategory::Busy));
    assert_eq!(ErrorCategory::from_raw_code(0x02c1), Some(ErrorCategory::Fetch));
    assert_eq!(ErrorCategory::from_raw_code(0x01c3), Some(ErrorCategory::Row));
    assert_eq!(ErrorCategory::from_raw_code(0x00c0), None);
    assert_eq!(ErrorCategory::from_raw_code(0x40), None);
    assert_eq!(ErrorCategory::Busy.code().raw(), 5);
    assert_eq!(ErrorCategory::Parameter.code().raw(), 0x00c2);
}

#[test]
fn reason_of_codes() {
    assert_eq!(
        ErrorReason::from_raw_code(0x0105),
        Some(ErrorReason::Busy(BusyError::Recovery))
    );
    assert_eq!(ErrorReason::from_raw_code(5), None);
    assert_eq!(
        ErrorReason::from_raw_code(0x04c2),
        Some(ErrorReason::Parameter(ParameterError::InvalidIndex))
    );
    assert_eq!(
        ErrorReason::from_raw_code(0x01c3),
        Some(ErrorReason::Row(RowError::NotReturned))
    );
    assert_eq!(ErrorReason::Busy(BusyError::Timeout).code().raw(), 0x0305);
    assert_eq!(ErrorReason::Fetch(FetchError::Range).code().raw(), 0x02c1);
}

#[test]
fn reason_category_follows_code() {
    let reason = ErrorReason::Busy(BusyError::Snapshot);
    assert_eq!(reason.category(), ErrorCategory::Busy);
    assert_eq!(ErrorCategory::from_code(reason.code()), Some(reason.category()));
    let reason = ErrorReason::Row(RowError::NotReturned);
    assert_eq!(reason.category(), ErrorCategory::Row);
    assert_eq!(ErrorReason::from_code(reason.code()), Some(reason));
}

#[test]
fn error_from_reason_reports_it() {
    let reason = ErrorReason::Busy(BusyError::Timeout);
    let error = Error::from(reason);
    assert_eq!(error.reason(), Some(reason));
    assert_eq!(error.category(), Some(ErrorCategory::Busy));
    assert!(error.is_sqlite());

    let error = Error::from(ErrorCategory::Constraint);
    assert_eq!(error.category(), Some(ErrorCategory::Constraint));
    assert_eq!(error.reason(), None);
}

#[test]
fn error_from_integer() {
    assert_eq!(Error::from(5).code().raw(), 5);
    assert_eq!(Error::from(0).code().raw(), 1);
    assert_eq!(Error::default().code().raw(), 1);
    assert!(Error::from_code(0).is_none());
    assert_eq!(Error::from_code(19).unwrap().category(), Some(ErrorCategory::Constraint));
}

#[test]
fn error_from_result_keeps_message() {
    assert!(Error::from_result(0, Some("unused".to_owned())).is_none());
    let error = Error::from_result(5, Some("database is locked".to_owned())).unwrap();
    assert_eq!(error.code().raw(), 5);
    assert_eq!(error.message(), Some("database is locked"));
    assert!(error.source_location().is_none());
    let error = Error::from_result(5, None).unwrap();
    assert_eq!(error.message(), None);
}

#[test]
fn error_from_prepare_result_keeps_location() {
    let sql = "SELECT nonsense FROM";
    let error = Error::from_prepare_result(1, Some("incomplete input".to_owned()), 7).unwrap();
    let location = error.source_location().unwrap();
    assert_eq!(location.offset(), 7);
    assert_eq!(location.prefix(sql), "SELECT ");
    assert_eq!(error.message(), Some("incomplete input"));

    let error = Error::from_prepare_result(1, Some("incomplete input".to_owned()), -1).unwrap();
    assert!(error.source_location().is_none());
    assert_eq!(error.message(), Some("incomplete input"));

    let error = Error::from_prepare_result(1, None, 7).unwrap();
    assert!(error.source_location().is_none());
    assert!(Error::from_prepare_result(0, None, 7).is_none());
}

#[test]
fn error_text_for_sqlite_errors() {
    let error = Error::from_result(5, Some("table is busy".to_owned())).unwrap();
    assert_eq!(error.describe("database is locked"), "table is busy [SQLITE_BUSY]");
    let error = Error::from_code(5).unwrap();
    assert_eq!(error.describe("database is locked"), "database is locked [SQLITE_BUSY]");
    let error = Error::from_code(0x3f).unwrap();
    assert_eq!(error.describe("unknown error"), "unknown error [0x003f]");
}

#[test]
fn error_text_for_squire_errors() {
    let error = Error::bind("value too large");
    assert_eq!(
        error.describe("unknown error"),
        "error binding parameter value: value too large"
    );
    let error = Error::resolve("no such parameter");
    assert_eq!(
        error.describe("unknown error"),
        "error resolving parameter index: no such parameter"
    );
    assert_eq!(Error::row_not_returned().describe("unknown error"), "unknown error");
    let error = Error::fetch(FetchError::Range, "too big");
    assert_eq!(error.describe("unknown error"), "column value out of range: too big");
}

#[test]
fn squire_error_constructors() {
    assert_eq!(Error::bind("x").reason(), Some(ErrorReason::Parameter(ParameterError::Bind)));
    assert_eq!(
        Error::resolve("x").reason(),
        Some(ErrorReason::Parameter(ParameterError::Resolve))
    );
    assert_eq!(
        Error::fetch(FetchError::Parse, "x").reason(),
        Some(ErrorReason::Fetch(FetchError::Parse))
    );
    assert_eq!(
        Error::row_not_returned().reason(),
        Some(ErrorReason::Row(RowError::NotReturned))
    );
    assert!(Error::row_not_returned().is_squire());
    assert_eq!(Error::misuse().code().raw(), 21);
    assert_eq!(Error::range().code().raw(), 25);
    assert_eq!(Error::too_big().code().raw(), 18);
}

#[test]
fn integration_errors() {
    let parse = url::Url::parse("no scheme").unwrap_err();
    let integration = IntegrationError::from(parse);
    assert!(integration.is_url());
    assert!(!integration.is_jiff());
    assert_eq!(integration.as_url(), Some(&parse));

    let error = Error::from_bind(integration.clone());
    assert!(error.is_integration());
    assert!(error.is_squire());
    assert_eq!(error.reason(), Some(ErrorReason::Parameter(ParameterError::Bind)));
    assert!(error.as_integration().unwrap().is_url());

    let jiff_error = jiff::Timestamp::from_second(i64::MAX).unwrap_err();
    let error = Error::from_fetch(IntegrationError::from(jiff_error));
    assert_eq!(error.reason(), Some(ErrorReason::Fetch(FetchError::Parse)));
    assert!(error.as_integration().unwrap().is_jiff());
    assert!(error.as_integration().unwrap().as_jiff().is_some());
    assert!(!Error::bind("x").is_integration());
}

#[test]
fn error_messages() {
    let message = ErrorMessage::new("disk full");
    assert_eq!(message.as_str(), "disk full");
    assert_eq!(message.message(13), "disk full");
    assert_eq!(ErrorMessage::constant("static").as_str(), "static");
    assert_eq!(ErrorMessage::formatted("owned".to_owned()).into_string(), "owned");
    assert_eq!(ErrorMessage::from("from".to_owned()).as_str(), "from");
}

#[test]
fn error_containers_share_their_error() {
    let container = squire::ErrorContainer::new(String::from("not cloneable"));
    let copy = container.clone();
    assert_eq!(copy.as_ref(), "not cloneable");
    assert!(std::rc::Rc::ptr_eq(&container.0, &copy.0));
}

#[test]
fn locations_cut_at_character_boundaries() {
    let sql = "SELECT 'é' FRM t";
    let error = Error::from_prepare_result(1, Some("near \"FRM\"".to_owned()), 12).unwrap();
    let location = error.source_location().unwrap();
    assert_eq!(location.prefix(sql), "SELECT 'é' ");
}

#[test]
fn error_context_of_located_messages() {
    let message = ErrorMessage::new("no such table");
    let context: (ErrorMessage, Option<squire::ErrorLocation>) = (message.clone(), None);
    assert_eq!(context.message(1), "no such table");
}

#[test]
fn error_code_debug_is_a_tuple() {
    assert_eq!(format!("{:?}", ErrorCode::new(5).unwrap()), "ErrorCode(5)");
}

#[test]
fn error_message_debug_shows_the_text() {
    assert_eq!(format!("{:?}", ErrorMessage::constant("disk full")), "ErrorMessage(\"disk full\")");
    assert!(ErrorMessage::new("a") < ErrorMessage::constant("b"));
    assert_eq!(ErrorMessage::new("same"), ErrorMessage::constant("same"));
}
