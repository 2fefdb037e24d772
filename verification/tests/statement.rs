use squire::statement::{check_call, execute_step, prepare_outcome, query_length, row_step};
use squire::{
    BindIndex, ColumnIndex, ErrorReason, ParameterError, PrepareOptions, StatementColumns,
    StatementParameters,
};

#[test]
fn prepare_options_flags() {
    assert_eq!(PrepareOptions::transient().into_inner(), 0);
    assert_eq!(PrepareOptions::persistent().into_inner(), 0x01);
    let options = PrepareOptions::persistent().allow_virtual_tables(false);
    assert_eq!(options.into_inner(), 0x05);
    assert_eq!(options.allow_virtual_tables(true).into_inner(), 0x01);
    assert_eq!(options.log(false).into_inner(), 0x15);
    assert_eq!(options.log(false).log(true).into_inner(), 0x05);
    assert_eq!(PrepareOptions::transient().log(true).into_inner(), 0);
}

#[test]
fn prepare_options_settings_commute() {
    let base = PrepareOptions::persistent();
    for vtab in [false, true] {
        for log in [false, true] {
            let a = base.allow_virtual_tables(vtab).log(log);
            let b = base.log(log).allow_virtual_tables(vtab);
            assert_eq!(a.into_inner(), b.into_inner());
            assert_eq!(a.into_inner() & 0x01, 0x01);
        }
    }
}

fn parameters() -> StatementParameters {
    StatementParameters::new(vec![
        Some(":id".to_owned()),
        None,
        Some("@name".to_owned()),
        Some(":id".to_owned()),
    ])
}

#[test]
fn parameter_names() {
    let parameters = parameters();
    assert_eq!(parameters.len(), 4);
    assert_eq!(parameters.name(BindIndex::new(1).unwrap()), Some(":id"));
    assert_eq!(parameters.name(BindIndex::new(2).unwrap()), None);
    assert_eq!(parameters.name(BindIndex::new(3).unwrap()), Some("@name"));
    assert_eq!(parameters.name(BindIndex::new(5).unwrap()), None);
}

#[test]
fn parameter_index_finds_first_match() {
    let parameters = parameters();
    assert_eq!(parameters.index(":id").map(|i| i.value()), Some(1));
    assert_eq!(parameters.index("@name").map(|i| i.value()), Some(3));
    assert_eq!(parameters.index("missing"), None);
    assert_eq!(parameters.index(""), None);
}

#[test]
fn parameter_iteration() {
    let parameters = parameters();
    let mut iter = parameters.iter();
    let mut seen = Vec::new();
    while let Some(index) = iter.next() {
        seen.push(index.value());
    }
    assert_eq!(seen, vec![1, 2, 3, 4]);
    assert!(iter.next().is_none());

    let empty = StatementParameters::new(Vec::new());
    assert!(empty.iter().next().is_none());
}

#[test]
fn column_names_and_iteration() {
    let columns = StatementColumns::new(vec![
        Some("id".to_owned()),
        Some("name".to_owned()),
        Some("id".to_owned()),
    ]);
    assert_eq!(columns.len(), 3);
    assert_eq!(columns.name(ColumnIndex::new(1)), Some("name"));
    assert_eq!(columns.name(ColumnIndex::new(3)), None);
    assert_eq!(columns.index("id").map(|i| i.value()), Some(0));
    assert_eq!(columns.index("name").map(|i| i.value()), Some(1));
    assert_eq!(columns.index("email"), None);

    let mut iter = columns.iter();
    let mut seen = Vec::new();
    while let Some(index) = iter.next() {
        seen.push(index.value());
    }
    assert_eq!(seen, vec![0, 1, 2]);
    assert!(StatementColumns::new(Vec::new()).iter().next().is_none());
}

#[test]
fn stepping_to_rows() {
    assert!(row_step(100, None).unwrap());
    assert!(!row_step(101, None).unwrap());
    assert!(!row_step(0, None).unwrap());
    let error = row_step(5, Some("database is locked".to_owned())).unwrap_err();
    assert_eq!(error.code().raw(), 5);
    assert_eq!(error.message(), Some("database is locked"));
}

#[test]
fn stepping_to_completion() {
    assert!(execute_step(101, None).is_ok());
    assert_eq!(execute_step(100, None).unwrap_err().code().raw(), 21);
    let error = execute_step(19, Some("UNIQUE constraint failed".to_owned())).unwrap_err();
    assert_eq!(error.code().raw(), 19);
    assert_eq!(error.message(), Some("UNIQUE constraint failed"));
    assert_eq!(execute_step(0, None).unwrap_err().code().raw(), 1);
}

#[test]
fn call_results() {
    assert!(check_call(0).is_ok());
    assert_eq!(check_call(7).unwrap_err().code().raw(), 7);
}

#[test]
fn query_lengths() {
    assert_eq!(query_length(12).unwrap(), 12);
    assert_eq!(query_length(0x7fff_ffff).unwrap(), i32::MAX);
    let error = query_length(0x8000_0000).unwrap_err();
    assert_eq!(error.code().raw(), 18);
    assert_eq!(
        squire::BindIndex::new(0).unwrap_err().reason(),
        Some(ErrorReason::Parameter(ParameterError::InvalidIndex))
    );
}

#[test]
fn preparing_statements() {
    assert!(prepare_outcome(0, true, None, -1).is_ok());
    assert_eq!(prepare_outcome(0, false, None, -1).unwrap_err().code().raw(), 1);
    let error = prepare_outcome(1, false, Some("near \"SELEC\": syntax error".to_owned()), 0)
        .unwrap_err();
    assert_eq!(error.code().raw(), 1);
    assert_eq!(error.message(), Some("near \"SELEC\": syntax error"));
    assert_eq!(error.source_location().unwrap().offset(), 0);
    let error = prepare_outcome(1, false, None, 4).unwrap_err();
    assert!(error.source_location().is_none());
}
