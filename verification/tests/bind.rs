use squire::{Bind, ErrorReason, ParameterError, Reservation, RowId};

#[test]
fn integers_bind_widened() {
    assert_eq!(Bind::into_bind_value(-5i8).unwrap(), -5i32);
    assert_eq!(Bind::into_bind_value(200u8).unwrap(), 200i32);
    assert_eq!(Bind::into_bind_value(-300i16).unwrap(), -300i32);
    assert_eq!(Bind::into_bind_value(60000u16).unwrap(), 60000i32);
    assert_eq!(Bind::into_bind_value(7i32).unwrap(), 7i32);
    assert_eq!(Bind::into_bind_value(4_000_000_000u32).unwrap(), 4_000_000_000i64);
    assert_eq!(Bind::into_bind_value(-9i64).unwrap(), -9i64);
    assert_eq!(Bind::into_bind_value(-9isize).unwrap(), -9i64);
}

#[test]
fn large_unsigned_values_fail() {
    assert_eq!(Bind::into_bind_value(i64::MAX as u64).unwrap(), i64::MAX);
    let error = Bind::into_bind_value(i64::MAX as u64 + 1).unwrap_err();
    assert_eq!(error.reason(), Some(ErrorReason::Parameter(ParameterError::Bind)));
    assert_eq!(error.message(), Some("u64 value cannot fit in i64 parameter"));
    assert_eq!(Bind::into_bind_value(12usize).unwrap(), 12i64);
}

#[test]
fn booleans_and_characters() {
    assert_eq!(Bind::into_bind_value(true).unwrap(), 1);
    assert_eq!(Bind::into_bind_value(false).unwrap(), 0);
    assert_eq!(Bind::into_bind_value('A').unwrap(), 65);
    assert_eq!(Bind::into_bind_value('é').unwrap(), 0xe9);
}

#[test]
fn row_ids_and_identities() {
    assert_eq!(Bind::into_bind_value(RowId::new(3).unwrap()).unwrap(), 3i64);
    assert_eq!(Bind::into_bind_value("text").unwrap(), "text");
    assert_eq!(Bind::into_bind_value("owned".to_owned()).unwrap(), "owned");
    assert_eq!(Bind::into_bind_value(vec![1u8, 2]).unwrap(), vec![1u8, 2]);
    assert_eq!(Bind::into_bind_value(&[3u8][..]).unwrap(), &[3u8][..]);
    assert_eq!(Bind::into_bind_value(Reservation::new(4)).unwrap(), Reservation::new(4));
}

#[test]
fn options_bind_null_or_value() {
    assert_eq!(Bind::into_bind_value(None::<i32>).unwrap(), None);
    assert_eq!(Bind::into_bind_value(Some(5u8)).unwrap(), Some(5i32));
    assert!(Bind::into_bind_value(Some(u64::MAX)).is_err());
}

#[test]
fn large_usize_values_fail_with_message() {
    if usize::BITS == 64 {
        let error = Bind::into_bind_value(usize::MAX).unwrap_err();
        assert_eq!(error.reason(), Some(ErrorReason::Parameter(ParameterError::Bind)));
        assert_eq!(error.message(), Some("usize value cannot fit in i64 parameter"));
    }
}
