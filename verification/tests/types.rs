use squire::{BindIndex, BindIndexes, ColumnIndex, Reservation, RowId, StringRepresentation};

#[test]
fn row_ids_are_never_zero() {
    assert!(RowId::new(0).is_none());
    assert_eq!(RowId::new(42).unwrap().into_inner(), 42);
    assert_eq!(RowId::new(-7).unwrap().into_inner(), -7);
    assert!(RowId::new(1).unwrap() < RowId::new(2).unwrap());
}

#[test]
fn bind_indexes_start_at_one() {
    assert!(BindIndex::new(0).is_err());
    assert!(BindIndex::new(-3).is_err());
    assert_eq!(BindIndex::new(3).unwrap().value(), 3);
    assert_eq!(BindIndex::initial().value(), 1);
    assert_eq!(BindIndex::initial().next().value(), 2);
}

#[test]
fn column_indexes_start_at_zero() {
    assert_eq!(ColumnIndex::initial().value(), 0);
    assert_eq!(ColumnIndex::new(4).next().value(), 5);
}

#[test]
fn bind_index_runs() {
    let mut run = BindIndexes::new(BindIndex::initial());
    assert_eq!(run.next().unwrap().value(), 1);
    assert_eq!(run.next().unwrap().value(), 2);
    let mut run = BindIndexes::new(BindIndex::new(10).unwrap());
    assert_eq!(run.next().unwrap().value(), 10);
}

#[test]
fn reservations() {
    let reservation = Reservation::new(16);
    assert_eq!(reservation.len(), 16);
    assert_eq!(reservation.into_inner(), 16);
    assert_eq!(Reservation::new(-1).len(), usize::MAX);
    assert_eq!(Reservation::from(7u8).into_inner(), 7);
    assert_eq!(Reservation::from(-2i16).into_inner(), -2);
    assert_eq!(Reservation::from(9isize).len(), 9);
}

#[test]
fn string_representations() {
    assert_eq!(StringRepresentation::NullTerminated.value(), 0x43);
}

#[test]
fn row_ids_compare_by_value() {
    let (a, b) = (RowId::new(-3).unwrap(), RowId::new(8).unwrap());
    assert!(a < b);
    assert!(b > a);
    assert_eq!(a, RowId::new(-3).unwrap());
    assert_ne!(a, b);
    assert_eq!(a.max(b), b);
    assert_eq!(a.partial_cmp(&b), Some(core::cmp::Ordering::Less));
}

#[test]
fn row_id_debug_is_a_tuple() {
    assert_eq!(format!("{:?}", RowId::new(7).unwrap()), "RowId(7)");
}

#[test]
fn optional_row_ids_take_no_extra_room() {
    assert_eq!(core::mem::size_of::<RowId>(), core::mem::size_of::<i64>());
    assert_eq!(core::mem::size_of::<Option<RowId>>(), core::mem::size_of::<i64>());
}
