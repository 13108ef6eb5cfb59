use lib::{AnyValue, AnyValueBuffer, AnyValueBufferTrusted, Column, DataType, FloatCasts, TimeUnit};

fn no_casts() -> FloatCasts {
    FloatCasts::unused()
}

#[test]
fn column_holds_accepted_values_in_order() {
    let mut b = AnyValueBuffer::new(&DataType::Int16, 8);
    let values = vec![
        AnyValue::Int32(1),
        AnyValue::Utf8("refused".to_string()),
        AnyValue::Null,
        AnyValue::Int64(100_000),
        AnyValue::UInt8(9),
    ];
    let mut accepted = 0;
    for v in values {
        if b.add(v, &no_casts()).is_some() {
            accepted += 1;
        }
    }
    assert_eq!(accepted, 3);
    match b.into_series().column {
        Column::Int16(v) => assert_eq!(v, vec![Some(1), None, Some(9)]),
        other => panic!("unexpected column {:?}", other),
    }
}

#[test]
fn null_is_accepted_by_every_buffer_but_uint16() {
    let types = vec![
        DataType::Boolean,
        DataType::UInt8,
        DataType::UInt16,
        DataType::UInt32,
        DataType::UInt64,
        DataType::Int8,
        DataType::Int16,
        DataType::Int32,
        DataType::Int64,
        DataType::Float32,
        DataType::Float64,
        DataType::Utf8,
        DataType::Date,
        DataType::Datetime(TimeUnit::Nanoseconds, None),
        DataType::Duration(TimeUnit::Milliseconds),
        DataType::Time,
        DataType::Null,
    ];
    for t in types {
        let is_u16 = matches!(t, DataType::UInt16);
        let mut b = AnyValueBuffer::new(&t, 1);
        assert_eq!(b.add(AnyValue::Null, &no_casts()).is_some(), !is_u16, "{:?}", t);
    }
}

#[test]
fn checked_and_unchecked_adds_agree_on_matching_values() {
    let cases: Vec<(DataType, AnyValue)> = vec![
        (DataType::Boolean, AnyValue::Boolean(true)),
        (DataType::Int8, AnyValue::Int8(-8)),
        (DataType::Int32, AnyValue::Int32(i32::MIN)),
        (DataType::UInt64, AnyValue::UInt64(u64::MAX)),
        (DataType::UInt16, AnyValue::UInt16(65535)),
        (DataType::Utf8, AnyValue::Utf8("same".to_string())),
    ];
    for (t, v) in cases {
        let mut checked = AnyValueBuffer::new(&t, 1);
        assert!(checked.add(v.duplicate(), &no_casts()).is_some());
        let mut unchecked = AnyValueBufferTrusted::from_dtype(&t, 1);
        unchecked.add_unchecked_owned_physical(&v, &vec![]);
        assert_eq!(
            format!("{:?}", checked.into_series().column),
            format!("{:?}", unchecked.into_series().column)
        );
    }
}

#[test]
fn finer_unit_and_back_gives_the_count_back() {
    let mut fine = AnyValueBuffer::new(&DataType::Datetime(TimeUnit::Nanoseconds, None), 1);
    assert!(fine.add(AnyValue::Datetime(-5, TimeUnit::Milliseconds, None), &no_casts()).is_some());
    let ns = match fine.into_series().column {
        Column::Int64(v) => v[0].unwrap(),
        other => panic!("unexpected column {:?}", other),
    };
    assert_eq!(ns, -5_000_000);
    let mut coarse = AnyValueBuffer::new(&DataType::Datetime(TimeUnit::Milliseconds, None), 1);
    assert!(coarse.add(AnyValue::Datetime(ns, TimeUnit::Nanoseconds, None), &no_casts()).is_some());
    match coarse.into_series().column {
        Column::Int64(v) => assert_eq!(v, vec![Some(-5)]),
        other => panic!("unexpected column {:?}", other),
    }
}

#[test]
fn a_refused_value_leaves_the_buffer_unchanged() {
    let mut b = AnyValueBuffer::new(&DataType::Date, 1);
    assert!(b.add(AnyValue::Date(1), &no_casts()).is_some());
    let before = format!("{:?}", b);
    assert!(b.add(AnyValue::Boolean(true), &no_casts()).is_none());
    assert_eq!(format!("{:?}", b), before);
}
