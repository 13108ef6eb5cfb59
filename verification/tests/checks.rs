use lib::cast::{field_name_text, i64_to_text, u64_to_text};
use lib::{
    AnyValue, AnyValueBuffer, AnyValueBufferTrusted, Column, DataType, Field, FloatCasts, Series,
    StructArray, TimeUnit, F32, F64,
};

fn field(name: &str, dtype: DataType) -> Field {
    Field { name: name.to_string(), dtype }
}

#[test]
fn can_add_refuses_a_unit_conversion_that_overflows() {
    let b = AnyValueBuffer::new(&DataType::Datetime(TimeUnit::Nanoseconds, None), 1);
    assert!(!b.can_add(&AnyValue::Datetime(i64::MAX, TimeUnit::Milliseconds, None)));
    assert!(b.can_add(&AnyValue::Datetime(1_000, TimeUnit::Milliseconds, None)));
    assert!(b.can_add(&AnyValue::Int64(i64::MAX)));
    let d = AnyValueBuffer::new(&DataType::Duration(TimeUnit::Milliseconds), 1);
    assert!(d.can_add(&AnyValue::Duration(i64::MIN, TimeUnit::Nanoseconds)));
    let n = AnyValueBuffer::new(&DataType::Duration(TimeUnit::Nanoseconds), 1);
    assert!(!n.can_add(&AnyValue::Duration(i64::MIN, TimeUnit::Microseconds)));
}

#[test]
fn len_counts_the_values_gathered() {
    let mut b = AnyValueBuffer::new(&DataType::Binary, 1);
    assert_eq!(b.len(), 0);
    assert!(b.add(AnyValue::Null, &FloatCasts::unused()).is_some());
    assert!(b.add(AnyValue::Boolean(false), &FloatCasts::unused()).is_some());
    assert_eq!(b.len(), 2);
}

#[test]
fn accepts_checks_the_physical_type() {
    let b = AnyValueBufferTrusted::from_dtype(&DataType::Int32, 1);
    assert!(b.accepts(&AnyValue::Int32(1)));
    assert!(b.accepts(&AnyValue::Null));
    assert!(!b.accepts(&AnyValue::Int64(1)));
    let u = AnyValueBufferTrusted::from_dtype(&DataType::Utf8, 1);
    assert!(u.accepts(&AnyValue::Utf8("a".to_string())));
    assert!(!u.accepts(&AnyValue::Utf8Owned("a".to_string())));
}

#[test]
fn accepts_checks_struct_rows() {
    let dtype = DataType::Struct(vec![field("x", DataType::Int64), field("f", DataType::Float64)]);
    let b = AnyValueBufferTrusted::from_dtype(&dtype, 1);
    let fields = || vec![field("x", DataType::Int64), field("f", DataType::Float64)];
    let row = |idx: usize| {
        AnyValue::Struct(
            idx,
            StructArray {
                columns: vec![vec![AnyValue::Int64(1)], vec![AnyValue::Float64(F64 { bits: 0 })]],
            },
            fields(),
        )
    };
    assert!(b.accepts(&row(0)));
    assert!(!b.accepts(&row(1)));
    // a field value that its field buffer converts through a floating-point cast is taken
    let mixed = AnyValue::Struct(
        0,
        StructArray { columns: vec![vec![AnyValue::Int64(1)], vec![AnyValue::Int64(2)]] },
        vec![field("x", DataType::Int64), field("f", DataType::Int64)],
    );
    assert!(b.accepts(&mixed));
}

#[test]
fn struct_field_buffers_use_the_casts_of_each_field() {
    let dtype = DataType::Struct(vec![field("i", DataType::Int64), field("f", DataType::Float64)]);
    let mut b = AnyValueBufferTrusted::from_dtype(&dtype, 1);
    let row = AnyValue::Struct(
        0,
        StructArray {
            columns: vec![vec![AnyValue::Float64(F64 { bits: 2.75f64.to_bits() })], vec![AnyValue::Int64(2)]],
        },
        vec![field("i", DataType::Float64), field("f", DataType::Int64)],
    );
    assert!(b.accepts(&row));
    let casts = vec![
        FloatCasts {
            truncated: Some(2),
            to_f32: F32 { bits: 2.75f32.to_bits() },
            to_f64: F64 { bits: 2.75f64.to_bits() },
            text: "2.75".to_string(),
        },
        FloatCasts {
            truncated: None,
            to_f32: F32 { bits: 2.0f32.to_bits() },
            to_f64: F64 { bits: 2.0f64.to_bits() },
            text: String::new(),
        },
    ];
    b.add_unchecked_owned_physical(&row, &casts);
    match b.into_series().column {
        Column::Fields(children) => {
            match &children[0].column {
                Column::Int64(v) => assert_eq!(v, &vec![Some(2)]),
                other => panic!("unexpected column {:?}", other),
            }
            match &children[1].column {
                Column::Float64(v) => assert_eq!(v, &vec![Some(F64 { bits: 2.0f64.to_bits() })]),
                other => panic!("unexpected column {:?}", other),
            }
        }
        other => panic!("unexpected column {:?}", other),
    }
}

#[test]
fn static_values_own_their_text_and_rows() {
    let v = AnyValue::Utf8("t".to_string());
    assert!(matches!(v.into_static(), AnyValue::Utf8Owned(t) if t == "t"));
    let bad = AnyValue::Struct(
        3,
        StructArray { columns: vec![vec![AnyValue::Int32(1)]] },
        vec![field("a", DataType::Int32)],
    );
    assert!(!bad.is_static_ok());
    let good = AnyValue::Struct(
        0,
        StructArray { columns: vec![vec![AnyValue::Int32(1)]] },
        vec![field("a", DataType::Date)],
    );
    assert!(good.is_static_ok());
    match good.to_static() {
        AnyValue::StructOwned(vals, fs) => {
            assert!(matches!(vals[0], AnyValue::Date(1)));
            assert_eq!(fs[0].name, "a");
        }
        other => panic!("unexpected value {:?}", other),
    }
}

#[test]
fn physical_types_of_logical_types() {
    let dt = DataType::Struct(vec![
        field("d", DataType::Date),
        field("l", DataType::List(Box::new(DataType::Time))),
        field("s", DataType::Utf8),
    ]);
    match dt.to_physical() {
        DataType::Struct(fs) => {
            assert!(matches!(fs[0].dtype, DataType::Int32));
            assert!(matches!(&fs[1].dtype, DataType::List(inner) if matches!(**inner, DataType::Int64)));
            assert!(matches!(fs[2].dtype, DataType::Utf8));
            assert_eq!(fs[2].name, "s");
        }
        other => panic!("unexpected type {:?}", other),
    }
    assert!(matches!(DataType::Duration(TimeUnit::Nanoseconds).to_physical(), DataType::Int64));
    assert!(matches!(DataType::Datetime(TimeUnit::Nanoseconds, None).to_physical(), DataType::Int64));
}

#[test]
fn list_and_binary_values_in_buffers_of_any_values() {
    let inner = Series {
        name: "item".to_string(),
        dtype: DataType::Int64,
        column: Column::Int64(vec![Some(1), None]),
    };
    let mut b = AnyValueBuffer::new(&DataType::List(Box::new(DataType::Int64)), 1);
    assert!(b.add(AnyValue::List(inner.duplicate()), &FloatCasts::unused()).is_some());
    match b.into_series().column {
        Column::Values(v) => match &v[0] {
            AnyValue::List(s) => match &s.column {
                Column::Int64(items) => assert_eq!(items, &vec![Some(1), None]),
                other => panic!("unexpected column {:?}", other),
            },
            other => panic!("unexpected value {:?}", other),
        },
        other => panic!("unexpected column {:?}", other),
    }
    let mut t = AnyValueBufferTrusted::from_dtype(&DataType::Binary, 1);
    t.add_unchecked_owned_physical(&AnyValue::Binary(vec![1, 2, 3]), &vec![]);
    match t.into_series().column {
        Column::Values(v) => assert!(matches!(&v[0], AnyValue::BinaryOwned(b) if b == &vec![1u8, 2, 3])),
        other => panic!("unexpected column {:?}", other),
    }
}

#[test]
fn integers_are_written_as_decimal_text() {
    assert_eq!(i64_to_text(0), "0");
    assert_eq!(i64_to_text(7), "7");
    assert_eq!(i64_to_text(-5), "-5");
    assert_eq!(i64_to_text(1_234_567_890), "1234567890");
    assert_eq!(i64_to_text(i64::MAX), "9223372036854775807");
    assert_eq!(i64_to_text(i64::MIN), "-9223372036854775808");
    assert_eq!(u64_to_text(u64::MAX), "18446744073709551615");
    assert_eq!(u64_to_text(10), "10");
    assert_eq!(field_name_text(0), "field_0");
    assert_eq!(field_name_text(12), "field_12");
}

#[test]
fn int64_into_text_buffer_is_written_in_decimal() {
    let mut b = AnyValueBuffer::new(&DataType::Utf8, 2);
    assert!(b.add(AnyValue::Int64(-42), &FloatCasts::unused()).is_some());
    assert!(b.add(AnyValue::Int64(1000), &FloatCasts::unused()).is_some());
    match b.into_series().column {
        Column::Utf8(v) => assert_eq!(v, vec![Some("-42".to_string()), Some("1000".to_string())]),
        other => panic!("unexpected column {:?}", other),
    }
}

#[test]
fn finishable_checks_field_lengths() {
    let dtype = DataType::Struct(vec![field("a", DataType::Int32), field("b", DataType::UInt8)]);
    let mut b = AnyValueBufferTrusted::from_dtype(&dtype, 1);
    assert!(b.finishable());
    let row = AnyValue::Struct(
        0,
        StructArray { columns: vec![vec![AnyValue::Int32(1)], vec![AnyValue::UInt8(2)]] },
        vec![field("a", DataType::Int32), field("b", DataType::UInt8)],
    );
    // the UInt8 field buffer refuses the value, so the field buffers drift apart
    b.add_unchecked_owned_physical(&row, &vec![FloatCasts::unused(), FloatCasts::unused()]);
    assert!(!b.finishable());
    assert!(AnyValueBufferTrusted::from_dtype(&DataType::Int64, 1).finishable());
}

#[test]
fn trusted_add_keeps_what_was_held() {
    let dtype = DataType::Struct(vec![field("a", DataType::Int32), field("b", DataType::Int64)]);
    let mut b = AnyValueBufferTrusted::from_dtype(&dtype, 2);
    b.add_unchecked_owned_physical(&AnyValue::Null, &vec![]);
    let row = AnyValue::Struct(
        0,
        StructArray { columns: vec![vec![AnyValue::Int32(4)], vec![AnyValue::Int64(9)]] },
        vec![field("a", DataType::Int32), field("b", DataType::Int64)],
    );
    b.add_unchecked_owned_physical(&row, &vec![FloatCasts::unused(), FloatCasts::unused()]);
    match &b {
        AnyValueBufferTrusted::Struct(subs) => {
            assert_eq!(subs.len(), 2);
            assert!(matches!(subs[0], AnyValueBuffer::Int32(_)));
            assert!(matches!(subs[1], AnyValueBuffer::Int64(_)));
        }
        other => panic!("unexpected buffer {:?}", other),
    }
    match b.into_series().column {
        Column::Fields(children) => {
            match &children[0].column {
                Column::Int32(v) => assert_eq!(v, &vec![None, Some(4)]),
                other => panic!("unexpected column {:?}", other),
            }
            match &children[1].column {
                Column::Int64(v) => assert_eq!(v, &vec![None, Some(9)]),
                other => panic!("unexpected column {:?}", other),
            }
        }
        other => panic!("unexpected column {:?}", other),
    }
}
