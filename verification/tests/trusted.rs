use lib::{
    AnyValue, AnyValueBuffer, AnyValueBufferTrusted, Column, DataType, Field, FloatCasts, StructArray,
    TimeUnit, F32, F64,
};

fn field(name: &str, dtype: DataType) -> Field {
    Field { name: name.to_string(), dtype }
}

#[test]
fn trusted_buffer_stores_matching_values_as_they_are() {
    let mut b = AnyValueBufferTrusted::from_dtype(&DataType::Int64, 2);
    b.add_unchecked_owned_physical(&AnyValue::Int64(-3), &vec![]);
    b.add_unchecked_owned_physical(&AnyValue::Null, &vec![]);
    let s = b.into_series();
    assert!(matches!(s.dtype, DataType::Int64));
    match s.column {
        Column::Int64(v) => assert_eq!(v, vec![Some(-3), None]),
        other => panic!("unexpected column {:?}", other),
    }

    let mut b = AnyValueBufferTrusted::from_dtype(&DataType::Utf8, 2);
    b.add_unchecked_owned_physical(&AnyValue::Utf8("hi".to_string()), &vec![]);
    match b.into_series().column {
        Column::Utf8(v) => assert_eq!(v, vec![Some("hi".to_string())]),
        other => panic!("unexpected column {:?}", other),
    }

    let mut b = AnyValueBufferTrusted::from_dtype(&DataType::Float32, 2);
    b.add_unchecked_owned_physical(&AnyValue::Float32(F32 { bits: 1.25f32.to_bits() }), &vec![]);
    match b.into_series().column {
        Column::Float32(v) => assert_eq!(v, vec![Some(F32 { bits: 1.25f32.to_bits() })]),
        other => panic!("unexpected column {:?}", other),
    }
}

#[test]
fn trusted_buffer_of_each_primitive_type() {
    let cases: Vec<(DataType, AnyValue)> = vec![
        (DataType::Boolean, AnyValue::Boolean(true)),
        (DataType::Int8, AnyValue::Int8(-1)),
        (DataType::Int16, AnyValue::Int16(-2)),
        (DataType::Int32, AnyValue::Int32(-3)),
        (DataType::UInt8, AnyValue::UInt8(1)),
        (DataType::UInt16, AnyValue::UInt16(2)),
        (DataType::UInt32, AnyValue::UInt32(3)),
        (DataType::UInt64, AnyValue::UInt64(4)),
        (DataType::Float64, AnyValue::Float64(F64 { bits: 7 })),
    ];
    for (dtype, value) in cases {
        let mut b = AnyValueBufferTrusted::from_dtype(&dtype, 1);
        b.add_unchecked_owned_physical(&value, &vec![]);
        b.add_unchecked_owned_physical(&AnyValue::Null, &vec![]);
        let s = b.into_series();
        assert_eq!(format!("{:?}", s.dtype), format!("{:?}", dtype));
        let shown = format!("{:?}", s.column);
        assert!(shown.contains("None"), "{}", shown);
    }
}

#[test]
fn trusted_buffer_of_any_values_reads_them_as_the_column_type() {
    let mut b = AnyValueBufferTrusted::from_dtype(&DataType::Date, 2);
    b.add_unchecked_owned_physical(&AnyValue::Int32(5), &vec![]);
    b.add_unchecked_owned_physical(&AnyValue::Date(7), &vec![]);
    let s = b.into_series();
    assert!(matches!(s.dtype, DataType::Date));
    match s.column {
        Column::Values(v) => {
            assert!(matches!(v[0], AnyValue::Date(5)));
            assert!(matches!(v[1], AnyValue::Date(7)));
        }
        other => panic!("unexpected column {:?}", other),
    }
}

#[test]
fn trusted_buffer_of_other_types_keeps_owned_values() {
    let mut b = AnyValueBufferTrusted::from_dtype(&DataType::Date, 1);
    assert!(matches!(b, AnyValueBufferTrusted::All(DataType::Date, _)));
    b.add_unchecked_owned_physical(&AnyValue::Utf8("text".to_string()), &vec![]);
    b.add_unchecked_owned_physical(&AnyValue::Null, &vec![]);
    let s = b.into_series();
    assert!(matches!(s.dtype, DataType::Date));
    match s.column {
        Column::Values(v) => {
            assert!(matches!(&v[0], AnyValue::Utf8Owned(t) if t == "text"));
            assert!(matches!(v[1], AnyValue::Null));
        }
        other => panic!("unexpected column {:?}", other),
    }
}

#[test]
fn trusted_struct_buffer_splits_rows_into_field_buffers() {
    let dtype = DataType::Struct(vec![field("a", DataType::Int32), field("d", DataType::Date)]);
    let mut b = AnyValueBufferTrusted::from_dtype(&dtype, 2);
    match &b {
        AnyValueBufferTrusted::Struct(subs) => {
            assert_eq!(subs.len(), 2);
            assert!(matches!(subs[0], AnyValueBuffer::Int32(_)));
            // a date field is stored as its physical type
            assert!(matches!(subs[1], AnyValueBuffer::Int32(_)));
        }
        other => panic!("unexpected buffer {:?}", other),
    }
    let arr = StructArray {
        columns: vec![
            vec![AnyValue::Int32(10), AnyValue::Int32(11)],
            vec![AnyValue::Int32(100), AnyValue::Int32(101)],
        ],
    };
    let fields = vec![field("a", DataType::Int32), field("d", DataType::Date)];
    b.add_unchecked_owned_physical(&AnyValue::Struct(1, arr, fields), &vec![FloatCasts::unused(), FloatCasts::unused()]);
    b.add_unchecked_owned_physical(&AnyValue::Null, &vec![]);
    let s = b.into_series();
    assert_eq!(s.name, "");
    match &s.dtype {
        DataType::Struct(fs) => {
            assert_eq!(fs.len(), 2);
            assert_eq!(fs[0].name, "field_0");
            assert_eq!(fs[1].name, "field_1");
            assert!(matches!(fs[1].dtype, DataType::Int32));
        }
        other => panic!("unexpected dtype {:?}", other),
    }
    match s.column {
        Column::Fields(children) => {
            assert_eq!(children[0].name, "field_0");
            match &children[0].column {
                Column::Int32(v) => assert_eq!(v, &vec![Some(11), None]),
                other => panic!("unexpected column {:?}", other),
            }
            match &children[1].column {
                Column::Int32(v) => assert_eq!(v, &vec![Some(101), None]),
                other => panic!("unexpected column {:?}", other),
            }
        }
        other => panic!("unexpected column {:?}", other),
    }
}

#[test]
fn owned_struct_row_reads_fields_as_their_types() {
    let mut b = AnyValueBufferTrusted::from_dtype(&DataType::Null, 1);
    let arr = StructArray {
        columns: vec![vec![AnyValue::Int64(5)], vec![AnyValue::Utf8("s".to_string())]],
    };
    let fields = vec![
        field("t", DataType::Datetime(TimeUnit::Milliseconds, None)),
        field("u", DataType::Utf8),
    ];
    b.add_unchecked_owned_physical(&AnyValue::Struct(0, arr, fields), &vec![]);
    match b.into_series().column {
        Column::Values(v) => match &v[0] {
            AnyValue::StructOwned(vals, fs) => {
                assert_eq!(fs.len(), 2);
                assert!(matches!(vals[0], AnyValue::Datetime(5, TimeUnit::Milliseconds, None)));
                assert!(matches!(&vals[1], AnyValue::Utf8Owned(s) if s == "s"));
            }
            other => panic!("unexpected value {:?}", other),
        },
        other => panic!("unexpected column {:?}", other),
    }
}

#[test]
fn struct_field_buffers_convert_what_they_are_given() {
    let dtype = DataType::Struct(vec![field("x", DataType::Int64)]);
    let mut b = AnyValueBufferTrusted::from_dtype(&dtype, 1);
    let arr = StructArray { columns: vec![vec![AnyValue::Int8(3)]] };
    b.add_unchecked_owned_physical(
        &AnyValue::Struct(0, arr, vec![field("x", DataType::Int8)]),
        &vec![FloatCasts::unused()],
    );
    match b.into_series().column {
        Column::Fields(children) => match &children[0].column {
            Column::Int64(v) => assert_eq!(v, &vec![Some(3)]),
            other => panic!("unexpected column {:?}", other),
        },
        other => panic!("unexpected column {:?}", other),
    }
}
