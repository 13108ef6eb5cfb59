use lib::{
    AnyValue, AnyValueBuffer, Column, DataType, FloatCasts, PolarsError, Series, TimeUnit, F32, F64,
};

fn no_casts() -> FloatCasts {
    FloatCasts::unused()
}

fn casts_of_f64(v: f64) -> FloatCasts {
    FloatCasts {
        truncated: if v.is_finite() { Some(v.trunc() as i128) } else { None },
        to_f32: F32 { bits: (v as f32).to_bits() },
        to_f64: F64 { bits: v.to_bits() },
        text: format!("{v}"),
    }
}

fn casts_of_int(v: i64) -> FloatCasts {
    FloatCasts {
        truncated: None,
        to_f32: F32 { bits: (v as f32).to_bits() },
        to_f64: F64 { bits: (v as f64).to_bits() },
        text: String::new(),
    }
}

fn f64v(v: f64) -> AnyValue {
    AnyValue::Float64(F64 { bits: v.to_bits() })
}

fn finish(b: AnyValueBuffer) -> Series {
    b.into_series()
}

#[test]
fn int32_buffer_converts_numbers_and_refuses_out_of_range() {
    let mut b = AnyValueBuffer::new(&DataType::Int32, 4);
    assert_eq!(b.add(AnyValue::Int64(5), &no_casts()), Some(()));
    assert_eq!(b.add(AnyValue::Null, &no_casts()), Some(()));
    assert_eq!(b.add(AnyValue::UInt8(7), &no_casts()), Some(()));
    assert_eq!(b.add(AnyValue::Boolean(true), &no_casts()), Some(()));
    assert_eq!(b.add(AnyValue::Int64(1 << 40), &no_casts()), None);
    assert_eq!(b.add(AnyValue::Utf8("3".to_string()), &no_casts()), None);
    assert_eq!(b.add(f64v(-2.75), &casts_of_f64(-2.75)), Some(()));
    assert_eq!(b.add(f64v(f64::NAN), &casts_of_f64(f64::NAN)), None);
    let s = finish(b);
    assert_eq!(s.name, "");
    assert!(matches!(s.dtype, DataType::Int32));
    match s.column {
        Column::Int32(v) => assert_eq!(v, vec![Some(5), None, Some(7), Some(1), Some(-2)]),
        other => panic!("unexpected column {:?}", other),
    }
}

#[test]
fn boolean_buffer_reads_a_byte_of_one_as_true() {
    let mut b = AnyValueBuffer::new(&DataType::Boolean, 0);
    assert_eq!(b.add(AnyValue::Boolean(false), &no_casts()), Some(()));
    assert_eq!(b.add(AnyValue::Int32(1), &no_casts()), Some(()));
    assert_eq!(b.add(AnyValue::Int32(2), &no_casts()), Some(()));
    assert_eq!(b.add(AnyValue::Int32(256), &no_casts()), None);
    assert_eq!(b.add(AnyValue::Int32(-1), &no_casts()), None);
    assert_eq!(b.add(AnyValue::Null, &no_casts()), Some(()));
    match finish(b).column {
        Column::Boolean(v) => assert_eq!(v, vec![Some(false), Some(true), Some(false), None]),
        other => panic!("unexpected column {:?}", other),
    }
}

#[test]
fn uint8_buffer_takes_only_nulls() {
    let mut b = AnyValueBuffer::new(&DataType::UInt8, 2);
    assert_eq!(b.add(AnyValue::UInt8(3), &no_casts()), None);
    assert_eq!(b.add(AnyValue::Null, &no_casts()), Some(()));
    match finish(b).column {
        Column::UInt8(v) => assert_eq!(v, vec![None]),
        other => panic!("unexpected column {:?}", other),
    }
}

#[test]
fn uint16_buffer_refuses_null() {
    let mut b = AnyValueBuffer::new(&DataType::UInt16, 2);
    assert_eq!(b.add(AnyValue::Null, &no_casts()), None);
    assert_eq!(b.add(AnyValue::Int64(65535), &no_casts()), Some(()));
    assert_eq!(b.add(AnyValue::Int64(65536), &no_casts()), None);
    match finish(b).column {
        Column::UInt16(v) => assert_eq!(v, vec![Some(65535)]),
        other => panic!("unexpected column {:?}", other),
    }
}

#[test]
fn unsigned_and_small_buffers_check_ranges() {
    let mut u32b = AnyValueBuffer::new(&DataType::UInt32, 2);
    assert_eq!(u32b.add(AnyValue::Int8(-1), &no_casts()), None);
    assert_eq!(u32b.add(AnyValue::UInt64(4_000_000_000), &no_casts()), Some(()));
    let mut u64b = AnyValueBuffer::new(&DataType::UInt64, 2);
    assert_eq!(u64b.add(AnyValue::UInt64(u64::MAX), &no_casts()), Some(()));
    assert_eq!(u64b.add(AnyValue::Int64(-5), &no_casts()), None);
    let mut i8b = AnyValueBuffer::new(&DataType::Int8, 2);
    assert_eq!(i8b.add(AnyValue::Int16(-128), &no_casts()), Some(()));
    assert_eq!(i8b.add(AnyValue::Int16(128), &no_casts()), None);
    let mut i16b = AnyValueBuffer::new(&DataType::Int16, 2);
    assert_eq!(i16b.add(AnyValue::Date(300), &no_casts()), Some(()));
    assert_eq!(i16b.add(AnyValue::Int32(40000), &no_casts()), None);
    let mut i64b = AnyValueBuffer::new(&DataType::Int64, 2);
    assert_eq!(i64b.add(AnyValue::UInt64(u64::MAX), &no_casts()), None);
    assert_eq!(i64b.add(AnyValue::Time(9), &no_casts()), Some(()));
    match finish(u32b).column {
        Column::UInt32(v) => assert_eq!(v, vec![Some(4_000_000_000)]),
        other => panic!("unexpected column {:?}", other),
    }
    match finish(u64b).column {
        Column::UInt64(v) => assert_eq!(v, vec![Some(u64::MAX)]),
        other => panic!("unexpected column {:?}", other),
    }
    match finish(i8b).column {
        Column::Int8(v) => assert_eq!(v, vec![Some(-128)]),
        other => panic!("unexpected column {:?}", other),
    }
    match finish(i16b).column {
        Column::Int16(v) => assert_eq!(v, vec![Some(300)]),
        other => panic!("unexpected column {:?}", other),
    }
    match finish(i64b).column {
        Column::Int64(v) => assert_eq!(v, vec![Some(9)]),
        other => panic!("unexpected column {:?}", other),
    }
}

#[test]
fn float_buffers_take_casts_and_keep_their_own_width() {
    let mut b = AnyValueBuffer::new(&DataType::Float64, 2);
    assert_eq!(b.add(f64v(1.5), &no_casts()), Some(()));
    assert_eq!(b.add(AnyValue::Int64(3), &casts_of_int(3)), Some(()));
    assert_eq!(b.add(AnyValue::Utf8("x".to_string()), &no_casts()), None);
    assert_eq!(b.add(AnyValue::Null, &no_casts()), Some(()));
    match finish(b).column {
        Column::Float64(v) => assert_eq!(
            v,
            vec![Some(F64 { bits: 1.5f64.to_bits() }), Some(F64 { bits: 3.0f64.to_bits() }), None]
        ),
        other => panic!("unexpected column {:?}", other),
    }
    let mut b = AnyValueBuffer::new(&DataType::Float32, 2);
    assert_eq!(b.add(AnyValue::Float32(F32 { bits: 2.5f32.to_bits() }), &no_casts()), Some(()));
    assert_eq!(b.add(f64v(0.1), &casts_of_f64(0.1)), Some(()));
    match finish(b).column {
        Column::Float32(v) => {
            assert_eq!(v, vec![Some(F32 { bits: 2.5f32.to_bits() }), Some(F32 { bits: 0.1f32.to_bits() })])
        }
        other => panic!("unexpected column {:?}", other),
    }
}

#[test]
fn utf8_buffer_writes_numbers_and_booleans_as_text() {
    let mut b = AnyValueBuffer::new(&DataType::Utf8, 2);
    assert_eq!(b.add(AnyValue::Utf8("a".to_string()), &no_casts()), Some(()));
    assert_eq!(b.add(AnyValue::Utf8Owned("b".to_string()), &no_casts()), Some(()));
    assert_eq!(b.add(AnyValue::Null, &no_casts()), Some(()));
    assert_eq!(b.add(AnyValue::Int64(-42), &no_casts()), Some(()));
    assert_eq!(b.add(f64v(2.5), &casts_of_f64(2.5)), Some(()));
    assert_eq!(b.add(AnyValue::Boolean(true), &no_casts()), Some(()));
    assert_eq!(b.add(AnyValue::Boolean(false), &no_casts()), Some(()));
    assert_eq!(b.add(AnyValue::Int32(1), &no_casts()), None);
    match finish(b).column {
        Column::Utf8(v) => assert_eq!(
            v,
            vec![
                Some("a".to_string()),
                Some("b".to_string()),
                None,
                Some("-42".to_string()),
                Some("2.5".to_string()),
                Some("true".to_string()),
                Some("false".to_string()),
            ]
        ),
        other => panic!("unexpected column {:?}", other),
    }
}

#[test]
fn temporal_buffers_take_their_own_type_and_convert_units() {
    let mut d = AnyValueBuffer::new(&DataType::Date, 1);
    assert_eq!(d.add(AnyValue::Date(19000), &no_casts()), Some(()));
    assert_eq!(d.add(AnyValue::Int32(19000), &no_casts()), None);
    let s = finish(d);
    assert!(matches!(s.dtype, DataType::Date));
    match s.column {
        Column::Int32(v) => assert_eq!(v, vec![Some(19000)]),
        other => panic!("unexpected column {:?}", other),
    }

    let tz = Some("UTC".to_string());
    let mut dt = AnyValueBuffer::new(&DataType::Datetime(TimeUnit::Milliseconds, tz.clone()), 1);
    assert_eq!(dt.add(AnyValue::Datetime(1_500_000, TimeUnit::Microseconds, None), &no_casts()), Some(()));
    assert_eq!(dt.add(AnyValue::Datetime(-1_999_999, TimeUnit::Nanoseconds, None), &no_casts()), Some(()));
    assert_eq!(dt.add(AnyValue::Datetime(7, TimeUnit::Milliseconds, None), &no_casts()), Some(()));
    assert_eq!(dt.add(AnyValue::Int64(7), &no_casts()), None);
    assert_eq!(dt.add(AnyValue::Null, &no_casts()), Some(()));
    let s = finish(dt);
    match &s.dtype {
        DataType::Datetime(TimeUnit::Milliseconds, Some(z)) => assert_eq!(z, "UTC"),
        other => panic!("unexpected dtype {:?}", other),
    }
    match s.column {
        Column::Int64(v) => assert_eq!(v, vec![Some(1500), Some(-1), Some(7), None]),
        other => panic!("unexpected column {:?}", other),
    }

    let mut du = AnyValueBuffer::new(&DataType::Duration(TimeUnit::Nanoseconds), 1);
    assert_eq!(du.add(AnyValue::Duration(3, TimeUnit::Milliseconds), &no_casts()), Some(()));
    assert_eq!(du.add(AnyValue::Duration(3, TimeUnit::Microseconds), &no_casts()), Some(()));
    match finish(du).column {
        Column::Int64(v) => assert_eq!(v, vec![Some(3_000_000), Some(3_000)]),
        other => panic!("unexpected column {:?}", other),
    }

    let mut t = AnyValueBuffer::new(&DataType::Time, 1);
    assert_eq!(t.add(AnyValue::Time(12), &no_casts()), Some(()));
    assert_eq!(t.add(AnyValue::Null, &no_casts()), Some(()));
    assert_eq!(t.add(AnyValue::Int64(12), &no_casts()), None);
    match finish(t).column {
        Column::Int64(v) => assert_eq!(v, vec![Some(12), None]),
        other => panic!("unexpected column {:?}", other),
    }
}

#[test]
fn nested_types_keep_values_as_they_are() {
    let dtype = DataType::List(Box::new(DataType::Int64));
    let mut b = AnyValueBuffer::new(&dtype, 1);
    assert!(matches!(b, AnyValueBuffer::All(DataType::List(_), _)));
    assert_eq!(b.add(AnyValue::Int32(1), &no_casts()), Some(()));
    assert_eq!(b.add(AnyValue::Utf8("z".to_string()), &no_casts()), Some(()));
    let s = finish(b);
    assert!(matches!(s.dtype, DataType::List(_)));
    match s.column {
        Column::Values(v) => {
            assert_eq!(v.len(), 2);
            assert!(matches!(v[0], AnyValue::Int32(1)));
            assert!(matches!(&v[1], AnyValue::Utf8(z) if z == "z"));
        }
        other => panic!("unexpected column {:?}", other),
    }
}

#[test]
fn add_fallible_reports_a_refusal() {
    let mut b = AnyValueBuffer::new(&DataType::Int8, 1);
    assert!(b.add_fallible(&AnyValue::Int8(4), &no_casts()).is_ok());
    match b.add_fallible(&AnyValue::Utf8("no".to_string()), &no_casts()) {
        Err(PolarsError::ComputeError(msg)) => {
            assert_eq!(
                msg,
                "could not append {:?} to the builder; make sure that all rows have the same schema or consider increasing `schema_inference_length`"
            );
        }
        Ok(()) => panic!("a string was appended to an Int8 buffer"),
    }
    match finish(b).column {
        Column::Int8(v) => assert_eq!(v, vec![Some(4)]),
        other => panic!("unexpected column {:?}", other),
    }
}

#[test]
fn every_type_gets_its_column_type_back() {
    let types = vec![
        DataType::Boolean,
        DataType::UInt8,
        DataType::UInt16,
        DataType::UInt32,
        DataType::UInt64,
        DataType::Int8,
        DataType::Int16,
        DataType::Int32,
        DataType::Int64,
        DataType::Float32,
        DataType::Float64,
        DataType::Utf8,
        DataType::Binary,
        DataType::Date,
        DataType::Datetime(TimeUnit::Nanoseconds, None),
        DataType::Duration(TimeUnit::Microseconds),
        DataType::Time,
        DataType::Null,
        DataType::Unknown,
    ];
    for t in types {
        let s = finish(AnyValueBuffer::new(&t, 0));
        assert_eq!(format!("{:?}", s.dtype), format!("{:?}", t));
    }
}
