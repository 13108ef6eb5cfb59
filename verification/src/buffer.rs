//! A buffer that gathers values of any type into one typed column, converting where it can.
use vstd::prelude::*;

use crate::builder::{cell, cells, logical, ChunkedBuilder, PhysicalValue};
use crate::cast::{
    convert_time_units, convert_time_units_exec, decimal, extract_f32, extract_f32_of, extract_f64,
    extract_f64_of, extract_int, i64_to_text, numeric_int_of, time_units_fit, time_units_fit_exec,
    FloatCasts, FloatCastsView,
};
use crate::error::PolarsError;
use crate::dtype::{clone_opt_string, opt_string_view, DTypeView, DataType, TimeUnit};
use crate::series::{Column, Series, SeriesView};
use crate::value::{to_logical, values_view, AnyValue, ValueView, F32, F64};

verus! {

broadcast use vstd::std_specs::vec::group_vec_axioms;

/// Appending a slot to a column appends its value, read as the column's type.
pub broadcast proof fn lemma_column_push<T: PhysicalValue>(dt: DTypeView, s: Seq<Option<T>>, o: Option<T>)
    ensures
        #[trigger] logical(dt, cells(s.push(o))) == logical(dt, cells(s)).push(to_logical(dt, cell(o))),
{
    crate::builder::lemma_cells_push(s, o);
    crate::builder::lemma_logical_push(dt, cells(s), cell(o));
}

/// The kind of column a buffer builds.
pub ghost enum BufferKind {
    Boolean,
    Int8,
    Int16,
    Int32,
    Int64,
    UInt8,
    UInt16,
    UInt32,
    UInt64,
    Date,
    Datetime(TimeUnit, Option<Seq<char>>),
    Duration(TimeUnit),
    Time,
    Float32,
    Float64,
    Utf8,
    /// Any values, kept as they are, for a column of the given type.
    All(DTypeView),
}

/// The model of a buffer: the kind of column it builds and the values gathered so far.
pub ghost struct BufferView {
    pub kind: BufferKind,
    pub values: Seq<ValueView>,
}

/// The type of the column that a buffer of kind `k` builds.
pub open spec fn kind_dtype(k: BufferKind) -> DTypeView {
    match k {
        BufferKind::Boolean => DTypeView::Boolean,
        BufferKind::Int8 => DTypeView::Int8,
        BufferKind::Int16 => DTypeView::Int16,
        BufferKind::Int32 => DTypeView::Int32,
        BufferKind::Int64 => DTypeView::Int64,
        BufferKind::UInt8 => DTypeView::UInt8,
        BufferKind::UInt16 => DTypeView::UInt16,
        BufferKind::UInt32 => DTypeView::UInt32,
        BufferKind::UInt64 => DTypeView::UInt64,
        BufferKind::Date => DTypeView::Date,
        BufferKind::Datetime(tu, tz) => DTypeView::Datetime(tu, tz),
        BufferKind::Duration(tu) => DTypeView::Duration(tu),
        BufferKind::Time => DTypeView::Time,
        BufferKind::Float32 => DTypeView::Float32,
        BufferKind::Float64 => DTypeView::Float64,
        BufferKind::Utf8 => DTypeView::Utf8,
        BufferKind::All(dt) => dt,
    }
}

/// The kind of buffer made for a column of type `dt`: a typed buffer for the primitive and
/// temporal types, and a buffer of values kept as they are for every other type.
pub open spec fn kind_for(dt: DTypeView) -> BufferKind {
    match dt {
        DTypeView::Boolean => BufferKind::Boolean,
        DTypeView::Int32 => BufferKind::Int32,
        DTypeView::Int64 => BufferKind::Int64,
        DTypeView::UInt32 => BufferKind::UInt32,
        DTypeView::UInt64 => BufferKind::UInt64,
        DTypeView::Int8 => BufferKind::Int8,
        DTypeView::Int16 => BufferKind::Int16,
        DTypeView::UInt8 => BufferKind::UInt8,
        DTypeView::UInt16 => BufferKind::UInt16,
        DTypeView::Date => BufferKind::Date,
        DTypeView::Datetime(tu, tz) => BufferKind::Datetime(tu, tz),
        DTypeView::Duration(tu) => BufferKind::Duration(tu),
        DTypeView::Time => BufferKind::Time,
        DTypeView::Float32 => BufferKind::Float32,
        DTypeView::Float64 => BufferKind::Float64,
        DTypeView::Utf8 => BufferKind::Utf8,
        _ => BufferKind::All(dt),
    }
}

/// An integer cast result, as a value made by `f`.
pub open spec fn int_cell(r: Option<int>, f: spec_fn(int) -> ValueView) -> Option<ValueView> {
    match r {
        Some(n) => Some(f(n)),
        None => None,
    }
}

/// The value that a buffer of kind `k` appends when `v` is added to it with the casts `c`;
/// `None` when the buffer refuses `v`.
///
/// A `Null` is appended by every buffer but an `UInt16` one. A typed numeric buffer appends
/// any number that casts into its type, except an `UInt8` buffer, which appends nothing but
/// `Null`; a boolean buffer takes a number that casts to a byte
/// as `true` when that byte is 1. A string buffer also takes an `Int64` or a `Float64` as its
/// text and a boolean as `"true"` or `"false"`. Temporal buffers take only their own type, a
/// timestamp or a duration converted to the buffer's unit. A buffer of any values appends
/// the value as it is.
pub open spec fn added(k: BufferKind, v: ValueView, c: FloatCastsView) -> Option<ValueView> {
    match k {
        BufferKind::Boolean => match v {
            ValueView::Null => Some(ValueView::Null),
            ValueView::Boolean(b) => Some(ValueView::Boolean(b)),
            _ => int_cell(extract_int(v, c, 0, 255), |n: int| ValueView::Boolean(n == 1)),
        },
        BufferKind::Int8 => match v {
            ValueView::Null => Some(ValueView::Null),
            _ => int_cell(extract_int(v, c, i8::MIN as int, i8::MAX as int), |n: int| ValueView::Int8(n as i8)),
        },
        BufferKind::Int16 => match v {
            ValueView::Null => Some(ValueView::Null),
            _ => int_cell(
                extract_int(v, c, i16::MIN as int, i16::MAX as int),
                |n: int| ValueView::Int16(n as i16),
            ),
        },
        BufferKind::Int32 => match v {
            ValueView::Null => Some(ValueView::Null),
            _ => int_cell(
                extract_int(v, c, i32::MIN as int, i32::MAX as int),
                |n: int| ValueView::Int32(n as i32),
            ),
        },
        BufferKind::Int64 => match v {
            ValueView::Null => Some(ValueView::Null),
            _ => int_cell(
                extract_int(v, c, i64::MIN as int, i64::MAX as int),
                |n: int| ValueView::Int64(n as i64),
            ),
        },
        BufferKind::UInt8 => match v {
            ValueView::Null => Some(ValueView::Null),
            _ => None,
        },
        BufferKind::UInt16 => int_cell(extract_int(v, c, 0, u16::MAX as int), |n: int| ValueView::UInt16(n as u16)),
        BufferKind::UInt32 => match v {
            ValueView::Null => Some(ValueView::Null),
            _ => int_cell(extract_int(v, c, 0, u32::MAX as int), |n: int| ValueView::UInt32(n as u32)),
        },
        BufferKind::UInt64 => match v {
            ValueView::Null => Some(ValueView::Null),
            _ => int_cell(extract_int(v, c, 0, u64::MAX as int), |n: int| ValueView::UInt64(n as u64)),
        },
        BufferKind::Float32 => match v {
            ValueView::Null => Some(ValueView::Null),
            _ => match extract_f32(v, c) {
                Some(x) => Some(ValueView::Float32(x)),
                None => None,
            },
        },
        BufferKind::Float64 => match v {
            ValueView::Null => Some(ValueView::Null),
            _ => match extract_f64(v, c) {
                Some(x) => Some(ValueView::Float64(x)),
                None => None,
            },
        },
        BufferKind::Utf8 => match v {
            ValueView::Utf8(s) => Some(ValueView::Utf8(s)),
            ValueView::Utf8Owned(s) => Some(ValueView::Utf8(s)),
            ValueView::Null => Some(ValueView::Null),
            ValueView::Int64(x) => Some(ValueView::Utf8(decimal(x as int))),
            ValueView::Float64(_) => Some(ValueView::Utf8(c.text)),
            ValueView::Boolean(true) => Some(ValueView::Utf8("true"@)),
            ValueView::Boolean(false) => Some(ValueView::Utf8("false"@)),
            _ => None,
        },
        BufferKind::Date => match v {
            ValueView::Null => Some(ValueView::Null),
            ValueView::Date(x) => Some(ValueView::Date(x)),
            _ => None,
        },
        BufferKind::Datetime(tu, tz) => match v {
            ValueView::Null => Some(ValueView::Null),
            ValueView::Datetime(x, tu_r, _) => Some(
                ValueView::Datetime(convert_time_units(x as int, tu_r, tu) as i64, tu, tz),
            ),
            _ => None,
        },
        BufferKind::Duration(tu) => match v {
            ValueView::Null => Some(ValueView::Null),
            ValueView::Duration(x, tu_r) => Some(
                ValueView::Duration(convert_time_units(x as int, tu_r, tu) as i64, tu),
            ),
            _ => None,
        },
        BufferKind::Time => match v {
            ValueView::Time(x) => Some(ValueView::Time(x)),
            ValueView::Null => Some(ValueView::Null),
            _ => None,
        },
        BufferKind::All(_) => Some(v),
    }
}

/// Whether adding `v` to a buffer of kind `k` is defined: a timestamp or a duration that is
/// converted to the buffer's unit must fit in `i64`.
pub open spec fn add_defined(k: BufferKind, v: ValueView) -> bool {
    match (k, v) {
        (BufferKind::Datetime(tu, _), ValueView::Datetime(x, tu_r, _)) => time_units_fit(x, tu_r, tu),
        (BufferKind::Duration(tu), ValueView::Duration(x, tu_r)) => time_units_fit(x, tu_r, tu),
        _ => true,
    }
}

/// The text of the error that reports a refused value (the `{:?}` stands in the text as it is).
pub open spec fn refusal_message() -> Seq<char> {
    "could not append {:?} to the builder; make sure that all rows have the same schema or consider increasing `schema_inference_length`"@
}

/// The buffer after adding `v` to `b` with the casts `c`: unchanged when it refuses `v`.
pub open spec fn buffer_add(b: BufferView, v: ValueView, c: FloatCastsView) -> BufferView {
    match added(b.kind, v, c) {
        Some(x) => BufferView { kind: b.kind, values: b.values.push(x) },
        None => b,
    }
}

/// A buffer that gathers values into one column.
#[derive(Debug)]
pub enum AnyValueBuffer {
    Boolean(ChunkedBuilder<bool>),
    Int8(ChunkedBuilder<i8>),
    Int16(ChunkedBuilder<i16>),
    Int32(ChunkedBuilder<i32>),
    Int64(ChunkedBuilder<i64>),
    UInt8(ChunkedBuilder<u8>),
    UInt16(ChunkedBuilder<u16>),
    UInt32(ChunkedBuilder<u32>),
    UInt64(ChunkedBuilder<u64>),
    Date(ChunkedBuilder<i32>),
    Datetime(ChunkedBuilder<i64>, TimeUnit, Option<String>),
    Duration(ChunkedBuilder<i64>, TimeUnit),
    Time(ChunkedBuilder<i64>),
    Float32(ChunkedBuilder<F32>),
    Float64(ChunkedBuilder<F64>),
    Utf8(ChunkedBuilder<String>),
    /// Nested and other types: the values are kept as they are, for a column of this type.
    All(DataType, Vec<AnyValue>),
}

pub open spec fn typed_view<T: PhysicalValue>(k: BufferKind, s: Seq<Option<T>>) -> BufferView {
    BufferView { kind: k, values: logical(kind_dtype(k), cells(s)) }
}

pub open spec fn buffer_view(b: AnyValueBuffer) -> BufferView {
    match b {
        AnyValueBuffer::Boolean(x) => typed_view(BufferKind::Boolean, x@),
        AnyValueBuffer::Int8(x) => typed_view(BufferKind::Int8, x@),
        AnyValueBuffer::Int16(x) => typed_view(BufferKind::Int16, x@),
        AnyValueBuffer::Int32(x) => typed_view(BufferKind::Int32, x@),
        AnyValueBuffer::Int64(x) => typed_view(BufferKind::Int64, x@),
        AnyValueBuffer::UInt8(x) => typed_view(BufferKind::UInt8, x@),
        AnyValueBuffer::UInt16(x) => typed_view(BufferKind::UInt16, x@),
        AnyValueBuffer::UInt32(x) => typed_view(BufferKind::UInt32, x@),
        AnyValueBuffer::UInt64(x) => typed_view(BufferKind::UInt64, x@),
        AnyValueBuffer::Date(x) => typed_view(BufferKind::Date, x@),
        AnyValueBuffer::Datetime(x, tu, tz) => typed_view(BufferKind::Datetime(tu, opt_string_view(tz)), x@),
        AnyValueBuffer::Duration(x, tu) => typed_view(BufferKind::Duration(tu), x@),
        AnyValueBuffer::Time(x) => typed_view(BufferKind::Time, x@),
        AnyValueBuffer::Float32(x) => typed_view(BufferKind::Float32, x@),
        AnyValueBuffer::Float64(x) => typed_view(BufferKind::Float64, x@),
        AnyValueBuffer::Utf8(x) => typed_view(BufferKind::Utf8, x@),
        AnyValueBuffer::All(dt, vals) => BufferView { kind: BufferKind::All(dt@), values: values_view(vals@) },
    }
}

impl View for AnyValueBuffer {
    type V = BufferView;

    open spec fn view(&self) -> BufferView {
        buffer_view(*self)
    }
}

impl AnyValueBuffer {
    /// Adds `val` to the buffer, converted to the buffer's type (see [`added`]); `casts` are
    /// the floating-point casts of `val`. Returns `None`, and leaves the buffer as it was,
    /// when the buffer refuses `val`.
    pub fn add(&mut self, val: AnyValue, casts: &FloatCasts) -> (r: Option<()>)
        requires
            add_defined(old(self)@.kind, val@),
        ensures
            final(self)@ == buffer_add(old(self)@, val@, casts@),
            r is Some <==> added(old(self)@.kind, val@, casts@) is Some,
            final(self)@.kind == old(self)@.kind,
            r is None ==> final(self)@ == old(self)@,
            r is Some ==> final(self)@.values.len() == old(self)@.values.len() + 1
                && final(self)@.values.subrange(0, old(self)@.values.len() as int) == old(self)@.values,
    {
        broadcast use lemma_column_push;

        match self {
            AnyValueBuffer::Boolean(builder) => match val {
                AnyValue::Null => builder.append_null(),
                AnyValue::Boolean(v) => builder.append_value(v),
                other => match numeric_int_of(&other, casts) {
                    Some(n) => {
                        if 0 <= n && n <= 255 {
                            builder.append_value(n == 1)
                        } else {
                            return None;
                        }
                    },
                    None => return None,
                },
            },
            AnyValueBuffer::Int32(builder) => match val {
                AnyValue::Null => builder.append_null(),
                other => match numeric_int_of(&other, casts) {
                    Some(n) => {
                        if i32::MIN as i128 <= n && n <= i32::MAX as i128 {
                            builder.append_value(n as i32)
                        } else {
                            return None;
                        }
                    },
                    None => return None,
                },
            },
            AnyValueBuffer::Int64(builder) => match val {
                AnyValue::Null => builder.append_null(),
                other => match numeric_int_of(&other, casts) {
                    Some(n) => {
                        if i64::MIN as i128 <= n && n <= i64::MAX as i128 {
                            builder.append_value(n as i64)
                        } else {
                            return None;
                        }
                    },
                    None => return None,
                },
            },
            AnyValueBuffer::UInt8(builder) => match val {
                AnyValue::Null => builder.append_null(),
                _ => return None,
            },
            AnyValueBuffer::UInt16(builder) => match numeric_int_of(&val, casts) {
                Some(n) => {
                    if 0 <= n && n <= u16::MAX as i128 {
                        builder.append_value(n as u16)
                    } else {
                        return None;
                    }
                },
                None => return None,
            },
            AnyValueBuffer::UInt32(builder) => match val {
                AnyValue::Null => builder.append_null(),
                other => match numeric_int_of(&other, casts) {
                    Some(n) => {
                        if 0 <= n && n <= u32::MAX as i128 {
                            builder.append_value(n as u32)
                        } else {
                            return None;
                        }
                    },
                    None => return None,
                },
            },
            AnyValueBuffer::UInt64(builder) => match val {
                AnyValue::Null => builder.append_null(),
                other => match numeric_int_of(&other, casts) {
                    Some(n) => {
                        if 0 <= n && n <= u64::MAX as i128 {
                            builder.append_value(n as u64)
                        } else {
                            return None;
                        }
                    },
                    None => return None,
                },
            },
            AnyValueBuffer::Float32(builder) => match val {
                AnyValue::Null => builder.append_null(),
                other => match extract_f32_of(&other, casts) {
                    Some(x) => builder.append_value(x),
                    None => return None,
                },
            },
            AnyValueBuffer::Float64(builder) => match val {
                AnyValue::Null => builder.append_null(),
                other => match extract_f64_of(&other, casts) {
                    Some(x) => builder.append_value(x),
                    None => return None,
                },
            },
            AnyValueBuffer::Utf8(builder) => match val {
                AnyValue::Utf8(v) => builder.append_value(v),
                AnyValue::Utf8Owned(v) => builder.append_value(v),
                AnyValue::Null => builder.append_null(),
                AnyValue::Int64(v) => builder.append_value(i64_to_text(v)),
                AnyValue::Float64(_) => builder.append_value(casts.text.clone()),
                AnyValue::Boolean(true) => builder.append_value("true".to_string()),
                AnyValue::Boolean(false) => builder.append_value("false".to_string()),
                _ => return None,
            },
            AnyValueBuffer::Int8(builder) => match val {
                AnyValue::Null => builder.append_null(),
                other => match numeric_int_of(&other, casts) {
                    Some(n) => {
                        if i8::MIN as i128 <= n && n <= i8::MAX as i128 {
                            builder.append_value(n as i8)
                        } else {
                            return None;
                        }
                    },
                    None => return None,
                },
            },
            AnyValueBuffer::Int16(builder) => match val {
                AnyValue::Null => builder.append_null(),
                other => match numeric_int_of(&other, casts) {
                    Some(n) => {
                        if i16::MIN as i128 <= n && n <= i16::MAX as i128 {
                            builder.append_value(n as i16)
                        } else {
                            return None;
                        }
                    },
                    None => return None,
                },
            },
            AnyValueBuffer::Date(builder) => match val {
                AnyValue::Null => builder.append_null(),
                AnyValue::Date(v) => builder.append_value(v),
                _ => return None,
            },
            AnyValueBuffer::Datetime(builder, tu_l, _) => match val {
                AnyValue::Null => builder.append_null(),
                AnyValue::Datetime(v, tu_r, _) => {
                    // the value is converted from its own unit to the buffer's unit
                    let v = convert_time_units_exec(v, tu_r, *tu_l);
                    builder.append_value(v)
                },
                _ => return None,
            },
            AnyValueBuffer::Duration(builder, tu_l) => match val {
                AnyValue::Null => builder.append_null(),
                AnyValue::Duration(v, tu_r) => {
                    let v = convert_time_units_exec(v, tu_r, *tu_l);
                    builder.append_value(v)
                },
                _ => return None,
            },
            AnyValueBuffer::Time(builder) => match val {
                AnyValue::Time(v) => builder.append_value(v),
                AnyValue::Null => builder.append_null(),
                _ => return None,
            },
            // Nested types can be recursive, so their values are kept as they are.
            AnyValueBuffer::All(_, vals) => {
                proof {
                    crate::value::lemma_values_view_push(vals@, val);
                }
                vals.push(val)
            },
        };
        Some(())
    }

    /// The number of values gathered.
    pub fn len(&self) -> (r: usize)
        ensures
            r == self@.values.len(),
    {
        match self {
            AnyValueBuffer::Boolean(b) => b.len(),
            AnyValueBuffer::Int8(b) => b.len(),
            AnyValueBuffer::Int16(b) => b.len(),
            AnyValueBuffer::Int32(b) => b.len(),
            AnyValueBuffer::Int64(b) => b.len(),
            AnyValueBuffer::UInt8(b) => b.len(),
            AnyValueBuffer::UInt16(b) => b.len(),
            AnyValueBuffer::UInt32(b) => b.len(),
            AnyValueBuffer::UInt64(b) => b.len(),
            AnyValueBuffer::Date(b) => b.len(),
            AnyValueBuffer::Datetime(b, _, _) => b.len(),
            AnyValueBuffer::Duration(b, _) => b.len(),
            AnyValueBuffer::Time(b) => b.len(),
            AnyValueBuffer::Float32(b) => b.len(),
            AnyValueBuffer::Float64(b) => b.len(),
            AnyValueBuffer::Utf8(b) => b.len(),
            AnyValueBuffer::All(_, vals) => {
                proof {
                    crate::value::lemma_values_view_len(vals@);
                }
                vals.len()
            },
        }
    }

    /// Whether adding `val` is defined (see [`add_defined`]).
    pub fn can_add(&self, val: &AnyValue) -> (r: bool)
        ensures
            r == add_defined(self@.kind, val@),
    {
        match (self, val) {
            (AnyValueBuffer::Datetime(_, tu, _), AnyValue::Datetime(x, tu_r, _)) => time_units_fit_exec(*x, *tu_r, *tu),
            (AnyValueBuffer::Duration(_, tu), AnyValue::Duration(x, tu_r)) => time_units_fit_exec(*x, *tu_r, *tu),
            _ => true,
        }
    }

    /// Adds a copy of `val` (see [`AnyValueBuffer::add`]), and reports a refusal as an error.
    pub fn add_fallible(&mut self, val: &AnyValue, casts: &FloatCasts) -> (r: Result<(), PolarsError>)
        requires
            add_defined(old(self)@.kind, val@),
        ensures
            final(self)@ == buffer_add(old(self)@, val@, casts@),
            r is Ok <==> added(old(self)@.kind, val@, casts@) is Some,
            final(self)@.kind == old(self)@.kind,
            r is Err ==> final(self)@ == old(self)@,
            r is Ok ==> final(self)@.values.len() == old(self)@.values.len() + 1
                && final(self)@.values.subrange(0, old(self)@.values.len() as int) == old(self)@.values,
            r matches Err(e) ==> e matches PolarsError::ComputeError(msg) && msg@ == refusal_message(),
    {
        match self.add(val.duplicate(), casts) {
            Some(()) => Ok(()),
            None => Err(
                PolarsError::ComputeError(
                    "could not append {:?} to the builder; make sure that all rows have the same schema or consider increasing `schema_inference_length`".to_string(),
                ),
            ),
        }
    }

    /// Finishes the buffer into a column named `""` of the buffer's type, holding the values
    /// gathered, each read as that type (a typed buffer's values already are).
    ///
    /// A buffer of any values reads each value as the column's type by
    /// [`crate::value::to_logical`] only: a stored integer becomes the date, datetime,
    /// duration or time of a column of that type, and every other value is kept as it is.
    /// No further conversion to the column's type (such as of text to a date) is made.
    pub fn into_series(self) -> (s: Series)
        ensures
            s@ == (SeriesView {
                name: Seq::empty(),
                dtype: kind_dtype(self@.kind),
                values: logical(kind_dtype(self@.kind), self@.values),
                fields: Seq::empty(),
            }),
    {
        let ghost before = self@;
        proof {
            crate::builder::lemma_logical_twice(kind_dtype(before.kind), before.values);
        }
        let name = String::new();
        let s = match self {
            AnyValueBuffer::Boolean(b) => Series { name, dtype: DataType::Boolean, column: Column::Boolean(b.finish()) },
            AnyValueBuffer::Int32(b) => Series { name, dtype: DataType::Int32, column: Column::Int32(b.finish()) },
            AnyValueBuffer::Int64(b) => Series { name, dtype: DataType::Int64, column: Column::Int64(b.finish()) },
            AnyValueBuffer::UInt32(b) => Series { name, dtype: DataType::UInt32, column: Column::UInt32(b.finish()) },
            AnyValueBuffer::UInt64(b) => Series { name, dtype: DataType::UInt64, column: Column::UInt64(b.finish()) },
            AnyValueBuffer::Date(b) => Series { name, dtype: DataType::Date, column: Column::Int32(b.finish()) },
            AnyValueBuffer::Datetime(b, tu, tz) => Series {
                name,
                dtype: DataType::Datetime(tu, tz),
                column: Column::Int64(b.finish()),
            },
            AnyValueBuffer::Duration(b, tu) => Series { name, dtype: DataType::Duration(tu), column: Column::Int64(b.finish()) },
            AnyValueBuffer::Time(b) => Series { name, dtype: DataType::Time, column: Column::Int64(b.finish()) },
            AnyValueBuffer::Float32(b) => Series { name, dtype: DataType::Float32, column: Column::Float32(b.finish()) },
            AnyValueBuffer::Float64(b) => Series { name, dtype: DataType::Float64, column: Column::Float64(b.finish()) },
            AnyValueBuffer::Utf8(b) => Series { name, dtype: DataType::Utf8, column: Column::Utf8(b.finish()) },
            AnyValueBuffer::Int8(b) => Series { name, dtype: DataType::Int8, column: Column::Int8(b.finish()) },
            AnyValueBuffer::Int16(b) => Series { name, dtype: DataType::Int16, column: Column::Int16(b.finish()) },
            AnyValueBuffer::UInt8(b) => Series { name, dtype: DataType::UInt8, column: Column::UInt8(b.finish()) },
            AnyValueBuffer::UInt16(b) => Series { name, dtype: DataType::UInt16, column: Column::UInt16(b.finish()) },
            AnyValueBuffer::All(dtype, vals) => {
                let vals = crate::value::values_to_logical(vals, &dtype);
                Series { name, dtype, column: Column::Values(vals) }
            },
        };
        assert(s@.values == logical(kind_dtype(before.kind), before.values));
        s
    }

    /// An empty buffer for a column of type `dtype`, with room for `capacity` values.
    pub fn new(dtype: &DataType, capacity: usize) -> (r: AnyValueBuffer)
        ensures
            r@ == (BufferView { kind: kind_for(dtype@), values: Seq::empty() }),
    {
        AnyValueBuffer::from_dtype(dtype, capacity)
    }

    /// An empty buffer for a column of type `dt`, with room for `len` values (see [`kind_for`]).
    pub fn from_dtype(dt: &DataType, len: usize) -> (r: AnyValueBuffer)
        ensures
            r@ == (BufferView { kind: kind_for(dt@), values: Seq::empty() }),
    {
        proof {
            crate::builder::lemma_cells_empty::<bool>();
            crate::builder::lemma_cells_empty::<i8>();
            crate::builder::lemma_cells_empty::<i16>();
            crate::builder::lemma_cells_empty::<i32>();
            crate::builder::lemma_cells_empty::<i64>();
            crate::builder::lemma_cells_empty::<u8>();
            crate::builder::lemma_cells_empty::<u16>();
            crate::builder::lemma_cells_empty::<u32>();
            crate::builder::lemma_cells_empty::<u64>();
            crate::builder::lemma_cells_empty::<F32>();
            crate::builder::lemma_cells_empty::<F64>();
            crate::builder::lemma_cells_empty::<String>();
        }
        match dt {
            DataType::Boolean => AnyValueBuffer::Boolean(ChunkedBuilder::new(len)),
            DataType::Int32 => AnyValueBuffer::Int32(ChunkedBuilder::new(len)),
            DataType::Int64 => AnyValueBuffer::Int64(ChunkedBuilder::new(len)),
            DataType::UInt32 => AnyValueBuffer::UInt32(ChunkedBuilder::new(len)),
            DataType::UInt64 => AnyValueBuffer::UInt64(ChunkedBuilder::new(len)),
            DataType::Int8 => AnyValueBuffer::Int8(ChunkedBuilder::new(len)),
            DataType::Int16 => AnyValueBuffer::Int16(ChunkedBuilder::new(len)),
            DataType::UInt8 => AnyValueBuffer::UInt8(ChunkedBuilder::new(len)),
            DataType::UInt16 => AnyValueBuffer::UInt16(ChunkedBuilder::new(len)),
            DataType::Date => AnyValueBuffer::Date(ChunkedBuilder::new(len)),
            DataType::Datetime(tu, tz) => AnyValueBuffer::Datetime(ChunkedBuilder::new(len), *tu, clone_opt_string(tz)),
            DataType::Duration(tu) => AnyValueBuffer::Duration(ChunkedBuilder::new(len), *tu),
            DataType::Time => AnyValueBuffer::Time(ChunkedBuilder::new(len)),
            DataType::Float32 => AnyValueBuffer::Float32(ChunkedBuilder::new(len)),
            DataType::Float64 => AnyValueBuffer::Float64(ChunkedBuilder::new(len)),
            DataType::Utf8 => AnyValueBuffer::Utf8(ChunkedBuilder::new(len)),
            // Nested types can be recursive, so their values are kept as they are.
            _ => {
                let vals: Vec<AnyValue> = Vec::with_capacity(len);
                proof {
                    assert(values_view(vals@) == Seq::<ValueView>::empty());
                }
                AnyValueBuffer::All(dt.duplicate(), vals)
            },
        }
    }
}

} // verus!
