//! A buffer for values whose type is known to match the column: values are stored as
//! they are, with no conversion.
use vstd::prelude::*;

use crate::buffer::{
    add_defined, buffer_add, kind_dtype, kind_for, lemma_column_push, AnyValueBuffer, BufferKind,
    BufferView,
};
use crate::builder::{logical, ChunkedBuilder};
use crate::cast::{field_name, field_name_text, unused_casts, FloatCasts, FloatCastsView};
use crate::dtype::{physical, DTypeView, DataType, Field, FieldView};
use crate::series::{lemma_series_seq_view_push, series_seq_view, Column, Series, SeriesView};
use crate::value::{
    arr_to_any_value, static_ok, static_view, to_logical, values_view, AnyValue, ValueView, F32, F64,
};

verus! {

broadcast use vstd::std_specs::vec::group_vec_axioms;

/// The model of a [`AnyValueBufferTrusted`]: a single buffer, or the field buffers of a
/// struct column.
pub ghost enum TrustedView {
    Flat(BufferView),
    Struct(Seq<BufferView>),
}

/// Whether `v` has exactly the physical type that a buffer of kind `k` stores: a `Null`
/// always does; a buffer of any values takes any value whose struct rows are well formed.
pub open spec fn physical_match(k: BufferKind, v: ValueView) -> bool {
    v is Null || match k {
        BufferKind::Boolean => v is Boolean,
        BufferKind::Int8 => v is Int8,
        BufferKind::Int16 => v is Int16,
        BufferKind::Int32 => v is Int32,
        BufferKind::Int64 => v is Int64,
        BufferKind::UInt8 => v is UInt8,
        BufferKind::UInt16 => v is UInt16,
        BufferKind::UInt32 => v is UInt32,
        BufferKind::UInt64 => v is UInt64,
        BufferKind::Float32 => v is Float32,
        BufferKind::Float64 => v is Float64,
        BufferKind::Utf8 => v is Utf8,
        BufferKind::All(_) => static_ok(v),
        _ => false,
    }
}

/// The field value of row `idx` for field `i`, read as the field's type.
pub open spec fn struct_field_value(
    idx: usize,
    cols: Seq<Seq<ValueView>>,
    fields: Seq<FieldView>,
    i: int,
) -> ValueView {
    to_logical(fields[i].dtype, cols[i][idx as int])
}

/// Whether `v` may be added to the trusted buffer `t`: its type matches the buffer. For a
/// struct buffer, `v` is a struct row with no more fields than there are columns and field
/// buffers, the row lies inside each column, and adding each field value to its field
/// buffer is defined.
pub open spec fn trusted_match(t: TrustedView, v: ValueView) -> bool {
    match t {
        TrustedView::Flat(b) => physical_match(b.kind, v),
        TrustedView::Struct(subs) => v is Null || match v {
            ValueView::Struct(idx, cols, fields) => {
                &&& fields.len() <= cols.len()
                &&& fields.len() <= subs.len()
                &&& forall|i: int|
                    0 <= i < fields.len() ==> {
                        &&& idx < #[trigger] cols[i].len()
                        &&& add_defined(subs[i].kind, struct_field_value(idx, cols, fields, i))
                    }
            },
            _ => false,
        },
    }
}

/// Whether enough floating-point casts are handed over for `v`: one per field of a struct
/// row added to a struct buffer.
pub open spec fn casts_cover(t: TrustedView, v: ValueView, n: nat) -> bool {
    (t is Struct && v is Struct) ==> v->Struct_2.len() <= n
}

/// The models of a sequence of casts.
pub open spec fn casts_views(s: Seq<FloatCasts>) -> Seq<FloatCastsView> {
    s.map_values(|c: FloatCasts| c@)
}

/// The trusted buffer after `v` is added to it: a flat buffer appends `v` as it is (a
/// buffer of any values, its owned form); a struct buffer adds `Null` to every field buffer
/// for a `Null`, and for a struct row adds field `i`'s value to field buffer `i`, with the
/// floating-point casts `cs[i]` of that value.
pub open spec fn trusted_add(t: TrustedView, v: ValueView, cs: Seq<FloatCastsView>) -> TrustedView {
    match t {
        TrustedView::Flat(b) => TrustedView::Flat(
            BufferView {
                kind: b.kind,
                values: b.values.push(
                    if b.kind is All {
                        static_view(v)
                    } else {
                        v
                    },
                ),
            },
        ),
        TrustedView::Struct(subs) => match v {
            ValueView::Struct(idx, cols, fields) => TrustedView::Struct(
                Seq::new(
                    subs.len(),
                    |i: int|
                        if i < fields.len() {
                            buffer_add(subs[i], struct_field_value(idx, cols, fields, i), cs[i])
                        } else {
                            subs[i]
                        },
                ),
            ),
            _ => TrustedView::Struct(
                Seq::new(subs.len(), |i: int| buffer_add(subs[i], ValueView::Null, unused_casts())),
            ),
        },
    }
}

/// Whether `after` keeps all that `before` held: a flat buffer keeps its kind and gains one
/// value after its old values; a struct buffer keeps its number of field buffers, and each
/// keeps its kind and its old values, in order, with at most one value after them.
pub open spec fn trusted_keeps(before: TrustedView, after: TrustedView) -> bool {
    match (before, after) {
        (TrustedView::Flat(b), TrustedView::Flat(a)) => {
            &&& a.kind == b.kind
            &&& a.values.len() == b.values.len() + 1
            &&& a.values.subrange(0, b.values.len() as int) == b.values
        },
        (TrustedView::Struct(bs), TrustedView::Struct(abs)) => {
            &&& abs.len() == bs.len()
            &&& forall|i: int|
                0 <= i < bs.len() ==> {
                    &&& (#[trigger] abs[i]).kind == bs[i].kind
                    &&& bs[i].values.len() <= abs[i].values.len() <= bs[i].values.len() + 1
                    &&& abs[i].values.subrange(0, bs[i].values.len() as int) == bs[i].values
                }
        },
        _ => false,
    }
}

/// A buffer whose values are known to have the column's physical type.
#[derive(Debug)]
pub enum AnyValueBufferTrusted {
    Boolean(ChunkedBuilder<bool>),
    Int8(ChunkedBuilder<i8>),
    Int16(ChunkedBuilder<i16>),
    Int32(ChunkedBuilder<i32>),
    Int64(ChunkedBuilder<i64>),
    UInt8(ChunkedBuilder<u8>),
    UInt16(ChunkedBuilder<u16>),
    UInt32(ChunkedBuilder<u32>),
    UInt64(ChunkedBuilder<u64>),
    Float32(ChunkedBuilder<F32>),
    Float64(ChunkedBuilder<F64>),
    Utf8(ChunkedBuilder<String>),
    /// The field buffers of a struct column; these convert what they are given.
    Struct(Vec<AnyValueBuffer>),
    /// Nested and other types: owned values, kept as they are, for a column of this type.
    All(DataType, Vec<AnyValue>),
}

pub open spec fn buffers_view(s: Seq<AnyValueBuffer>) -> Seq<BufferView> {
    s.map_values(|b: AnyValueBuffer| b@)
}

pub open spec fn trusted_view(t: AnyValueBufferTrusted) -> TrustedView {
    match t {
        AnyValueBufferTrusted::Boolean(x) => TrustedView::Flat(crate::buffer::typed_view(BufferKind::Boolean, x@)),
        AnyValueBufferTrusted::Int8(x) => TrustedView::Flat(crate::buffer::typed_view(BufferKind::Int8, x@)),
        AnyValueBufferTrusted::Int16(x) => TrustedView::Flat(crate::buffer::typed_view(BufferKind::Int16, x@)),
        AnyValueBufferTrusted::Int32(x) => TrustedView::Flat(crate::buffer::typed_view(BufferKind::Int32, x@)),
        AnyValueBufferTrusted::Int64(x) => TrustedView::Flat(crate::buffer::typed_view(BufferKind::Int64, x@)),
        AnyValueBufferTrusted::UInt8(x) => TrustedView::Flat(crate::buffer::typed_view(BufferKind::UInt8, x@)),
        AnyValueBufferTrusted::UInt16(x) => TrustedView::Flat(crate::buffer::typed_view(BufferKind::UInt16, x@)),
        AnyValueBufferTrusted::UInt32(x) => TrustedView::Flat(crate::buffer::typed_view(BufferKind::UInt32, x@)),
        AnyValueBufferTrusted::UInt64(x) => TrustedView::Flat(crate::buffer::typed_view(BufferKind::UInt64, x@)),
        AnyValueBufferTrusted::Float32(x) => TrustedView::Flat(crate::buffer::typed_view(BufferKind::Float32, x@)),
        AnyValueBufferTrusted::Float64(x) => TrustedView::Flat(crate::buffer::typed_view(BufferKind::Float64, x@)),
        AnyValueBufferTrusted::Utf8(x) => TrustedView::Flat(crate::buffer::typed_view(BufferKind::Utf8, x@)),
        AnyValueBufferTrusted::Struct(bs) => TrustedView::Struct(buffers_view(bs@)),
        AnyValueBufferTrusted::All(dt, vals) => TrustedView::Flat(
            BufferView { kind: BufferKind::All(dt@), values: values_view(vals@) },
        ),
    }
}

impl View for AnyValueBufferTrusted {
    type V = TrustedView;

    open spec fn view(&self) -> TrustedView {
        trusted_view(*self)
    }
}

/// The empty trusted buffer made for a column of type `dt`: a typed buffer for the
/// primitive types; for a struct, one buffer per field, made for the field's physical type;
/// a buffer of any values for every other type.
pub open spec fn trusted_empty(dt: DTypeView) -> TrustedView {
    match dt {
        DTypeView::Boolean | DTypeView::Int32 | DTypeView::Int64 | DTypeView::UInt32
        | DTypeView::UInt64 | DTypeView::Int8 | DTypeView::Int16 | DTypeView::UInt8
        | DTypeView::UInt16 | DTypeView::Float32 | DTypeView::Float64 | DTypeView::Utf8 => TrustedView::Flat(
            BufferView { kind: kind_for(dt), values: Seq::empty() },
        ),
        DTypeView::Struct(fs) => TrustedView::Struct(
            Seq::new(
                fs.len(),
                |i: int| BufferView { kind: kind_for(physical(fs[i].dtype)), values: Seq::empty() },
            ),
        ),
        _ => TrustedView::Flat(BufferView { kind: BufferKind::All(dt), values: Seq::empty() }),
    }
}

/// Whether the trusted buffer can be finished: the field buffers of a struct hold as many
/// values each.
pub open spec fn trusted_finishable(t: TrustedView) -> bool {
    match t {
        TrustedView::Flat(_) => true,
        TrustedView::Struct(subs) => forall|i: int, j: int|
            0 <= i < subs.len() && 0 <= j < subs.len() ==> #[trigger] subs[i].values.len()
                == #[trigger] subs[j].values.len(),
    }
}

/// The column of field buffer `i`, named `field_i`.
pub open spec fn field_series(subs: Seq<BufferView>, i: int) -> SeriesView {
    SeriesView {
        name: field_name(i),
        dtype: kind_dtype(subs[i].kind),
        values: logical(kind_dtype(subs[i].kind), subs[i].values),
        fields: Seq::empty(),
    }
}

/// The column a finished trusted buffer gives, named `""` (values are read as the type of
/// the column that holds them): a flat buffer's values as a
/// column of its type; for a struct buffer, a struct column whose fields are `field_0`,
/// `field_1`, ... with the field buffers' columns.
pub open spec fn trusted_series(t: TrustedView) -> SeriesView {
    match t {
        TrustedView::Flat(b) => SeriesView {
            name: Seq::empty(),
            dtype: kind_dtype(b.kind),
            values: logical(kind_dtype(b.kind), b.values),
            fields: Seq::empty(),
        },
        TrustedView::Struct(subs) => SeriesView {
            name: Seq::empty(),
            dtype: DTypeView::Struct(
                Seq::new(
                    subs.len(),
                    |i: int| FieldView { name: field_name(i), dtype: kind_dtype(subs[i].kind) },
                ),
            ),
            values: Seq::empty(),
            fields: Seq::new(subs.len(), |i: int| field_series(subs, i)),
        },
    }
}

impl AnyValueBufferTrusted {
    /// Whether `val` may be added to this buffer (see [`trusted_match`]).
    pub fn accepts(&self, val: &AnyValue) -> (r: bool)
        ensures
            r == trusted_match(self@, val@),
    {
        match val {
            AnyValue::Null => return true,
            _ => {},
        }
        match self {
            AnyValueBufferTrusted::Boolean(_) => matches!(val, AnyValue::Boolean(_)),
            AnyValueBufferTrusted::Int8(_) => matches!(val, AnyValue::Int8(_)),
            AnyValueBufferTrusted::Int16(_) => matches!(val, AnyValue::Int16(_)),
            AnyValueBufferTrusted::Int32(_) => matches!(val, AnyValue::Int32(_)),
            AnyValueBufferTrusted::Int64(_) => matches!(val, AnyValue::Int64(_)),
            AnyValueBufferTrusted::UInt8(_) => matches!(val, AnyValue::UInt8(_)),
            AnyValueBufferTrusted::UInt16(_) => matches!(val, AnyValue::UInt16(_)),
            AnyValueBufferTrusted::UInt32(_) => matches!(val, AnyValue::UInt32(_)),
            AnyValueBufferTrusted::UInt64(_) => matches!(val, AnyValue::UInt64(_)),
            AnyValueBufferTrusted::Float32(_) => matches!(val, AnyValue::Float32(_)),
            AnyValueBufferTrusted::Float64(_) => matches!(val, AnyValue::Float64(_)),
            AnyValueBufferTrusted::Utf8(_) => matches!(val, AnyValue::Utf8(_)),
            AnyValueBufferTrusted::All(_, _) => val.is_static_ok(),
            AnyValueBufferTrusted::Struct(subs) => match val {
                AnyValue::Struct(idx, arr, fields) => row_fits(subs, *idx, arr, fields),
                _ => false,
            },
        }
    }

    /// Whether the buffer can be finished (see [`trusted_finishable`]): the field buffers of
    /// a struct buffer hold as many values each.
    pub fn finishable(&self) -> (r: bool)
        ensures
            r == trusted_finishable(self@),
    {
        match self {
            AnyValueBufferTrusted::Struct(subs) => {
                let ghost sv = buffers_view(subs@);
                assert(self@ == TrustedView::Struct(sv));
                if subs.len() == 0 {
                    return true;
                }
                let n = subs[0].len();
                let mut i: usize = 1;
                while i < subs.len()
                    invariant
                        sv == buffers_view(subs@),
                        self@ == TrustedView::Struct(sv),
                        sv.len() == subs@.len(),
                        0 < subs@.len(),
                        1 <= i <= subs@.len(),
                        n == sv[0].values.len(),
                        forall|j: int| 0 <= j < i ==> #[trigger] sv[j].values.len() == n,
                    decreases subs.len() - i,
                {
                    if subs[i].len() != n {
                        assert(!(#[trigger] sv[i as int].values.len() == #[trigger] sv[0].values.len()));
                        return false;
                    }
                    i = i + 1;
                }
                assert forall|a: int, b: int|
                    0 <= a < sv.len() && 0 <= b < sv.len() implies #[trigger] sv[a].values.len()
                    == #[trigger] sv[b].values.len() by {
                    assert(sv[a].values.len() == n);
                    assert(sv[b].values.len() == n);
                }
                true
            },
            _ => true,
        }
    }

    /// An empty buffer for a column of type `dt`, with room for `len` values
    /// (see [`trusted_empty`]).
    pub fn from_dtype(dt: &DataType, len: usize) -> (r: AnyValueBufferTrusted)
        ensures
            r@ == trusted_empty(dt@),
    {
        proof {
            crate::builder::lemma_cells_empty::<bool>();
            crate::builder::lemma_cells_empty::<i8>();
            crate::builder::lemma_cells_empty::<i16>();
            crate::builder::lemma_cells_empty::<i32>();
            crate::builder::lemma_cells_empty::<i64>();
            crate::builder::lemma_cells_empty::<u8>();
            crate::builder::lemma_cells_empty::<u16>();
            crate::builder::lemma_cells_empty::<u32>();
            crate::builder::lemma_cells_empty::<u64>();
            crate::builder::lemma_cells_empty::<F32>();
            crate::builder::lemma_cells_empty::<F64>();
            crate::builder::lemma_cells_empty::<String>();
        }
        match dt {
            DataType::Boolean => AnyValueBufferTrusted::Boolean(ChunkedBuilder::new(len)),
            DataType::Int32 => AnyValueBufferTrusted::Int32(ChunkedBuilder::new(len)),
            DataType::Int64 => AnyValueBufferTrusted::Int64(ChunkedBuilder::new(len)),
            DataType::UInt32 => AnyValueBufferTrusted::UInt32(ChunkedBuilder::new(len)),
            DataType::UInt64 => AnyValueBufferTrusted::UInt64(ChunkedBuilder::new(len)),
            DataType::Int8 => AnyValueBufferTrusted::Int8(ChunkedBuilder::new(len)),
            DataType::Int16 => AnyValueBufferTrusted::Int16(ChunkedBuilder::new(len)),
            DataType::UInt8 => AnyValueBufferTrusted::UInt8(ChunkedBuilder::new(len)),
            DataType::UInt16 => AnyValueBufferTrusted::UInt16(ChunkedBuilder::new(len)),
            DataType::Float32 => AnyValueBufferTrusted::Float32(ChunkedBuilder::new(len)),
            DataType::Float64 => AnyValueBufferTrusted::Float64(ChunkedBuilder::new(len)),
            DataType::Utf8 => AnyValueBufferTrusted::Utf8(ChunkedBuilder::new(len)),
            DataType::Struct(fields) => {
                let ghost fv = crate::dtype::fields_view(fields@);
                proof {
                    crate::dtype::lemma_fields_view_len(fields@);
                }
                let mut buffers: Vec<AnyValueBuffer> = Vec::with_capacity(fields.len());
                let mut i: usize = 0;
                while i < fields.len()
                    invariant
                        fv == crate::dtype::fields_view(fields@),
                        fv.len() == fields@.len(),
                        i <= fields.len(),
                        buffers@.len() == i,
                        forall|j: int|
                            0 <= j < i ==> #[trigger] buffers@[j]@ == (BufferView {
                                kind: kind_for(physical(fv[j].dtype)),
                                values: Seq::empty(),
                            }),
                    decreases fields.len() - i,
                {
                    proof {
                        crate::dtype::lemma_fields_view_index(fields@, i as int);
                    }
                    let dtype = fields[i].dtype.to_physical();
                    let buffer = AnyValueBuffer::from_dtype(&dtype, len);
                    buffers.push(buffer);
                    i = i + 1;
                }
                assert(buffers_view(buffers@) =~= Seq::new(
                    fv.len(),
                    |j: int| BufferView { kind: kind_for(physical(fv[j].dtype)), values: Seq::empty() },
                ));
                AnyValueBufferTrusted::Struct(buffers)
            },
            // Lists can be recursive, so their values are kept as they are.
            _ => {
                let vals: Vec<AnyValue> = Vec::with_capacity(len);
                proof {
                    assert(values_view(vals@) == Seq::<ValueView>::empty());
                }
                AnyValueBufferTrusted::All(dt.duplicate(), vals)
            },
        }
    }

    /// Finishes the buffer into a column (see [`trusted_series`]).
    ///
    /// A buffer of any values reads each value as the column's type by [`to_logical`] only:
    /// a stored integer becomes the date, datetime, duration or time of a column of that
    /// type, and every other value is kept as it is. No further conversion to the column's
    /// type (such as of text to a date) is made.
    pub fn into_series(self) -> (s: Series)
        requires
            trusted_finishable(self@),
        ensures
            s@ == trusted_series(self@),
    {
        let ghost before = self@;
        proof {
            match before {
                TrustedView::Flat(b) => crate::builder::lemma_logical_twice(kind_dtype(b.kind), b.values),
                TrustedView::Struct(_) => {},
            }
        }
        let name = String::new();
        let s = match self {
            AnyValueBufferTrusted::Boolean(b) => Series { name, dtype: DataType::Boolean, column: Column::Boolean(b.finish()) },
            AnyValueBufferTrusted::Int32(b) => Series { name, dtype: DataType::Int32, column: Column::Int32(b.finish()) },
            AnyValueBufferTrusted::Int64(b) => Series { name, dtype: DataType::Int64, column: Column::Int64(b.finish()) },
            AnyValueBufferTrusted::UInt32(b) => Series { name, dtype: DataType::UInt32, column: Column::UInt32(b.finish()) },
            AnyValueBufferTrusted::UInt64(b) => Series { name, dtype: DataType::UInt64, column: Column::UInt64(b.finish()) },
            AnyValueBufferTrusted::Float32(b) => Series { name, dtype: DataType::Float32, column: Column::Float32(b.finish()) },
            AnyValueBufferTrusted::Float64(b) => Series { name, dtype: DataType::Float64, column: Column::Float64(b.finish()) },
            AnyValueBufferTrusted::Utf8(b) => Series { name, dtype: DataType::Utf8, column: Column::Utf8(b.finish()) },
            AnyValueBufferTrusted::Int8(b) => Series { name, dtype: DataType::Int8, column: Column::Int8(b.finish()) },
            AnyValueBufferTrusted::Int16(b) => Series { name, dtype: DataType::Int16, column: Column::Int16(b.finish()) },
            AnyValueBufferTrusted::UInt8(b) => Series { name, dtype: DataType::UInt8, column: Column::UInt8(b.finish()) },
            AnyValueBufferTrusted::UInt16(b) => Series { name, dtype: DataType::UInt16, column: Column::UInt16(b.finish()) },
            AnyValueBufferTrusted::Struct(b) => struct_series(b),
            AnyValueBufferTrusted::All(dtype, vals) => {
                let vals = crate::value::values_to_logical(vals, &dtype);
                Series { name, dtype, column: Column::Values(vals) }
            },
        };
        assert(s@.values == trusted_series(before).values);
        s
    }

    /// Adds `val`, whose type matches the buffer, storing it as it is (see [`trusted_add`]).
    /// For a struct row, `field_casts[i]` are the floating-point casts of field `i`'s value,
    /// which its field buffer converts.
    pub fn add_unchecked_owned_physical(&mut self, val: &AnyValue, field_casts: &Vec<FloatCasts>)
        requires
            trusted_match(old(self)@, val@),
            casts_cover(old(self)@, val@, field_casts@.len()),
        ensures
            final(self)@ == trusted_add(old(self)@, val@, casts_views(field_casts@)),
            trusted_keeps(old(self)@, final(self)@),
    {
        broadcast use lemma_column_push;

        proof {
            crate::laws::law_trusted_add_keeps_what_was_held(self@, val@, casts_views(field_casts@));
        }

        match val {
            AnyValue::Null => match self {
                AnyValueBufferTrusted::Boolean(builder) => builder.append_null(),
                AnyValueBufferTrusted::Int8(builder) => builder.append_null(),
                AnyValueBufferTrusted::Int16(builder) => builder.append_null(),
                AnyValueBufferTrusted::Int32(builder) => builder.append_null(),
                AnyValueBufferTrusted::Int64(builder) => builder.append_null(),
                AnyValueBufferTrusted::UInt8(builder) => builder.append_null(),
                AnyValueBufferTrusted::UInt16(builder) => builder.append_null(),
                AnyValueBufferTrusted::UInt32(builder) => builder.append_null(),
                AnyValueBufferTrusted::UInt64(builder) => builder.append_null(),
                AnyValueBufferTrusted::Float32(builder) => builder.append_null(),
                AnyValueBufferTrusted::Float64(builder) => builder.append_null(),
                AnyValueBufferTrusted::Utf8(builder) => builder.append_null(),
                AnyValueBufferTrusted::Struct(builders) => add_null_to_each(builders, Ghost(casts_views(field_casts@))),
                AnyValueBufferTrusted::All(_, vals) => {
                    let v = val.duplicate().into_static();
                    proof {
                        crate::value::lemma_values_view_push(vals@, v);
                    }
                    vals.push(v)
                },
            },
            _ => match self {
                AnyValueBufferTrusted::Boolean(builder) => {
                    let AnyValue::Boolean(v) = val else { proof { assert(false); } return; };
                    builder.append_value(*v)
                },
                AnyValueBufferTrusted::Int8(builder) => {
                    let AnyValue::Int8(v) = val else { proof { assert(false); } return; };
                    builder.append_value(*v)
                },
                AnyValueBufferTrusted::Int16(builder) => {
                    let AnyValue::Int16(v) = val else { proof { assert(false); } return; };
                    builder.append_value(*v)
                },
                AnyValueBufferTrusted::Int32(builder) => {
                    let AnyValue::Int32(v) = val else { proof { assert(false); } return; };
                    builder.append_value(*v)
                },
                AnyValueBufferTrusted::Int64(builder) => {
                    let AnyValue::Int64(v) = val else { proof { assert(false); } return; };
                    builder.append_value(*v)
                },
                AnyValueBufferTrusted::UInt8(builder) => {
                    let AnyValue::UInt8(v) = val else { proof { assert(false); } return; };
                    builder.append_value(*v)
                },
                AnyValueBufferTrusted::UInt16(builder) => {
                    let AnyValue::UInt16(v) = val else { proof { assert(false); } return; };
                    builder.append_value(*v)
                },
                AnyValueBufferTrusted::UInt32(builder) => {
                    let AnyValue::UInt32(v) = val else { proof { assert(false); } return; };
                    builder.append_value(*v)
                },
                AnyValueBufferTrusted::UInt64(builder) => {
                    let AnyValue::UInt64(v) = val else { proof { assert(false); } return; };
                    builder.append_value(*v)
                },
                AnyValueBufferTrusted::Float32(builder) => {
                    let AnyValue::Float32(v) = val else { proof { assert(false); } return; };
                    builder.append_value(*v)
                },
                AnyValueBufferTrusted::Float64(builder) => {
                    let AnyValue::Float64(v) = val else { proof { assert(false); } return; };
                    builder.append_value(*v)
                },
                AnyValueBufferTrusted::Utf8(builder) => {
                    let AnyValue::Utf8(v) = val else { proof { assert(false); } return; };
                    builder.append_value(v.clone())
                },
                AnyValueBufferTrusted::Struct(builders) => {
                    let AnyValue::Struct(idx, arr, fields) = val else { proof { assert(false); } return; };
                    proof {
                        crate::dtype::lemma_fields_view_len(fields@);
                    }
                    add_row_to_each(builders, *idx, arr, fields, field_casts)
                },
                AnyValueBufferTrusted::All(_, vals) => {
                    let v = val.duplicate().into_static();
                    proof {
                        crate::value::lemma_values_view_push(vals@, v);
                    }
                    vals.push(v)
                },
            },
        }
    }
}

/// Whether row `idx` of `arr`, whose fields are `fields`, may be added to the field
/// buffers `subs` (see [`trusted_match`]).
fn row_fits(subs: &Vec<AnyValueBuffer>, idx: usize, arr: &crate::value::StructArray, fields: &Vec<Field>) -> (r: bool)
    ensures
        r == trusted_match(TrustedView::Struct(buffers_view(subs@)), AnyValue::Struct(idx, *arr, *fields)@),
{
    let ghost cols = crate::value::columns_view(arr.columns@);
    let ghost fv = crate::dtype::fields_view(fields@);
    let ghost sv = buffers_view(subs@);
    proof {
        crate::value::lemma_columns_view_len(arr.columns@);
        crate::dtype::lemma_fields_view_len(fields@);
        assert(AnyValue::Struct(idx, *arr, *fields)@ == ValueView::Struct(idx, cols, fv));
    }
    if fields.len() > arr.columns.len() || fields.len() > subs.len() {
        return false;
    }
    let n = fields.len();
    let mut i: usize = 0;
    while i < n
        invariant
            cols == crate::value::columns_view(arr.columns@),
            fv == crate::dtype::fields_view(fields@),
            sv == buffers_view(subs@),
            cols.len() == arr.columns@.len(),
            fv.len() == fields@.len(),
            n == fields@.len(),
            n <= arr.columns@.len(),
            n <= subs@.len(),
            i <= n,
            forall|j: int|
                0 <= j < i ==> {
                    &&& idx < #[trigger] cols[j].len()
                    &&& add_defined(sv[j].kind, struct_field_value(idx, cols, fv, j))
                },
        decreases n - i,
    {
        proof {
            crate::value::lemma_columns_view_index(arr.columns@, i as int);
            crate::dtype::lemma_fields_view_index(fields@, i as int);
            crate::value::lemma_values_view_len(arr.columns[i as int]@);
            assert(sv[i as int] == subs@[i as int]@);
        }
        if idx >= arr.columns[i].len() {
            assert(!(idx < cols[i as int].len()));
            return false;
        }
        proof {
            crate::value::lemma_values_view_index(arr.columns[i as int]@, idx as int);
        }
        let av = arr_to_any_value(&arr.columns[i], idx, &fields[i].dtype);
        assert(av@ == struct_field_value(idx, cols, fv, i as int));
        if !subs[i].can_add(&av) {
            return false;
        }
        i = i + 1;
    }
    true
}

/// Finishes each field buffer into a column named `field_i`, and gathers them into a struct
/// column.
fn struct_series(buffers: Vec<AnyValueBuffer>) -> (s: Series)
    ensures
        s@ == trusted_series(TrustedView::Struct(buffers_view(buffers@))),
{
    let ghost subs = buffers_view(buffers@);
    let n = buffers.len();
    let mut rest = buffers;
    let mut children: Vec<Series> = Vec::with_capacity(n);
    let mut fields: Vec<Field> = Vec::with_capacity(n);
    let mut i: usize = 0;
    while i < n
        invariant
            subs.len() == n,
            i <= n,
            rest@.len() == n - i,
            forall|j: int| 0 <= j < n - i ==> #[trigger] rest@[j]@ == subs[i + j],
            series_seq_view(children@) == Seq::new(i as nat, |j: int| field_series(subs, j)),
            crate::dtype::fields_view(fields@) == Seq::new(
                i as nat,
                |j: int| FieldView { name: field_name(j), dtype: kind_dtype(subs[j].kind) },
            ),
        decreases n - i,
    {
        let b = rest.remove(0);
        let mut child = b.into_series();
        child.rename(field_name_text(i));
        let field = Field { name: child.name.clone(), dtype: child.dtype.duplicate() };
        proof {
            crate::dtype::lemma_fields_view_push(fields@, field);
            lemma_series_seq_view_push(children@, child);
        }
        fields.push(field);
        children.push(child);
        i = i + 1;
        assert(forall|j: int| 0 <= j < n - i ==> #[trigger] rest@[j]@ == subs[i + j]);
        assert(series_seq_view(children@) =~= Seq::new(i as nat, |j: int| field_series(subs, j)));
        assert(crate::dtype::fields_view(fields@) =~= Seq::new(
            i as nat,
            |j: int| FieldView { name: field_name(j), dtype: kind_dtype(subs[j].kind) },
        ));
    }
    Series { name: String::new(), dtype: DataType::Struct(fields), column: Column::Fields(children) }
}

/// Adds `Null` to each field buffer.
fn add_null_to_each(builders: &mut Vec<AnyValueBuffer>, Ghost(cs): Ghost<Seq<FloatCastsView>>)
    ensures
        trusted_add(TrustedView::Struct(buffers_view(old(builders)@)), ValueView::Null, cs)
            == TrustedView::Struct(buffers_view(final(builders)@)),
{
    let casts = FloatCasts::unused();
    let ghost old_bs = builders@;
    let n = builders.len();
    let mut i: usize = 0;
    while i < n
        invariant
            n == old_bs.len(),
            builders@.len() == n,
            casts@ == unused_casts(),
            i <= n,
            forall|j: int| 0 <= j < i ==> #[trigger] builders@[j]@ == buffer_add(old_bs[j]@, ValueView::Null, unused_casts()),
            forall|j: int| i <= j < n ==> #[trigger] builders@[j] == old_bs[j],
        decreases n - i,
    {
        let _ = builders[i].add(AnyValue::Null, &casts);
        i = i + 1;
    }
    assert(buffers_view(builders@) =~= Seq::new(
        old_bs.len(),
        |i: int| buffer_add(buffers_view(old_bs)[i], ValueView::Null, unused_casts()),
    ));
}

/// Adds the field values of row `idx` of `arr` to the field buffers, one per field.
fn add_row_to_each(
    builders: &mut Vec<AnyValueBuffer>,
    idx: usize,
    arr: &crate::value::StructArray,
    fields: &Vec<Field>,
    field_casts: &Vec<FloatCasts>,
)
    requires
        trusted_match(TrustedView::Struct(buffers_view(old(builders)@)), AnyValue::Struct(idx, *arr, *fields)@),
        fields@.len() <= field_casts@.len(),
    ensures
        trusted_add(
            TrustedView::Struct(buffers_view(old(builders)@)),
            AnyValue::Struct(idx, *arr, *fields)@,
            casts_views(field_casts@),
        ) == TrustedView::Struct(buffers_view(final(builders)@)),
{
    let ghost cs = casts_views(field_casts@);
    let ghost old_bs = builders@;
    let ghost cols = crate::value::columns_view(arr.columns@);
    let ghost fv = crate::dtype::fields_view(fields@);
    proof {
        crate::value::lemma_columns_view_len(arr.columns@);
        crate::dtype::lemma_fields_view_len(fields@);
    }
    let n = fields.len();
    proof {
        assert(AnyValue::Struct(idx, *arr, *fields)@ == ValueView::Struct(idx, cols, fv));
        assert(trusted_match(TrustedView::Struct(buffers_view(old_bs)), ValueView::Struct(idx, cols, fv)));
        assert forall|j: int|
            0 <= j < n implies {
                &&& idx < #[trigger] cols[j].len()
                &&& add_defined(old_bs[j]@.kind, struct_field_value(idx, cols, fv, j))
            } by {
            assert(buffers_view(old_bs)[j] == old_bs[j]@);
        }
    }
    let mut i: usize = 0;
    while i < n
        invariant
            n == fields@.len(),
            n <= arr.columns@.len(),
            n <= old_bs.len(),
            builders@.len() == old_bs.len(),
            cols == crate::value::columns_view(arr.columns@),
            fv == crate::dtype::fields_view(fields@),
            cols.len() == arr.columns@.len(),
            fv.len() == fields@.len(),
            n <= field_casts@.len(),
            cs == casts_views(field_casts@),
            i <= n,
            forall|j: int|
                0 <= j < n ==> {
                    &&& idx < #[trigger] cols[j].len()
                    &&& add_defined(old_bs[j]@.kind, struct_field_value(idx, cols, fv, j))
                },
            forall|j: int|
                0 <= j < i ==> #[trigger] builders@[j]@ == buffer_add(
                    old_bs[j]@,
                    struct_field_value(idx, cols, fv, j),
                    cs[j],
                ),
            forall|j: int| i <= j < old_bs.len() ==> #[trigger] builders@[j] == old_bs[j],
        decreases n - i,
    {
        proof {
            crate::value::lemma_columns_view_index(arr.columns@, i as int);
            crate::dtype::lemma_fields_view_index(fields@, i as int);
            assert(idx < cols[i as int].len());
            crate::value::lemma_values_view_len(arr.columns[i as int]@);
            crate::value::lemma_values_view_index(arr.columns[i as int]@, idx as int);
        }
        let av = arr_to_any_value(&arr.columns[i], idx, &fields[i].dtype);
        assert(av@ == struct_field_value(idx, cols, fv, i as int));
        assert(cs[i as int] == field_casts@[i as int]@);
        let _ = builders[i].add(av, &field_casts[i]);
        i = i + 1;
    }
    assert(buffers_view(builders@) =~= Seq::new(
        old_bs.len(),
        |j: int|
            if j < fv.len() {
                buffer_add(buffers_view(old_bs)[j], struct_field_value(idx, cols, fv, j), cs[j])
            } else {
                buffers_view(old_bs)[j]
            },
    ));
}

} // verus!
