//! Single values of any column type, and their models.
use vstd::prelude::*;

use crate::series::{series_view, Series, SeriesView};
use crate::dtype::{
    clone_opt_string, fields_view, opt_string_view, DTypeView, DataType, Field,
    FieldView, TimeUnit,
};

verus! {

broadcast use vstd::std_specs::vec::group_vec_axioms;

/// A 32-bit floating-point number, held as its IEEE-754 bit pattern.
#[derive(Clone, Copy, Debug, PartialEq, Eq, Structural)]
pub struct F32 {
    pub bits: u32,
}

/// A 64-bit floating-point number, held as its IEEE-754 bit pattern.
#[derive(Clone, Copy, Debug, PartialEq, Eq, Structural)]
pub struct F64 {
    pub bits: u64,
}

/// The columns of a struct column: `columns[i]` holds the physical values of field `i`.
#[derive(Debug)]
pub struct StructArray {
    pub columns: Vec<Vec<AnyValue>>,
}

/// A single value of some column type.
#[derive(Debug)]
pub enum AnyValue {
    Null,
    Boolean(bool),
    /// A string read out of a column.
    Utf8(String),
    /// A string that the value owns.
    Utf8Owned(String),
    UInt8(u8),
    UInt16(u16),
    UInt32(u32),
    UInt64(u64),
    Int8(i8),
    Int16(i16),
    Int32(i32),
    Int64(i64),
    Float32(F32),
    Float64(F64),
    /// Days since the epoch.
    Date(i32),
    Datetime(i64, TimeUnit, Option<String>),
    Duration(i64, TimeUnit),
    /// Nanoseconds since midnight.
    Time(i64),
    /// A list, as the column of its items.
    List(Series),
    /// Bytes read out of a column.
    Binary(Vec<u8>),
    /// Bytes that the value owns.
    BinaryOwned(Vec<u8>),
    /// Row `.0` of the struct columns `.1`, whose fields are `.2`.
    Struct(usize, StructArray, Vec<Field>),
    /// A struct row that owns its field values.
    StructOwned(Vec<AnyValue>, Vec<Field>),
}

/// The model of an [`AnyValue`].
pub ghost enum ValueView {
    Null,
    Boolean(bool),
    Utf8(Seq<char>),
    Utf8Owned(Seq<char>),
    UInt8(u8),
    UInt16(u16),
    UInt32(u32),
    UInt64(u64),
    Int8(i8),
    Int16(i16),
    Int32(i32),
    Int64(i64),
    Float32(F32),
    Float64(F64),
    Date(i32),
    Datetime(i64, TimeUnit, Option<Seq<char>>),
    Duration(i64, TimeUnit),
    Time(i64),
    List(SeriesView),
    Binary(Seq<u8>),
    BinaryOwned(Seq<u8>),
    Struct(usize, Seq<Seq<ValueView>>, Seq<FieldView>),
    StructOwned(Seq<ValueView>, Seq<FieldView>),
}

pub open spec fn value_view(v: AnyValue) -> ValueView
    decreases v,
{
    match v {
        AnyValue::Null => ValueView::Null,
        AnyValue::Boolean(b) => ValueView::Boolean(b),
        AnyValue::Utf8(s) => ValueView::Utf8(s@),
        AnyValue::Utf8Owned(s) => ValueView::Utf8Owned(s@),
        AnyValue::UInt8(x) => ValueView::UInt8(x),
        AnyValue::UInt16(x) => ValueView::UInt16(x),
        AnyValue::UInt32(x) => ValueView::UInt32(x),
        AnyValue::UInt64(x) => ValueView::UInt64(x),
        AnyValue::Int8(x) => ValueView::Int8(x),
        AnyValue::Int16(x) => ValueView::Int16(x),
        AnyValue::Int32(x) => ValueView::Int32(x),
        AnyValue::Int64(x) => ValueView::Int64(x),
        AnyValue::Float32(x) => ValueView::Float32(x),
        AnyValue::Float64(x) => ValueView::Float64(x),
        AnyValue::Date(x) => ValueView::Date(x),
        AnyValue::Datetime(x, tu, tz) => ValueView::Datetime(x, tu, opt_string_view(tz)),
        AnyValue::Duration(x, tu) => ValueView::Duration(x, tu),
        AnyValue::Time(x) => ValueView::Time(x),
        AnyValue::List(s) => ValueView::List(series_view(s)),
        AnyValue::Binary(b) => ValueView::Binary(b@),
        AnyValue::BinaryOwned(b) => ValueView::BinaryOwned(b@),
        AnyValue::Struct(idx, arr, fields) => ValueView::Struct(
            idx,
            columns_view(arr.columns@),
            fields_view(fields@),
        ),
        AnyValue::StructOwned(vals, fields) => ValueView::StructOwned(
            values_view(vals@),
            fields_view(fields@),
        ),
    }
}

pub open spec fn values_view(s: Seq<AnyValue>) -> Seq<ValueView>
    decreases s,
{
    if s.len() == 0 {
        Seq::empty()
    } else {
        values_view(s.subrange(0, s.len() - 1)).push(value_view(s[s.len() - 1]))
    }
}

pub open spec fn columns_view(s: Seq<Vec<AnyValue>>) -> Seq<Seq<ValueView>>
    decreases s,
{
    if s.len() == 0 {
        Seq::empty()
    } else {
        columns_view(s.subrange(0, s.len() - 1)).push(values_view(s[s.len() - 1]@))
    }
}

impl View for AnyValue {
    type V = ValueView;

    open spec fn view(&self) -> ValueView {
        value_view(*self)
    }
}

pub proof fn lemma_values_view_push(s: Seq<AnyValue>, v: AnyValue)
    ensures
        values_view(s.push(v)) == values_view(s).push(v@),
{
    assert(s.push(v).subrange(0, s.len() as int) =~= s);
}

pub proof fn lemma_columns_view_push(s: Seq<Vec<AnyValue>>, c: Vec<AnyValue>)
    ensures
        columns_view(s.push(c)) == columns_view(s).push(values_view(c@)),
{
    assert(s.push(c).subrange(0, s.len() as int) =~= s);
}

pub proof fn lemma_values_view_len(s: Seq<AnyValue>)
    ensures
        values_view(s).len() == s.len(),
    decreases s.len(),
{
    if s.len() > 0 {
        lemma_values_view_len(s.subrange(0, s.len() - 1));
    }
}

pub proof fn lemma_values_view_index(s: Seq<AnyValue>, i: int)
    requires
        0 <= i < s.len(),
    ensures
        values_view(s)[i] == s[i]@,
        values_view(s).len() == s.len(),
    decreases s.len(),
{
    lemma_values_view_len(s);
    if i < s.len() - 1 {
        lemma_values_view_index(s.subrange(0, s.len() - 1), i);
    }
}

pub proof fn lemma_columns_view_len(s: Seq<Vec<AnyValue>>)
    ensures
        columns_view(s).len() == s.len(),
    decreases s.len(),
{
    if s.len() > 0 {
        lemma_columns_view_len(s.subrange(0, s.len() - 1));
    }
}

pub proof fn lemma_columns_view_index(s: Seq<Vec<AnyValue>>, i: int)
    requires
        0 <= i < s.len(),
    ensures
        columns_view(s)[i] == values_view(s[i]@),
        columns_view(s).len() == s.len(),
    decreases s.len(),
{
    lemma_columns_view_len(s);
    if i < s.len() - 1 {
        lemma_columns_view_index(s.subrange(0, s.len() - 1), i);
    }
}

/// The logical value that a physical value `v` stands for in a column of type `dt`:
/// integers become dates, timestamps, durations and times; other values stay as they are.
pub open spec fn to_logical(dt: DTypeView, v: ValueView) -> ValueView {
    match (dt, v) {
        (DTypeView::Date, ValueView::Int32(x)) => ValueView::Date(x),
        (DTypeView::Datetime(tu, tz), ValueView::Int64(x)) => ValueView::Datetime(x, tu, tz),
        (DTypeView::Duration(tu), ValueView::Int64(x)) => ValueView::Duration(x, tu),
        (DTypeView::Time, ValueView::Int64(x)) => ValueView::Time(x),
        _ => v,
    }
}

pub open spec fn min_len(a: nat, b: nat) -> nat {
    if a <= b { a } else { b }
}

/// Whether every struct row reachable in `v` indexes inside its columns.
pub open spec fn static_ok(v: ValueView) -> bool
    decreases v, 0nat,
{
    match v {
        ValueView::Struct(idx, cols, fields) => row_ok(idx, cols, min_len(cols.len(), fields.len())),
        _ => true,
    }
}

/// Whether row `idx` lies inside each of the first `k` columns, and its values are well formed.
pub open spec fn row_ok(idx: usize, cols: Seq<Seq<ValueView>>, k: nat) -> bool
    decreases cols, k,
{
    if k == 0 {
        true
    } else if k <= cols.len() && idx < cols[k - 1].len() {
        row_ok(idx, cols, (k - 1) as nat) && static_ok(cols[k - 1][idx as int])
    } else {
        false
    }
}

/// The value that owns all it holds: strings and bytes become owned ones, and a struct row
/// becomes the owned sequence of its field values, each read as its field's type.
pub open spec fn static_view(v: ValueView) -> ValueView
    decreases v, 0nat,
{
    match v {
        ValueView::Utf8(s) => ValueView::Utf8Owned(s),
        ValueView::Binary(b) => ValueView::BinaryOwned(b),
        ValueView::Struct(idx, cols, fields) => ValueView::StructOwned(
            static_row(idx, cols, fields, min_len(cols.len(), fields.len())),
            fields,
        ),
        _ => v,
    }
}

/// The owned values of row `idx` in the first `k` columns.
pub open spec fn static_row(idx: usize, cols: Seq<Seq<ValueView>>, fields: Seq<FieldView>, k: nat) -> Seq<
    ValueView,
>
    decreases cols, k,
{
    if k == 0 {
        Seq::empty()
    } else if k <= cols.len() && idx < cols[k - 1].len() {
        static_row(idx, cols, fields, (k - 1) as nat).push(
            to_logical(fields[k - 1].dtype, static_view(cols[k - 1][idx as int])),
        )
    } else {
        Seq::empty()
    }
}

/// Reads row `idx` of a column of type `dtype` as a logical value.
pub fn arr_to_any_value(arr: &Vec<AnyValue>, idx: usize, dtype: &DataType) -> (r: AnyValue)
    requires
        idx < arr.len(),
    ensures
        r@ == to_logical(dtype@, arr[idx as int]@),
{
    match (dtype, &arr[idx]) {
        (DataType::Date, AnyValue::Int32(x)) => AnyValue::Date(*x),
        (DataType::Datetime(tu, tz), AnyValue::Int64(x)) => AnyValue::Datetime(*x, *tu, clone_opt_string(tz)),
        (DataType::Duration(tu), AnyValue::Int64(x)) => AnyValue::Duration(*x, *tu),
        (DataType::Time, AnyValue::Int64(x)) => AnyValue::Time(*x),
        _ => arr[idx].duplicate(),
    }
}

/// Reads `v` as a value of type `dtype`, as a column of that type would give it back.
pub fn to_logical_value(v: AnyValue, dtype: &DataType) -> (r: AnyValue)
    ensures
        r@ == to_logical(dtype@, v@),
{
    match (dtype, v) {
        (DataType::Date, AnyValue::Int32(x)) => AnyValue::Date(x),
        (DataType::Datetime(tu, tz), AnyValue::Int64(x)) => AnyValue::Datetime(x, *tu, clone_opt_string(tz)),
        (DataType::Duration(tu), AnyValue::Int64(x)) => AnyValue::Duration(x, *tu),
        (DataType::Time, AnyValue::Int64(x)) => AnyValue::Time(x),
        (_, other) => other,
    }
}

impl AnyValue {
    /// The owned form of this value (see [`static_view`]).
    pub fn into_static(self) -> (r: AnyValue)
        requires
            static_ok(self@),
        ensures
            r@ == static_view(self@),
    {
        match self {
            AnyValue::Utf8(s) => AnyValue::Utf8Owned(s),
            AnyValue::Binary(b) => AnyValue::BinaryOwned(b),
            AnyValue::Struct(idx, arr, fields) => {
                proof {
                    lemma_columns_view_len(arr.columns@);
                    crate::dtype::lemma_fields_view_len(fields@);
                }
                let row = static_row_values(idx, &arr, &fields);
                AnyValue::StructOwned(row, fields)
            },
            other => other,
        }
    }

    /// Whether every struct row reachable in this value indexes inside its columns
    /// (see [`static_ok`]).
    pub fn is_static_ok(&self) -> (r: bool)
        ensures
            r == static_ok(self@),
        decreases self,
    {
        match self {
            AnyValue::Struct(idx, arr, fields) => {
                let ghost cols = columns_view(arr.columns@);
                proof {
                    lemma_columns_view_len(arr.columns@);
                    crate::dtype::lemma_fields_view_len(fields@);
                }
                let n: usize = if arr.columns.len() <= fields.len() { arr.columns.len() } else { fields.len() };
                let mut i: usize = 0;
                while i < n
                    invariant
                        *self == AnyValue::Struct(*idx, *arr, *fields),
                        cols == columns_view(arr.columns@),
                        cols.len() == arr.columns@.len(),
                        n <= arr.columns@.len(),
                        n as nat == min_len(arr.columns@.len(), fields_view(fields@).len()),
                        i <= n,
                        row_ok(*idx, cols, i as nat),
                    decreases n - i,
                {
                    proof {
                        lemma_columns_view_index(arr.columns@, i as int);
                        lemma_values_view_len(arr.columns[i as int]@);
                    }
                    if *idx >= arr.columns[i].len() {
                        proof {
                            if row_ok(*idx, cols, n as nat) {
                                lemma_row_ok_prefix(*idx, cols, n as nat, (i + 1) as nat);
                            }
                        }
                        return false;
                    }
                    proof {
                        lemma_values_view_index(arr.columns[i as int]@, *idx as int);
                        assert(decreases_to!(*self => (*self)->Struct_1));
                        assert(decreases_to!(arr.columns => arr.columns[i as int]));
                    }
                    if !arr.columns[i][*idx].is_static_ok() {
                        proof {
                            if row_ok(*idx, cols, n as nat) {
                                lemma_row_ok_prefix(*idx, cols, n as nat, (i + 1) as nat);
                            }
                        }
                        return false;
                    }
                    i = i + 1;
                }
                true
            },
            _ => true,
        }
    }

    /// An owned copy of this value (see [`static_view`]).
    pub fn to_static(&self) -> (r: AnyValue)
        requires
            static_ok(self@),
        ensures
            r@ == static_view(self@),
        decreases self, 1nat,
    {
        match self {
            AnyValue::Utf8(s) => AnyValue::Utf8Owned(s.clone()),
            AnyValue::Binary(b) => AnyValue::BinaryOwned(copy_slots(b)),
            AnyValue::Struct(idx, arr, fields) => {
                proof {
                    assert(decreases_to!(*self => (*self)->Struct_1));
                    lemma_columns_view_len(arr.columns@);
                    crate::dtype::lemma_fields_view_len(fields@);
                }
                let row = static_row_values(*idx, arr, fields);
                AnyValue::StructOwned(row, duplicate_fields(fields))
            },
            _ => self.duplicate(),
        }
    }

    /// A copy of this value.
    pub fn duplicate(&self) -> (r: AnyValue)
        ensures
            r@ == self@,
        decreases self,
    {
        match self {
            AnyValue::Null => AnyValue::Null,
            AnyValue::Boolean(b) => AnyValue::Boolean(*b),
            AnyValue::Utf8(s) => AnyValue::Utf8(s.clone()),
            AnyValue::Utf8Owned(s) => AnyValue::Utf8Owned(s.clone()),
            AnyValue::UInt8(x) => AnyValue::UInt8(*x),
            AnyValue::UInt16(x) => AnyValue::UInt16(*x),
            AnyValue::UInt32(x) => AnyValue::UInt32(*x),
            AnyValue::UInt64(x) => AnyValue::UInt64(*x),
            AnyValue::Int8(x) => AnyValue::Int8(*x),
            AnyValue::Int16(x) => AnyValue::Int16(*x),
            AnyValue::Int32(x) => AnyValue::Int32(*x),
            AnyValue::Int64(x) => AnyValue::Int64(*x),
            AnyValue::Float32(x) => AnyValue::Float32(*x),
            AnyValue::Float64(x) => AnyValue::Float64(*x),
            AnyValue::Date(x) => AnyValue::Date(*x),
            AnyValue::Datetime(x, tu, tz) => AnyValue::Datetime(*x, *tu, clone_opt_string(tz)),
            AnyValue::Duration(x, tu) => AnyValue::Duration(*x, *tu),
            AnyValue::Time(x) => AnyValue::Time(*x),
            AnyValue::List(s) => {
                proof {
                    assert(decreases_to!(*self => (*self)->List_0));
                }
                AnyValue::List(s.duplicate())
            },
            AnyValue::Binary(b) => AnyValue::Binary(copy_slots(b)),
            AnyValue::BinaryOwned(b) => AnyValue::BinaryOwned(copy_slots(b)),
            AnyValue::Struct(idx, arr, fields) => {
                let mut cols: Vec<Vec<AnyValue>> = Vec::with_capacity(arr.columns.len());
                let mut i: usize = 0;
                while i < arr.columns.len()
                    invariant
                        *self == AnyValue::Struct(*idx, *arr, *fields),
                        i <= arr.columns.len(),
                        columns_view(cols@) == columns_view(arr.columns@.subrange(0, i as int)),
                    decreases arr.columns.len() - i,
                {
                    proof {
                        assert(decreases_to!(*self => (*self)->Struct_1));
                        assert(decreases_to!(arr.columns => arr.columns[i as int]));
                    }
                    let c = duplicate_values(&arr.columns[i]);
                    proof {
                        lemma_columns_view_push(cols@, c);
                        lemma_columns_view_push(arr.columns@.subrange(0, i as int), arr.columns[i as int]);
                        assert(arr.columns@.subrange(0, i + 1) =~= arr.columns@.subrange(0, i as int).push(
                            arr.columns[i as int],
                        ));
                    }
                    cols.push(c);
                    i = i + 1;
                }
                assert(arr.columns@.subrange(0, arr.columns.len() as int) =~= arr.columns@);
                AnyValue::Struct(*idx, StructArray { columns: cols }, duplicate_fields(fields))
            },
            AnyValue::StructOwned(vals, fields) => {
                proof {
                    assert(decreases_to!(*self => (*self)->StructOwned_0));
                }
                AnyValue::StructOwned(duplicate_values(vals), duplicate_fields(fields))
            },
        }
    }
}

/// The owned values of row `idx` of `arr`, one per field.
pub fn static_row_values(idx: usize, arr: &StructArray, fields: &Vec<Field>) -> (r: Vec<AnyValue>)
    requires
        row_ok(idx, columns_view(arr.columns@), min_len(arr.columns@.len(), fields@.len())),
    ensures
        values_view(r@) == static_row(
            idx,
            columns_view(arr.columns@),
            fields_view(fields@),
            min_len(arr.columns@.len(), fields@.len()),
        ),
    decreases arr, 0nat,
{
    let n: usize = if arr.columns.len() <= fields.len() { arr.columns.len() } else { fields.len() };
    let ghost cols = columns_view(arr.columns@);
    let ghost fv = fields_view(fields@);
    proof {
        lemma_columns_view_len(arr.columns@);
        crate::dtype::lemma_fields_view_len(fields@);
    }
    let mut out: Vec<AnyValue> = Vec::with_capacity(n);
    let mut i: usize = 0;
    while i < n
        invariant
            n as nat == min_len(arr.columns@.len(), fields@.len()),
            cols == columns_view(arr.columns@),
            fv == fields_view(fields@),
            cols.len() == arr.columns@.len(),
            fv.len() == fields@.len(),
            row_ok(idx, cols, n as nat),
            i <= n,
            values_view(out@) == static_row(idx, cols, fv, i as nat),
        decreases n - i,
    {
        proof {
            lemma_row_ok_prefix(idx, cols, n as nat, (i + 1) as nat);
            lemma_columns_view_index(arr.columns@, i as int);
            crate::dtype::lemma_fields_view_index(fields@, i as int);
            lemma_values_view_len(arr.columns[i as int]@);
            lemma_values_view_index(arr.columns[i as int]@, idx as int);
            assert(decreases_to!(*arr => arr.columns));
            assert(decreases_to!(arr.columns => arr.columns[i as int]));
            assert(decreases_to!(arr.columns[i as int] => arr.columns[i as int]@));
            assert(decreases_to!(arr.columns[i as int]@ => arr.columns[i as int]@[idx as int]));
        }
        let col = &arr.columns[i];
        let v = col[idx].to_static();
        let v = to_logical_value(v, &fields[i].dtype);
        proof {
            lemma_values_view_push(out@, v);
        }
        out.push(v);
        i = i + 1;
    }
    out
}

proof fn lemma_row_ok_prefix(idx: usize, cols: Seq<Seq<ValueView>>, k: nat, j: nat)
    requires
        row_ok(idx, cols, k),
        j <= k,
    ensures
        row_ok(idx, cols, j),
        j > 0 ==> j <= cols.len() && idx < cols[j - 1].len() && static_ok(cols[j - 1][idx as int]),
    decreases k,
{
    if j < k {
        lemma_row_ok_prefix(idx, cols, (k - 1) as nat, j);
    }
}

/// The values of `vals`, each read as a value of type `dtype` (see [`to_logical`]).
pub fn values_to_logical(vals: Vec<AnyValue>, dtype: &DataType) -> (r: Vec<AnyValue>)
    ensures
        values_view(r@) == crate::builder::logical(dtype@, values_view(vals@)),
{
    let ghost old = vals@;
    let mut vals = vals;
    let n = vals.len();
    let mut i: usize = 0;
    while i < n
        invariant
            n == old.len(),
            vals@.len() == n,
            i <= n,
            forall|j: int| 0 <= j < i ==> #[trigger] vals@[j]@ == to_logical(dtype@, old[j]@),
            forall|j: int| i <= j < n ==> #[trigger] vals@[j] == old[j],
        decreases n - i,
    {
        let mut item = AnyValue::Null;
        std::mem::swap(&mut item, &mut vals[i]);
        let mut read = to_logical_value(item, dtype);
        std::mem::swap(&mut read, &mut vals[i]);
        i = i + 1;
    }
    proof {
        lemma_values_view_len(vals@);
        lemma_values_view_len(old);
        assert forall|j: int| 0 <= j < n implies #[trigger] values_view(vals@)[j]
            == crate::builder::logical(dtype@, values_view(old))[j] by {
            lemma_values_view_index(vals@, j);
            lemma_values_view_index(old, j);
        }
        assert(values_view(vals@) =~= crate::builder::logical(dtype@, values_view(old)));
    }
    vals
}

/// A copy of a vector of copyable items.
pub fn copy_slots<T: Copy>(v: &Vec<T>) -> (r: Vec<T>)
    ensures
        r@ == v@,
{
    let mut out: Vec<T> = Vec::with_capacity(v.len());
    let mut i: usize = 0;
    while i < v.len()
        invariant
            i <= v.len(),
            out@ == v@.subrange(0, i as int),
        decreases v.len() - i,
    {
        out.push(v[i]);
        i = i + 1;
        assert(out@ =~= v@.subrange(0, i as int));
    }
    assert(v@.subrange(0, v.len() as int) =~= v@);
    out
}

/// A copy of a sequence of values.
pub fn duplicate_values(vals: &Vec<AnyValue>) -> (r: Vec<AnyValue>)
    ensures
        values_view(r@) == values_view(vals@),
    decreases vals,
{
    let mut out: Vec<AnyValue> = Vec::with_capacity(vals.len());
    let mut i: usize = 0;
    while i < vals.len()
        invariant
            i <= vals.len(),
            values_view(out@) == values_view(vals@.subrange(0, i as int)),
        decreases vals.len() - i,
    {
        proof {
            assert(decreases_to!(*vals => vals[i as int]));
        }
        let v = vals[i].duplicate();
        proof {
            lemma_values_view_push(out@, v);
            lemma_values_view_push(vals@.subrange(0, i as int), vals[i as int]);
            assert(vals@.subrange(0, i + 1) =~= vals@.subrange(0, i as int).push(vals[i as int]));
        }
        out.push(v);
        i = i + 1;
    }
    assert(vals@.subrange(0, vals.len() as int) =~= vals@);
    out
}

/// A copy of a sequence of fields.
pub fn duplicate_fields(fields: &Vec<Field>) -> (r: Vec<Field>)
    ensures
        fields_view(r@) == fields_view(fields@),
{
    let mut out: Vec<Field> = Vec::with_capacity(fields.len());
    let mut i: usize = 0;
    while i < fields.len()
        invariant
            i <= fields.len(),
            fields_view(out@) == fields_view(fields@.subrange(0, i as int)),
        decreases fields.len() - i,
    {
        let f = &fields[i];
        let g = Field { name: f.name.clone(), dtype: f.dtype.duplicate() };
        proof {
            crate::dtype::lemma_fields_view_push(out@, g);
            crate::dtype::lemma_fields_view_push(fields@.subrange(0, i as int), *f);
            assert(fields@.subrange(0, i + 1) =~= fields@.subrange(0, i as int).push(*f));
        }
        out.push(g);
        i = i + 1;
    }
    assert(fields@.subrange(0, fields.len() as int) =~= fields@);
    out
}

} // verus!
