//! What holds of the buffers across calls and for every state.
use vstd::prelude::*;

use crate::buffer::{added, buffer_add, kind_dtype, kind_for, AnyValueBuffer, BufferKind, BufferView};
use crate::builder::{cell, cells, logical, PhysicalValue};
use crate::cast::{convert_time_units, div_trunc, int_value, is_float, FloatCastsView};
use crate::dtype::{physical, DTypeView, FieldView, TimeUnit};
use crate::cast::unused_casts;
use crate::trusted::{
    casts_cover, physical_match, trusted_keeps, struct_field_value, trusted_add, trusted_empty, trusted_finishable, trusted_match,
    trusted_series, TrustedView,
};
use crate::value::{min_len, static_row, static_view, to_logical, ValueView};

verus! {

/// The buffer after adding `vs[0]`, ..., `vs[n - 1]` in turn, with the casts `cs[i]` for `vs[i]`.
pub open spec fn fill(b: BufferView, vs: Seq<ValueView>, cs: Seq<FloatCastsView>, n: nat) -> BufferView
    decreases n,
{
    if n == 0 {
        b
    } else {
        buffer_add(fill(b, vs, cs, (n - 1) as nat), vs[n - 1], cs[n - 1])
    }
}

/// The values that a buffer of kind `k` accepts out of `vs[0]`, ..., `vs[n - 1]`, in order,
/// as it appends them.
pub open spec fn accepted(k: BufferKind, vs: Seq<ValueView>, cs: Seq<FloatCastsView>, n: nat) -> Seq<ValueView>
    decreases n,
{
    if n == 0 {
        Seq::empty()
    } else {
        match added(k, vs[n - 1], cs[n - 1]) {
            Some(x) => accepted(k, vs, cs, (n - 1) as nat).push(x),
            None => accepted(k, vs, cs, (n - 1) as nat),
        }
    }
}

/// Adding values one after the other keeps the kind of the buffer, and appends exactly the
/// values it accepts, in the order they were added; a refused value leaves no trace.
pub proof fn law_fill_appends_accepted(b: BufferView, vs: Seq<ValueView>, cs: Seq<FloatCastsView>, n: nat)
    requires
        n <= vs.len(),
        n <= cs.len(),
    ensures
        fill(b, vs, cs, n).kind == b.kind,
        fill(b, vs, cs, n).values == b.values + accepted(b.kind, vs, cs, n),
    decreases n,
{
    if n == 0 {
        assert(b.values + Seq::<ValueView>::empty() =~= b.values);
    } else {
        law_fill_appends_accepted(b, vs, cs, (n - 1) as nat);
        let prev = accepted(b.kind, vs, cs, (n - 1) as nat);
        match added(b.kind, vs[n - 1], cs[n - 1]) {
            Some(x) => {
                assert(b.values + prev.push(x) =~= (b.values + prev).push(x));
            },
            None => {},
        }
    }
}

/// A column built from an empty buffer for the type `dt` holds exactly the values accepted
/// out of those added to it, and has the type `dt`.
pub proof fn law_column_holds_accepted_values(dt: DTypeView, vs: Seq<ValueView>, cs: Seq<FloatCastsView>)
    requires
        vs.len() == cs.len(),
    ensures
        fill(BufferView { kind: kind_for(dt), values: Seq::empty() }, vs, cs, vs.len()).values
            == accepted(kind_for(dt), vs, cs, vs.len()),
        kind_dtype(fill(BufferView { kind: kind_for(dt), values: Seq::empty() }, vs, cs, vs.len()).kind)
            == dt,
{
    let b = BufferView { kind: kind_for(dt), values: Seq::empty() };
    law_fill_appends_accepted(b, vs, cs, vs.len());
    assert(Seq::<ValueView>::empty() + accepted(kind_for(dt), vs, cs, vs.len()) =~= accepted(
        kind_for(dt),
        vs,
        cs,
        vs.len(),
    ));
}

/// An add appends one value when the buffer accepts the value, and changes nothing when it
/// refuses it.
pub proof fn law_add_appends_one_or_nothing(b: BufferView, v: ValueView, c: FloatCastsView)
    ensures
        buffer_add(b, v, c).kind == b.kind,
        added(b.kind, v, c) is Some ==> buffer_add(b, v, c).values == b.values.push(
            added(b.kind, v, c)->0,
        ),
        added(b.kind, v, c) is None ==> buffer_add(b, v, c) == b,
{
}

/// Adding a value to a trusted buffer keeps all that it held: the buffer's kind, its
/// number of field buffers and each one's kind, and every value gathered before, in order;
/// a flat buffer gains exactly one value, and each field buffer at most one.
pub proof fn law_trusted_add_keeps_what_was_held(t: TrustedView, v: ValueView, cs: Seq<FloatCastsView>)
    ensures
        trusted_keeps(t, trusted_add(t, v, cs)),
{
    match t {
        TrustedView::Flat(b) => {
            let a = trusted_add(t, v, cs)->Flat_0;
            assert(a.values.subrange(0, b.values.len() as int) =~= b.values);
        },
        TrustedView::Struct(bs) => {
            let abs = trusted_add(t, v, cs)->Struct_0;
            assert forall|i: int| 0 <= i < bs.len() implies {
                &&& (#[trigger] abs[i]).kind == bs[i].kind
                &&& bs[i].values.len() <= abs[i].values.len() <= bs[i].values.len() + 1
                &&& abs[i].values.subrange(0, bs[i].values.len() as int) == bs[i].values
            } by {
                assert(abs[i].values.subrange(0, bs[i].values.len() as int) =~= bs[i].values);
            }
        },
    }
}

/// Whether `v` is a value that a column of kind `k` holds: `Null`, or a value of the
/// column's own type (with the column's unit and time zone); a column of any values holds
/// every value.
pub open spec fn value_fits(k: BufferKind, v: ValueView) -> bool {
    v is Null || match k {
        BufferKind::Boolean => v is Boolean,
        BufferKind::Int8 => v is Int8,
        BufferKind::Int16 => v is Int16,
        BufferKind::Int32 => v is Int32,
        BufferKind::Int64 => v is Int64,
        BufferKind::UInt8 => v is UInt8,
        BufferKind::UInt16 => v is UInt16,
        BufferKind::UInt32 => v is UInt32,
        BufferKind::UInt64 => v is UInt64,
        BufferKind::Date => v is Date,
        BufferKind::Datetime(tu, tz) => v matches ValueView::Datetime(_, tu2, tz2) && tu2 == tu && tz2 == tz,
        BufferKind::Duration(tu) => v matches ValueView::Duration(_, tu2) && tu2 == tu,
        BufferKind::Time => v is Time,
        BufferKind::Float32 => v is Float32,
        BufferKind::Float64 => v is Float64,
        BufferKind::Utf8 => v is Utf8,
        BufferKind::All(_) => true,
    }
}

/// Whatever a buffer appends is a value of its own type.
pub proof fn law_added_value_fits(k: BufferKind, v: ValueView, c: FloatCastsView)
    ensures
        added(k, v, c) matches Some(x) ==> value_fits(k, x),
{
}

proof fn lemma_typed_values_fit<T: PhysicalValue>(k: BufferKind, s: Seq<Option<T>>)
    requires
        !(k is All),
        forall|x: T| #[trigger] value_fits(k, to_logical(kind_dtype(k), x.as_value())),
    ensures
        forall|i: int|
            0 <= i < s.len() ==> value_fits(k, #[trigger] logical(kind_dtype(k), cells(s))[i]),
{
    assert forall|i: int| 0 <= i < s.len() implies value_fits(k, #[trigger] logical(kind_dtype(k), cells(s))[i]) by {
        assert(cells(s)[i] == cell(s[i]));
        match s[i] {
            Some(x) => {
                assert(value_fits(k, to_logical(kind_dtype(k), x.as_value())));
            },
            None => {},
        }
    }
}

/// Every value a buffer holds, however it was made, is a value of the buffer's type.
pub proof fn law_buffer_values_fit(b: AnyValueBuffer)
    ensures
        forall|i: int| 0 <= i < b@.values.len() ==> value_fits(b@.kind, #[trigger] b@.values[i]),
{
    match b {
        AnyValueBuffer::Boolean(x) => lemma_typed_values_fit(BufferKind::Boolean, x@),
        AnyValueBuffer::Int8(x) => lemma_typed_values_fit(BufferKind::Int8, x@),
        AnyValueBuffer::Int16(x) => lemma_typed_values_fit(BufferKind::Int16, x@),
        AnyValueBuffer::Int32(x) => lemma_typed_values_fit(BufferKind::Int32, x@),
        AnyValueBuffer::Int64(x) => lemma_typed_values_fit(BufferKind::Int64, x@),
        AnyValueBuffer::UInt8(x) => lemma_typed_values_fit(BufferKind::UInt8, x@),
        AnyValueBuffer::UInt16(x) => lemma_typed_values_fit(BufferKind::UInt16, x@),
        AnyValueBuffer::UInt32(x) => lemma_typed_values_fit(BufferKind::UInt32, x@),
        AnyValueBuffer::UInt64(x) => lemma_typed_values_fit(BufferKind::UInt64, x@),
        AnyValueBuffer::Date(x) => lemma_typed_values_fit(BufferKind::Date, x@),
        AnyValueBuffer::Datetime(x, tu, tz) => lemma_typed_values_fit(
            BufferKind::Datetime(tu, crate::dtype::opt_string_view(tz)),
            x@,
        ),
        AnyValueBuffer::Duration(x, tu) => lemma_typed_values_fit(BufferKind::Duration(tu), x@),
        AnyValueBuffer::Time(x) => lemma_typed_values_fit(BufferKind::Time, x@),
        AnyValueBuffer::Float32(x) => lemma_typed_values_fit(BufferKind::Float32, x@),
        AnyValueBuffer::Float64(x) => lemma_typed_values_fit(BufferKind::Float64, x@),
        AnyValueBuffer::Utf8(x) => lemma_typed_values_fit(BufferKind::Utf8, x@),
        AnyValueBuffer::All(_, _) => {},
    }
}

/// Every buffer takes a `Null` as a missing value, except an `UInt16` buffer, which refuses it.
pub proof fn law_null_accepted(k: BufferKind, c: FloatCastsView)
    ensures
        added(k, ValueView::Null, c) == if k is UInt16 {
            None
        } else {
            Some(ValueView::Null)
        },
{
}

/// A buffer of one of the primitive physical types that is given a value of exactly its
/// type appends the same value whether the value is checked and converted or taken as
/// it is; the exceptions are a non-null value for an `UInt8` buffer, which the checked add
/// refuses, and a `Null` for an `UInt16` buffer, likewise.
pub proof fn law_checked_add_matches_unchecked(
    b: BufferView,
    v: ValueView,
    c: FloatCastsView,
    cs: Seq<FloatCastsView>,
)
    requires
        !(b.kind is All || b.kind is Date || b.kind is Datetime || b.kind is Duration
            || b.kind is Time),
        physical_match(b.kind, v),
        !(b.kind is UInt8 && !(v is Null)),
        !(b.kind is UInt16 && v is Null),
    ensures
        trusted_add(TrustedView::Flat(b), v, cs) == TrustedView::Flat(buffer_add(b, v, c)),
{
}

/// Converting a count of time units to a finer unit and back gives the count back.
pub proof fn law_finer_unit_round_trip(v: int, from: TimeUnit, to: TimeUnit)
    requires
        (from is Milliseconds && !(to is Milliseconds)) || (from is Microseconds && to is Nanoseconds),
    ensures
        convert_time_units(convert_time_units(v, from, to), to, from) == v,
{
    let d: int = if from is Milliseconds && to is Nanoseconds {
        1_000_000
    } else {
        1_000
    };
    assert(convert_time_units(v, from, to) == v * d);
    assert(convert_time_units(v * d, to, from) == div_trunc(v * d, d));
    if v >= 0 {
        vstd::arithmetic::div_mod::lemma_div_by_multiple(v, d);
    } else {
        vstd::arithmetic::div_mod::lemma_div_by_multiple(-v, d);
        assert(-(v * d) == (-v) * d) by (nonlinear_arith);
    }
}

/// Whether adding `v` to a buffer of kind `k` reads none of the floating-point casts.
pub open spec fn casts_free(k: BufferKind, v: ValueView) -> bool {
    match k {
        BufferKind::Boolean | BufferKind::Int8 | BufferKind::Int16 | BufferKind::Int32
        | BufferKind::Int64 | BufferKind::UInt16 | BufferKind::UInt32 | BufferKind::UInt64 => !is_float(
            v,
        ),
        BufferKind::Float32 => !(v is Float64) && int_value(v) is None,
        BufferKind::Float64 => !(v is Float32) && int_value(v) is None,
        BufferKind::Utf8 => !(v is Float64),
        _ => true,
    }
}

/// An add that reads none of the floating-point casts (see [`casts_free`]) gives the same,
/// whatever casts it is handed.
pub proof fn law_add_ignores_unread_casts(k: BufferKind, v: ValueView, c1: FloatCastsView, c2: FloatCastsView)
    requires
        casts_free(k, v),
    ensures
        added(k, v, c1) == added(k, v, c2),
{
}

/// A buffer made for a column of type `dt` finishes into a column of type `dt`.
pub proof fn law_new_buffer_column_type(dt: DTypeView)
    ensures
        kind_dtype(kind_for(dt)) == dt,
{
}

/// A trusted buffer made for a column of a type `dt` other than a struct finishes into a
/// column of type `dt`; one made for a struct finishes into a struct column with one field
/// per field of `dt`.
pub proof fn law_trusted_buffer_column_type(dt: DTypeView)
    ensures
        !(dt is Struct) ==> trusted_series(trusted_empty(dt)).dtype == dt,
        dt matches DTypeView::Struct(fs) ==> trusted_series(trusted_empty(dt)).dtype matches DTypeView::Struct(
            gs,
        ) && gs.len() == fs.len(),
{
}

/// Whether every field buffer of the struct buffer `t` accepts its value of `v`: a `Null`
/// for each of them, or one field value of a struct row for each of them, with the casts
/// `cs[i]` for field `i`.
pub open spec fn every_field_accepts(t: TrustedView, v: ValueView, cs: Seq<FloatCastsView>) -> bool {
    match t {
        TrustedView::Struct(subs) => match v {
            ValueView::Struct(idx, cols, fields) => {
                &&& fields.len() == subs.len()
                &&& forall|i: int|
                    0 <= i < subs.len() ==> (#[trigger] added(
                        subs[i].kind,
                        struct_field_value(idx, cols, fields, i),
                        cs[i],
                    )) is Some
            },
            _ => forall|i: int|
                0 <= i < subs.len() ==> (#[trigger] added(subs[i].kind, ValueView::Null, unused_casts())) is Some,
        },
        TrustedView::Flat(_) => true,
    }
}

/// A struct buffer whose field buffers hold as many values each still does after a row
/// that every field buffer accepts; so it can still be finished.
pub proof fn law_accepted_rows_keep_fields_aligned(t: TrustedView, v: ValueView, cs: Seq<FloatCastsView>)
    requires
        t is Struct,
        trusted_finishable(t),
        trusted_match(t, v),
        casts_cover(t, v, cs.len()),
        every_field_accepts(t, v, cs),
    ensures
        trusted_finishable(trusted_add(t, v, cs)),
{
    let subs = t->Struct_0;
    let after = trusted_add(t, v, cs)->Struct_0;
    assert forall|i: int| 0 <= i < subs.len() implies #[trigger] after[i].values.len() == subs[i].values.len() + 1 by {
        match v {
            ValueView::Struct(idx, cols, fields) => {
                assert(added(subs[i].kind, struct_field_value(idx, cols, fields, i), cs[i]) is Some);
            },
            _ => {
                assert(added(subs[i].kind, ValueView::Null, unused_casts()) is Some);
            },
        }
    }
    assert forall|i: int, j: int|
        0 <= i < after.len() && 0 <= j < after.len() implies #[trigger] after[i].values.len()
        == #[trigger] after[j].values.len() by {
        assert(after[i].values.len() == subs[i].values.len() + 1);
        assert(after[j].values.len() == subs[j].values.len() + 1);
    }
}

/// A float buffer appends the value's numeric cast to its own float type, never the value's
/// bits read anew: a float of its own type as it is, a float of the other width, an integer
/// or a temporal value as its cast (`c.to_f64`, `c.to_f32`).
pub proof fn law_float_buffers_append_numeric_casts(v: ValueView, c: FloatCastsView)
    ensures
        v matches ValueView::Float64(y) ==> added(BufferKind::Float64, v, c) == Some(ValueView::Float64(y)),
        v matches ValueView::Float32(x) ==> added(BufferKind::Float32, v, c) == Some(ValueView::Float32(x)),
        v is Float32 ==> added(BufferKind::Float64, v, c) == Some(ValueView::Float64(c.to_f64)),
        v is Float64 ==> added(BufferKind::Float32, v, c) == Some(ValueView::Float32(c.to_f32)),
        (v is Boolean || v is Int8 || v is Int16 || v is Int32 || v is Int64 || v is UInt8
            || v is UInt16 || v is UInt32 || v is UInt64 || v is Date || v is Datetime
            || v is Duration || v is Time) ==> {
            &&& added(BufferKind::Float64, v, c) == Some(ValueView::Float64(c.to_f64))
            &&& added(BufferKind::Float32, v, c) == Some(ValueView::Float32(c.to_f32))
        },
        (v is Utf8 || v is Utf8Owned || v is Binary || v is List || v is Struct) ==> {
            &&& added(BufferKind::Float64, v, c) is None
            &&& added(BufferKind::Float32, v, c) is None
        },
{
}

/// An integer buffer given a temporal value appends the integer that the value stores,
/// whatever its unit and time zone.
pub proof fn law_integer_buffers_take_stored_integers(x: i64, d: i32, tu: TimeUnit, tz: Option<Seq<char>>, c: FloatCastsView)
    ensures
        added(BufferKind::Int64, ValueView::Datetime(x, tu, tz), c) == Some(ValueView::Int64(x)),
        added(BufferKind::Int64, ValueView::Duration(x, tu), c) == Some(ValueView::Int64(x)),
        added(BufferKind::Int64, ValueView::Time(x), c) == Some(ValueView::Int64(x)),
        added(BufferKind::Int32, ValueView::Date(d), c) == Some(ValueView::Int32(d)),
        added(BufferKind::Int64, ValueView::Date(d), c) == Some(ValueView::Int64(d as i64)),
        int_value(ValueView::Datetime(x, tu, tz)) == Some(x as int),
        int_value(ValueView::Duration(x, tu)) == Some(x as int),
{
}

/// A value stored in a column of the physical type of `dt`, read as `dt` and added to a
/// buffer made for that physical type, is appended as the same stored value: so a struct
/// field of a temporal or primitive type keeps its values in its field buffer. The
/// exceptions are those an `UInt8` buffer refuses (every value) and a `Null`, which an
/// `UInt16` buffer refuses.
pub proof fn law_field_values_return_as_stored(dt: DTypeView, v: ValueView, c: FloatCastsView)
    requires
        !(kind_for(physical(dt)) is All),
        !(physical(dt) is UInt8),
        !(v is Null),
        physical_match(kind_for(physical(dt)), v),
    ensures
        added(kind_for(physical(dt)), to_logical(dt, v), c) == Some(v),
{
}

/// The physical type of a temporal type is the integer type that stores it; every other
/// type that is not nested is its own physical type.
pub proof fn law_physical_types(d: DTypeView)
    ensures
        d is Date ==> physical(d) == DTypeView::Int32,
        (d is Datetime || d is Duration || d is Time) ==> physical(d) == DTypeView::Int64,
        !(d is Date || d is Datetime || d is Duration || d is Time || d is List || d is Struct)
            ==> physical(d) == d,
{
}

/// A buffer made for a column type is a typed buffer of that very type, with the type's
/// unit and time zone, for every primitive and temporal type; only the other types get a
/// buffer of any values.
pub proof fn law_new_buffer_is_typed(dt: DTypeView)
    ensures
        (kind_for(dt) is All) <==> (dt is Binary || dt is List || dt is Null || dt is Struct
            || dt is Unknown),
        dt matches DTypeView::Duration(tu) ==> kind_for(dt) == BufferKind::Duration(tu),
        dt matches DTypeView::Datetime(tu, tz) ==> kind_for(dt) == BufferKind::Datetime(tu, tz),
        dt is Date ==> kind_for(dt) == BufferKind::Date,
        dt is Time ==> kind_for(dt) == BufferKind::Time,
        dt is Boolean ==> kind_for(dt) == BufferKind::Boolean,
{
}

/// The owned form of a struct row whose index lies inside each of its columns holds one
/// value per column that has a field, and reads the value of column `i` as the type of
/// field `i`, in its own owned form.
pub proof fn law_owned_row_reads_each_field_as_its_type(idx: usize, cols: Seq<Seq<ValueView>>, fields: Seq<FieldView>)
    requires
        forall|j: int| 0 <= j < min_len(cols.len(), fields.len()) ==> idx < #[trigger] cols[j].len(),
    ensures
        static_view(ValueView::Struct(idx, cols, fields)) matches ValueView::StructOwned(vals, fs) && {
            &&& fs == fields
            &&& vals.len() == min_len(cols.len(), fields.len())
            &&& forall|i: int|
                0 <= i < vals.len() ==> #[trigger] vals[i] == to_logical(
                    fields[i].dtype,
                    static_view(cols[i][idx as int]),
                )
        },
{
    lemma_static_row_reads_fields(idx, cols, fields, min_len(cols.len(), fields.len()));
}

proof fn lemma_static_row_reads_fields(idx: usize, cols: Seq<Seq<ValueView>>, fields: Seq<FieldView>, k: nat)
    requires
        k <= cols.len(),
        forall|j: int| 0 <= j < k ==> idx < #[trigger] cols[j].len(),
    ensures
        static_row(idx, cols, fields, k).len() == k,
        forall|i: int|
            0 <= i < k ==> #[trigger] static_row(idx, cols, fields, k)[i] == to_logical(
                fields[i].dtype,
                static_view(cols[i][idx as int]),
            ),
    decreases k,
{
    if k > 0 {
        lemma_static_row_reads_fields(idx, cols, fields, (k - 1) as nat);
        assert(idx < cols[k - 1].len());
    }
}

/// A stored integer read as a temporal type is taken by a buffer made for that type as the
/// same count, in the type's own unit and time zone.
pub proof fn law_stored_integers_read_as_their_column_type(
    x: i64,
    d: i32,
    tu: TimeUnit,
    tz: Option<Seq<char>>,
    c: FloatCastsView,
)
    ensures
        added(
            kind_for(DTypeView::Datetime(tu, tz)),
            to_logical(DTypeView::Datetime(tu, tz), ValueView::Int64(x)),
            c,
        ) == Some(ValueView::Datetime(x, tu, tz)),
        added(kind_for(DTypeView::Duration(tu)), to_logical(DTypeView::Duration(tu), ValueView::Int64(x)), c)
            == Some(ValueView::Duration(x, tu)),
        added(kind_for(DTypeView::Time), to_logical(DTypeView::Time, ValueView::Int64(x)), c) == Some(
            ValueView::Time(x),
        ),
        added(kind_for(DTypeView::Date), to_logical(DTypeView::Date, ValueView::Int32(d)), c) == Some(
            ValueView::Date(d),
        ),
{
    assert(convert_time_units(x as int, tu, tu) == x as int);
}

/// A struct row whose fields are those of the struct buffer's type, and whose columns store
/// non-null values of the fields' physical types, lands in the fresh field buffers as it is
/// stored: field buffer `i` then holds exactly the value of column `i` at the row. (Fields of
/// a nested type, and those an `UInt8` buffer would refuse, are left out.)
pub proof fn law_struct_row_fields_land_in_their_buffers(
    fs: Seq<FieldView>,
    idx: usize,
    cols: Seq<Seq<ValueView>>,
    cs: Seq<FloatCastsView>,
)
    requires
        fs.len() <= cols.len(),
        forall|i: int|
            0 <= i < fs.len() ==> {
                &&& !(kind_for(physical(#[trigger] fs[i].dtype)) is All)
                &&& !(physical(fs[i].dtype) is UInt8)
                &&& idx < cols[i].len()
                &&& !(cols[i][idx as int] is Null)
                &&& physical_match(kind_for(physical(fs[i].dtype)), cols[i][idx as int])
            },
    ensures
        trusted_add(trusted_empty(DTypeView::Struct(fs)), ValueView::Struct(idx, cols, fs), cs)
            == TrustedView::Struct(
            Seq::new(
                fs.len(),
                |i: int| BufferView { kind: kind_for(physical(fs[i].dtype)), values: seq![cols[i][idx as int]] },
            ),
        ),
{
    let after = trusted_add(trusted_empty(DTypeView::Struct(fs)), ValueView::Struct(idx, cols, fs), cs)->Struct_0;
    let want = Seq::new(
        fs.len(),
        |i: int| BufferView { kind: kind_for(physical(fs[i].dtype)), values: seq![cols[i][idx as int]] },
    );
    assert forall|i: int| 0 <= i < fs.len() implies #[trigger] after[i] == want[i] by {
        law_field_values_return_as_stored(fs[i].dtype, cols[i][idx as int], cs[i]);
        assert(Seq::<ValueView>::empty().push(cols[i][idx as int]) =~= seq![cols[i][idx as int]]);
    }
    assert(after =~= want);
}

} // verus!
