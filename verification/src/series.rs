//! Finished columns.
use vstd::prelude::*;

use crate::builder::{cells, logical};
use crate::dtype::{DTypeView, DataType};
use crate::value::{copy_slots, duplicate_values, values_view, AnyValue, ValueView, F32, F64};

verus! {

broadcast use vstd::std_specs::vec::group_vec_axioms;

/// The stored slots of a finished column.
#[derive(Debug)]
pub enum Column {
    Boolean(Vec<Option<bool>>),
    UInt8(Vec<Option<u8>>),
    UInt16(Vec<Option<u16>>),
    UInt32(Vec<Option<u32>>),
    UInt64(Vec<Option<u64>>),
    Int8(Vec<Option<i8>>),
    Int16(Vec<Option<i16>>),
    Int32(Vec<Option<i32>>),
    Int64(Vec<Option<i64>>),
    Float32(Vec<Option<F32>>),
    Float64(Vec<Option<F64>>),
    Utf8(Vec<Option<String>>),
    /// Values held as they are, for nested and other types.
    Values(Vec<AnyValue>),
    /// The field columns of a struct column.
    Fields(Vec<Series>),
}

/// A named, typed column.
#[derive(Debug)]
pub struct Series {
    pub name: String,
    pub dtype: DataType,
    pub column: Column,
}

/// The model of a [`Series`]: its name, its type, its values read as that type, and, for a
/// struct column, the models of its field columns (a struct column has no `values` of its own).
pub ghost struct SeriesView {
    pub name: Seq<char>,
    pub dtype: DTypeView,
    pub values: Seq<ValueView>,
    pub fields: Seq<SeriesView>,
}

/// The values of a column, read as the type `dt`.
pub open spec fn column_values(dt: DTypeView, c: Column) -> Seq<ValueView>
    decreases c,
{
    match c {
        Column::Boolean(v) => logical(dt, cells(v@)),
        Column::UInt8(v) => logical(dt, cells(v@)),
        Column::UInt16(v) => logical(dt, cells(v@)),
        Column::UInt32(v) => logical(dt, cells(v@)),
        Column::UInt64(v) => logical(dt, cells(v@)),
        Column::Int8(v) => logical(dt, cells(v@)),
        Column::Int16(v) => logical(dt, cells(v@)),
        Column::Int32(v) => logical(dt, cells(v@)),
        Column::Int64(v) => logical(dt, cells(v@)),
        Column::Float32(v) => logical(dt, cells(v@)),
        Column::Float64(v) => logical(dt, cells(v@)),
        Column::Utf8(v) => logical(dt, cells(v@)),
        Column::Values(v) => values_view(v@),
        Column::Fields(_) => Seq::empty(),
    }
}

pub open spec fn series_view(s: Series) -> SeriesView
    decreases s,
{
    SeriesView {
        name: s.name@,
        dtype: s.dtype@,
        values: column_values(s.dtype@, s.column),
        fields: match s.column {
            Column::Fields(children) => series_seq_view(children@),
            _ => Seq::empty(),
        },
    }
}

pub open spec fn series_seq_view(s: Seq<Series>) -> Seq<SeriesView>
    decreases s,
{
    if s.len() == 0 {
        Seq::empty()
    } else {
        series_seq_view(s.subrange(0, s.len() - 1)).push(series_view(s[s.len() - 1]))
    }
}

impl View for Series {
    type V = SeriesView;

    open spec fn view(&self) -> SeriesView {
        series_view(*self)
    }
}

pub proof fn lemma_series_seq_view_push(s: Seq<Series>, x: Series)
    ensures
        series_seq_view(s.push(x)) == series_seq_view(s).push(x@),
{
    assert(s.push(x).subrange(0, s.len() as int) =~= s);
}

/// A copy of a vector of optional strings.
fn copy_strings(v: &Vec<Option<String>>) -> (r: Vec<Option<String>>)
    ensures
        r@ == v@,
{
    let mut out: Vec<Option<String>> = Vec::with_capacity(v.len());
    let mut i: usize = 0;
    while i < v.len()
        invariant
            i <= v.len(),
            out@ == v@.subrange(0, i as int),
        decreases v.len() - i,
    {
        let item = match &v[i] {
            Some(s) => Some(s.clone()),
            None => None,
        };
        out.push(item);
        i = i + 1;
        assert(out@ =~= v@.subrange(0, i as int));
    }
    assert(v@.subrange(0, v.len() as int) =~= v@);
    out
}

impl Series {
    /// A copy of this column.
    pub fn duplicate(&self) -> (r: Series)
        ensures
            r@ == self@,
        decreases self,
    {
        let column = match &self.column {
            Column::Boolean(v) => Column::Boolean(copy_slots(v)),
            Column::UInt8(v) => Column::UInt8(copy_slots(v)),
            Column::UInt16(v) => Column::UInt16(copy_slots(v)),
            Column::UInt32(v) => Column::UInt32(copy_slots(v)),
            Column::UInt64(v) => Column::UInt64(copy_slots(v)),
            Column::Int8(v) => Column::Int8(copy_slots(v)),
            Column::Int16(v) => Column::Int16(copy_slots(v)),
            Column::Int32(v) => Column::Int32(copy_slots(v)),
            Column::Int64(v) => Column::Int64(copy_slots(v)),
            Column::Float32(v) => Column::Float32(copy_slots(v)),
            Column::Float64(v) => Column::Float64(copy_slots(v)),
            Column::Utf8(v) => Column::Utf8(copy_strings(v)),
            Column::Values(v) => {
                proof {
                    assert(decreases_to!(*self => self.column));
                    assert(decreases_to!(self.column => (self.column)->Values_0));
                }
                Column::Values(duplicate_values(v))
            },
            Column::Fields(children) => {
                let mut out: Vec<Series> = Vec::with_capacity(children.len());
                let mut i: usize = 0;
                while i < children.len()
                    invariant
                        self.column == Column::Fields(*children),
                        i <= children.len(),
                        series_seq_view(out@) == series_seq_view(children@.subrange(0, i as int)),
                    decreases children.len() - i,
                {
                    proof {
                        assert(decreases_to!(*self => self.column));
                        assert(decreases_to!(self.column => (self.column)->Fields_0));
                        assert(decreases_to!(*children => children[i as int]));
                    }
                    let c = children[i].duplicate();
                    proof {
                        lemma_series_seq_view_push(out@, c);
                        lemma_series_seq_view_push(children@.subrange(0, i as int), children[i as int]);
                        assert(children@.subrange(0, i + 1) =~= children@.subrange(0, i as int).push(
                            children[i as int],
                        ));
                    }
                    out.push(c);
                    i = i + 1;
                }
                assert(children@.subrange(0, children.len() as int) =~= children@);
                Column::Fields(out)
            },
        };
        Series { name: self.name.clone(), dtype: self.dtype.duplicate(), column }
    }

    /// Gives the column a new name.
    pub fn rename(&mut self, name: String)
        ensures
            final(self)@ == (SeriesView { name: name@, ..old(self)@ }),
    {
        self.name = name;
    }
}

} // verus!
