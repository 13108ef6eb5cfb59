//! Typed column builders, and how their contents read as values.
use vstd::prelude::*;

use crate::dtype::DTypeView;
use crate::value::{to_logical, ValueView, F32, F64};

verus! {

/// A type whose values a column stores directly.
pub trait PhysicalValue: Sized {
    /// The value that `self` is when read out of a column.
    spec fn as_value(&self) -> ValueView;
}

impl PhysicalValue for bool {
    open spec fn as_value(&self) -> ValueView {
        ValueView::Boolean(*self)
    }
}

impl PhysicalValue for u8 {
    open spec fn as_value(&self) -> ValueView {
        ValueView::UInt8(*self)
    }
}

impl PhysicalValue for u16 {
    open spec fn as_value(&self) -> ValueView {
        ValueView::UInt16(*self)
    }
}

impl PhysicalValue for u32 {
    open spec fn as_value(&self) -> ValueView {
        ValueView::UInt32(*self)
    }
}

impl PhysicalValue for u64 {
    open spec fn as_value(&self) -> ValueView {
        ValueView::UInt64(*self)
    }
}

impl PhysicalValue for i8 {
    open spec fn as_value(&self) -> ValueView {
        ValueView::Int8(*self)
    }
}

impl PhysicalValue for i16 {
    open spec fn as_value(&self) -> ValueView {
        ValueView::Int16(*self)
    }
}

impl PhysicalValue for i32 {
    open spec fn as_value(&self) -> ValueView {
        ValueView::Int32(*self)
    }
}

impl PhysicalValue for i64 {
    open spec fn as_value(&self) -> ValueView {
        ValueView::Int64(*self)
    }
}

impl PhysicalValue for F32 {
    open spec fn as_value(&self) -> ValueView {
        ValueView::Float32(*self)
    }
}

impl PhysicalValue for F64 {
    open spec fn as_value(&self) -> ValueView {
        ValueView::Float64(*self)
    }
}

impl PhysicalValue for String {
    open spec fn as_value(&self) -> ValueView {
        ValueView::Utf8(self@)
    }
}

/// A slot of a column read as a value: a missing slot is `Null`.
pub open spec fn cell<T: PhysicalValue>(o: Option<T>) -> ValueView {
    match o {
        Some(x) => x.as_value(),
        None => ValueView::Null,
    }
}

/// The slots of a column read as values.
pub open spec fn cells<T: PhysicalValue>(s: Seq<Option<T>>) -> Seq<ValueView> {
    s.map_values(|o: Option<T>| cell(o))
}

/// Physical values read as values of the logical type `dt`.
pub open spec fn logical(dt: DTypeView, s: Seq<ValueView>) -> Seq<ValueView> {
    s.map_values(|v: ValueView| to_logical(dt, v))
}

pub proof fn lemma_cells_push<T: PhysicalValue>(s: Seq<Option<T>>, o: Option<T>)
    ensures
        cells(s.push(o)) == cells(s).push(cell(o)),
{
    assert(cells(s.push(o)) =~= cells(s).push(cell(o)));
}

pub proof fn lemma_logical_push(dt: DTypeView, s: Seq<ValueView>, v: ValueView)
    ensures
        logical(dt, s.push(v)) == logical(dt, s).push(to_logical(dt, v)),
{
    assert(logical(dt, s.push(v)) =~= logical(dt, s).push(to_logical(dt, v)));
}

/// Reading values as a type twice reads them as it once.
pub proof fn lemma_logical_twice(dt: DTypeView, s: Seq<ValueView>)
    ensures
        logical(dt, logical(dt, s)) == logical(dt, s),
{
    assert(logical(dt, logical(dt, s)) =~= logical(dt, s));
}

pub proof fn lemma_cells_empty<T: PhysicalValue>()
    ensures
        cells(Seq::<Option<T>>::empty()) == Seq::<ValueView>::empty(),
        forall|dt: DTypeView| logical(dt, Seq::empty()) == Seq::<ValueView>::empty(),
{
    assert(cells(Seq::<Option<T>>::empty()) =~= Seq::<ValueView>::empty());
    assert forall|dt: DTypeView| logical(dt, Seq::empty()) == Seq::<ValueView>::empty() by {
        assert(logical(dt, Seq::empty()) =~= Seq::<ValueView>::empty());
    }
}

/// Appends values, or missing values, to a column of `T`.
#[derive(Debug)]
pub struct ChunkedBuilder<T> {
    values: Vec<Option<T>>,
}

impl<T> View for ChunkedBuilder<T> {
    type V = Seq<Option<T>>;

    closed spec fn view(&self) -> Seq<Option<T>> {
        self.values@
    }
}

impl<T> ChunkedBuilder<T> {
    /// An empty builder with room for `capacity` slots.
    pub fn new(capacity: usize) -> (r: Self)
        ensures
            r@ == Seq::<Option<T>>::empty(),
    {
        ChunkedBuilder { values: Vec::with_capacity(capacity) }
    }

    pub fn append_value(&mut self, v: T)
        ensures
            final(self)@ == old(self)@.push(Some(v)),
    {
        self.values.push(Some(v));
    }

    pub fn append_null(&mut self)
        ensures
            final(self)@ == old(self)@.push(None),
    {
        self.values.push(None);
    }

    pub fn len(&self) -> (r: usize)
        ensures
            r == self@.len(),
    {
        self.values.len()
    }

    /// The column built so far.
    pub fn finish(self) -> (r: Vec<Option<T>>)
        ensures
            r@ == self@,
    {
        self.values
    }
}

} // verus!
