//! Data types of columns, and their mathematical models.
use vstd::prelude::*;

verus! {

broadcast use vstd::std_specs::vec::group_vec_axioms;

/// The resolution of a timestamp or a duration.
#[derive(Clone, Copy, Debug, PartialEq, Eq, Structural)]
pub enum TimeUnit {
    Nanoseconds,
    Microseconds,
    Milliseconds,
}

/// The logical type of a column.
#[derive(Debug)]
pub enum DataType {
    Boolean,
    UInt8,
    UInt16,
    UInt32,
    UInt64,
    Int8,
    Int16,
    Int32,
    Int64,
    Float32,
    Float64,
    Utf8,
    Binary,
    /// Days since the epoch, stored as `i32`.
    Date,
    /// A timestamp in the given unit, with an optional time zone.
    Datetime(TimeUnit, Option<String>),
    /// A length of time in the given unit.
    Duration(TimeUnit),
    /// Nanoseconds since midnight, stored as `i64`.
    Time,
    List(Box<DataType>),
    Null,
    Struct(Vec<Field>),
    Unknown,
}

/// A named column type inside a struct.
#[derive(Debug)]
pub struct Field {
    pub name: String,
    pub dtype: DataType,
}

/// The model of a [`DataType`]: strings and vectors become sequences.
pub ghost enum DTypeView {
    Boolean,
    UInt8,
    UInt16,
    UInt32,
    UInt64,
    Int8,
    Int16,
    Int32,
    Int64,
    Float32,
    Float64,
    Utf8,
    Binary,
    Date,
    Datetime(TimeUnit, Option<Seq<char>>),
    Duration(TimeUnit),
    Time,
    List(Box<DTypeView>),
    Null,
    Struct(Seq<FieldView>),
    Unknown,
}

/// The model of a [`Field`].
pub ghost struct FieldView {
    pub name: Seq<char>,
    pub dtype: DTypeView,
}

pub open spec fn opt_string_view(s: Option<String>) -> Option<Seq<char>> {
    match s {
        Some(t) => Some(t@),
        None => None,
    }
}

pub open spec fn dtype_view(d: DataType) -> DTypeView
    decreases d,
{
    match d {
        DataType::Boolean => DTypeView::Boolean,
        DataType::UInt8 => DTypeView::UInt8,
        DataType::UInt16 => DTypeView::UInt16,
        DataType::UInt32 => DTypeView::UInt32,
        DataType::UInt64 => DTypeView::UInt64,
        DataType::Int8 => DTypeView::Int8,
        DataType::Int16 => DTypeView::Int16,
        DataType::Int32 => DTypeView::Int32,
        DataType::Int64 => DTypeView::Int64,
        DataType::Float32 => DTypeView::Float32,
        DataType::Float64 => DTypeView::Float64,
        DataType::Utf8 => DTypeView::Utf8,
        DataType::Binary => DTypeView::Binary,
        DataType::Date => DTypeView::Date,
        DataType::Datetime(tu, tz) => DTypeView::Datetime(tu, opt_string_view(tz)),
        DataType::Duration(tu) => DTypeView::Duration(tu),
        DataType::Time => DTypeView::Time,
        DataType::List(inner) => DTypeView::List(Box::new(dtype_view(*inner))),
        DataType::Null => DTypeView::Null,
        DataType::Struct(fields) => DTypeView::Struct(fields_view(fields@)),
        DataType::Unknown => DTypeView::Unknown,
    }
}

pub open spec fn fields_view(s: Seq<Field>) -> Seq<FieldView>
    decreases s,
{
    if s.len() == 0 {
        Seq::empty()
    } else {
        fields_view(s.subrange(0, s.len() - 1)).push(
            FieldView { name: s[s.len() - 1].name@, dtype: dtype_view(s[s.len() - 1].dtype) },
        )
    }
}

impl View for DataType {
    type V = DTypeView;

    open spec fn view(&self) -> DTypeView {
        dtype_view(*self)
    }
}

impl View for Field {
    type V = FieldView;

    open spec fn view(&self) -> FieldView {
        FieldView { name: self.name@, dtype: dtype_view(self.dtype) }
    }
}

/// The physical type that stores a logical type: temporal types are stored as integers,
/// and nested types are made physical field by field.
pub open spec fn physical(d: DTypeView) -> DTypeView
    decreases d,
{
    match d {
        DTypeView::Date => DTypeView::Int32,
        DTypeView::Datetime(_, _) => DTypeView::Int64,
        DTypeView::Duration(_) => DTypeView::Int64,
        DTypeView::Time => DTypeView::Int64,
        DTypeView::List(inner) => DTypeView::List(Box::new(physical(*inner))),
        DTypeView::Struct(fs) => DTypeView::Struct(physical_fields(fs)),
        _ => d,
    }
}

pub open spec fn physical_fields(s: Seq<FieldView>) -> Seq<FieldView>
    decreases s,
{
    if s.len() == 0 {
        Seq::empty()
    } else {
        physical_fields(s.subrange(0, s.len() - 1)).push(
            FieldView { name: s[s.len() - 1].name, dtype: physical(s[s.len() - 1].dtype) },
        )
    }
}

pub proof fn lemma_fields_view_len(s: Seq<Field>)
    ensures
        fields_view(s).len() == s.len(),
    decreases s.len(),
{
    if s.len() > 0 {
        lemma_fields_view_len(s.subrange(0, s.len() - 1));
    }
}

pub proof fn lemma_fields_view_index(s: Seq<Field>, i: int)
    requires
        0 <= i < s.len(),
    ensures
        fields_view(s)[i] == s[i]@,
        fields_view(s).len() == s.len(),
    decreases s.len(),
{
    lemma_fields_view_len(s);
    if i < s.len() - 1 {
        lemma_fields_view_index(s.subrange(0, s.len() - 1), i);
    }
}

pub proof fn lemma_fields_view_push(s: Seq<Field>, f: Field)
    ensures
        fields_view(s.push(f)) == fields_view(s).push(f@),
{
    assert(s.push(f).subrange(0, s.len() as int) =~= s);
}

proof fn lemma_physical_fields_push(s: Seq<FieldView>, f: FieldView)
    ensures
        physical_fields(s.push(f)) == physical_fields(s).push(
            FieldView { name: f.name, dtype: physical(f.dtype) },
        ),
{
    assert(s.push(f).subrange(0, s.len() as int) =~= s);
}

pub fn clone_opt_string(s: &Option<String>) -> (r: Option<String>)
    ensures
        opt_string_view(r) == opt_string_view(*s),
{
    match s {
        Some(t) => Some(t.clone()),
        None => None,
    }
}

impl DataType {
    /// A copy of this type.
    pub fn duplicate(&self) -> (r: DataType)
        ensures
            r@ == self@,
        decreases self,
    {
        match self {
            DataType::Boolean => DataType::Boolean,
            DataType::UInt8 => DataType::UInt8,
            DataType::UInt16 => DataType::UInt16,
            DataType::UInt32 => DataType::UInt32,
            DataType::UInt64 => DataType::UInt64,
            DataType::Int8 => DataType::Int8,
            DataType::Int16 => DataType::Int16,
            DataType::Int32 => DataType::Int32,
            DataType::Int64 => DataType::Int64,
            DataType::Float32 => DataType::Float32,
            DataType::Float64 => DataType::Float64,
            DataType::Utf8 => DataType::Utf8,
            DataType::Binary => DataType::Binary,
            DataType::Date => DataType::Date,
            DataType::Datetime(tu, tz) => DataType::Datetime(*tu, clone_opt_string(tz)),
            DataType::Duration(tu) => DataType::Duration(*tu),
            DataType::Time => DataType::Time,
            DataType::List(inner) => DataType::List(Box::new((**inner).duplicate())),
            DataType::Null => DataType::Null,
            DataType::Struct(fields) => {
                let mut out: Vec<Field> = Vec::with_capacity(fields.len());
                let mut i: usize = 0;
                while i < fields.len()
                    invariant
                        *self == DataType::Struct(*fields),
                        i <= fields.len(),
                        fields_view(out@) == fields_view(fields@.subrange(0, i as int)),
                    decreases fields.len() - i,
                {
                    let f = &fields[i];
                    proof {
                        assert(decreases_to!(*self => (*self)->Struct_0));
                        assert(decreases_to!(*fields => fields[i as int]));
                        assert(decreases_to!(fields[i as int] => fields[i as int].dtype));
                        assert(decreases_to!(*self => f.dtype));
                    }
                    let g = Field { name: f.name.clone(), dtype: f.dtype.duplicate() };
                    proof {
                        lemma_fields_view_push(out@, g);
                        lemma_fields_view_push(fields@.subrange(0, i as int), *f);
                        assert(fields@.subrange(0, i + 1) =~= fields@.subrange(0, i as int).push(*f));
                    }
                    out.push(g);
                    i = i + 1;
                }
                assert(fields@.subrange(0, fields.len() as int) =~= fields@);
                DataType::Struct(out)
            },
            DataType::Unknown => DataType::Unknown,
        }
    }

    /// The type that physically stores values of this type.
    pub fn to_physical(&self) -> (r: DataType)
        ensures
            r@ == physical(self@),
        decreases self,
    {
        match self {
            DataType::Date => DataType::Int32,
            DataType::Datetime(_, _) => DataType::Int64,
            DataType::Duration(_) => DataType::Int64,
            DataType::Time => DataType::Int64,
            DataType::List(inner) => DataType::List(Box::new((**inner).to_physical())),
            DataType::Struct(fields) => {
                let mut out: Vec<Field> = Vec::with_capacity(fields.len());
                let mut i: usize = 0;
                while i < fields.len()
                    invariant
                        *self == DataType::Struct(*fields),
                        i <= fields.len(),
                        fields_view(out@) == physical_fields(fields_view(fields@.subrange(0, i as int))),
                    decreases fields.len() - i,
                {
                    let f = &fields[i];
                    proof {
                        assert(decreases_to!(*self => (*self)->Struct_0));
                        assert(decreases_to!(*fields => fields[i as int]));
                        assert(decreases_to!(fields[i as int] => fields[i as int].dtype));
                        assert(decreases_to!(*self => f.dtype));
                    }
                    let g = Field { name: f.name.clone(), dtype: f.dtype.to_physical() };
                    proof {
                        lemma_fields_view_push(out@, g);
                        lemma_fields_view_push(fields@.subrange(0, i as int), *f);
                        lemma_physical_fields_push(fields_view(fields@.subrange(0, i as int)), f@);
                        assert(fields@.subrange(0, i + 1) =~= fields@.subrange(0, i as int).push(*f));
                    }
                    out.push(g);
                    i = i + 1;
                }
                assert(fields@.subrange(0, fields.len() as int) =~= fields@);
                DataType::Struct(out)
            },
            _ => self.duplicate(),
        }
    }
}

} // verus!
