//! The Arrow datatypes and fields that column descriptors carry, as plain values.
//!
//! They mirror `arrow2::datatypes::{DataType, Field}` variant for variant (`Map` is
//! named `MapType` here); a field's metadata is kept as `(key, value)` pairs in
//! increasing key order, the order in which `arrow2`'s `Metadata` map yields them.
use vstd::prelude::*;

use crate::text::owned;

verus! {

/// Unit of a time or duration datatype.
#[derive(Debug, Clone, Copy, PartialEq, Eq, Hash, Structural)]
pub enum TimeUnit {
    Second,
    Millisecond,
    Microsecond,
    Nanosecond,
}

/// Unit of an interval datatype.
#[derive(Debug, Clone, Copy, PartialEq, Eq, Hash, Structural)]
pub enum IntervalUnit {
    YearMonth,
    DayTime,
    MonthDayNano,
}

/// Key type of a dictionary datatype.
#[derive(Debug, Clone, Copy, PartialEq, Eq, Hash, Structural)]
pub enum IntegerType {
    Int8,
    Int16,
    Int32,
    Int64,
    UInt8,
    UInt16,
    UInt32,
    UInt64,
}

/// Layout of a union datatype.
#[derive(Debug, Clone, Copy, PartialEq, Eq, Hash, Structural)]
pub enum UnionMode {
    Dense,
    Sparse,
}

/// An Arrow logical datatype.
#[derive(Debug, PartialEq, Eq, Hash)]
pub enum ArrowDatatype {
    Null,
    Boolean,
    Int8,
    Int16,
    Int32,
    Int64,
    UInt8,
    UInt16,
    UInt32,
    UInt64,
    Float16,
    Float32,
    Float64,
    Timestamp(TimeUnit, Option<String>),
    Date32,
    Date64,
    Time32(TimeUnit),
    Time64(TimeUnit),
    Duration(TimeUnit),
    Interval(IntervalUnit),
    Binary,
    FixedSizeBinary(usize),
    LargeBinary,
    Utf8,
    LargeUtf8,
    List(Box<ArrowField>),
    FixedSizeList(Box<ArrowField>, usize),
    LargeList(Box<ArrowField>),
    Struct(Vec<ArrowField>),
    Union(Vec<ArrowField>, Option<Vec<i32>>, UnionMode),
    MapType(Box<ArrowField>, bool),
    Dictionary(IntegerType, Box<ArrowDatatype>, bool),
    Decimal(usize, usize),
    Decimal256(usize, usize),
    Extension(String, Box<ArrowDatatype>, Option<String>),
}

/// An Arrow field: a named, possibly nullable, column of a datatype, with metadata.
#[derive(Debug, PartialEq, Eq, Hash)]
pub struct ArrowField {
    pub name: String,
    pub data_type: ArrowDatatype,
    pub is_nullable: bool,
    /// `(key, value)` pairs, keys in increasing order.
    pub metadata: Vec<(String, String)>,
}

/// What an [`ArrowDatatype`] denotes, its texts taken as character sequences.
pub enum DatatypeModel {
    Null,
    Boolean,
    Int8,
    Int16,
    Int32,
    Int64,
    UInt8,
    UInt16,
    UInt32,
    UInt64,
    Float16,
    Float32,
    Float64,
    Timestamp(TimeUnit, Option<Seq<char>>),
    Date32,
    Date64,
    Time32(TimeUnit),
    Time64(TimeUnit),
    Duration(TimeUnit),
    Interval(IntervalUnit),
    Binary,
    FixedSizeBinary(usize),
    LargeBinary,
    Utf8,
    LargeUtf8,
    List(Box<FieldModel>),
    FixedSizeList(Box<FieldModel>, usize),
    LargeList(Box<FieldModel>),
    Struct(Seq<FieldModel>),
    Union(Seq<FieldModel>, Option<Seq<i32>>, UnionMode),
    MapType(Box<FieldModel>, bool),
    Dictionary(IntegerType, Box<DatatypeModel>, bool),
    Decimal(usize, usize),
    Decimal256(usize, usize),
    Extension(Seq<char>, Box<DatatypeModel>, Option<Seq<char>>),
}

/// What an [`ArrowField`] denotes.
pub struct FieldModel {
    pub name: Seq<char>,
    pub data_type: DatatypeModel,
    pub is_nullable: bool,
    pub metadata: Seq<(Seq<char>, Seq<char>)>,
}

pub open spec fn opt_text(o: Option<String>) -> Option<Seq<char>> {
    match o {
        Some(s) => Some(s@),
        None => None,
    }
}

pub open spec fn pairs_model(v: Vec<(String, String)>) -> Seq<(Seq<char>, Seq<char>)> {
    Seq::new(v@.len(), |i: int| (v@[i].0@, v@[i].1@))
}

pub open spec fn fields_model(v: Vec<ArrowField>) -> Seq<FieldModel>
    decreases v,
{
    Seq::new(
        v@.len(),
        |i: int|
            if 0 <= i < v@.len() {
                field_model(v@[i])
            } else {
                FieldModel {
                    name: Seq::empty(),
                    data_type: DatatypeModel::Null,
                    is_nullable: false,
                    metadata: Seq::empty(),
                }
            },
    )
}

pub open spec fn datatype_model(d: ArrowDatatype) -> DatatypeModel
    decreases d,
{
    match d {
        ArrowDatatype::Null => DatatypeModel::Null,
        ArrowDatatype::Boolean => DatatypeModel::Boolean,
        ArrowDatatype::Int8 => DatatypeModel::Int8,
        ArrowDatatype::Int16 => DatatypeModel::Int16,
        ArrowDatatype::Int32 => DatatypeModel::Int32,
        ArrowDatatype::Int64 => DatatypeModel::Int64,
        ArrowDatatype::UInt8 => DatatypeModel::UInt8,
        ArrowDatatype::UInt16 => DatatypeModel::UInt16,
        ArrowDatatype::UInt32 => DatatypeModel::UInt32,
        ArrowDatatype::UInt64 => DatatypeModel::UInt64,
        ArrowDatatype::Float16 => DatatypeModel::Float16,
        ArrowDatatype::Float32 => DatatypeModel::Float32,
        ArrowDatatype::Float64 => DatatypeModel::Float64,
        ArrowDatatype::Timestamp(u, tz) => DatatypeModel::Timestamp(u, opt_text(tz)),
        ArrowDatatype::Date32 => DatatypeModel::Date32,
        ArrowDatatype::Date64 => DatatypeModel::Date64,
        ArrowDatatype::Time32(u) => DatatypeModel::Time32(u),
        ArrowDatatype::Time64(u) => DatatypeModel::Time64(u),
        ArrowDatatype::Duration(u) => DatatypeModel::Duration(u),
        ArrowDatatype::Interval(u) => DatatypeModel::Interval(u),
        ArrowDatatype::Binary => DatatypeModel::Binary,
        ArrowDatatype::FixedSizeBinary(n) => DatatypeModel::FixedSizeBinary(n),
        ArrowDatatype::LargeBinary => DatatypeModel::LargeBinary,
        ArrowDatatype::Utf8 => DatatypeModel::Utf8,
        ArrowDatatype::LargeUtf8 => DatatypeModel::LargeUtf8,
        ArrowDatatype::List(f) => DatatypeModel::List(Box::new(field_model(*f))),
        ArrowDatatype::FixedSizeList(f, n) => DatatypeModel::FixedSizeList(
            Box::new(field_model(*f)),
            n,
        ),
        ArrowDatatype::LargeList(f) => DatatypeModel::LargeList(Box::new(field_model(*f))),
        ArrowDatatype::Struct(fs) => DatatypeModel::Struct(fields_model(fs)),
        ArrowDatatype::Union(fs, ids, mode) => DatatypeModel::Union(
            fields_model(fs),
            match ids {
                Some(v) => Some(v@),
                None => None,
            },
            mode,
        ),
        ArrowDatatype::MapType(f, sorted) => DatatypeModel::MapType(Box::new(field_model(*f)), sorted),
        ArrowDatatype::Dictionary(k, v, sorted) => DatatypeModel::Dictionary(
            k,
            Box::new(datatype_model(*v)),
            sorted,
        ),
        ArrowDatatype::Decimal(p, s) => DatatypeModel::Decimal(p, s),
        ArrowDatatype::Decimal256(p, s) => DatatypeModel::Decimal256(p, s),
        ArrowDatatype::Extension(name, inner, meta) => DatatypeModel::Extension(
            name@,
            Box::new(datatype_model(*inner)),
            opt_text(meta),
        ),
    }
}

pub open spec fn field_model(f: ArrowField) -> FieldModel
    decreases f,
{
    FieldModel {
        name: f.name@,
        data_type: datatype_model(f.data_type),
        is_nullable: f.is_nullable,
        metadata: pairs_model(f.metadata),
    }
}

impl View for ArrowDatatype {
    type V = DatatypeModel;

    open spec fn view(&self) -> DatatypeModel {
        datatype_model(*self)
    }
}

impl View for ArrowField {
    type V = FieldModel;

    open spec fn view(&self) -> FieldModel {
        field_model(*self)
    }
}

fn copy_text(o: &Option<String>) -> (r: Option<String>)
    ensures
        opt_text(r) == opt_text(*o),
{
    match o {
        Some(s) => Some(s.clone()),
        None => None,
    }
}

fn copy_pairs(v: &Vec<(String, String)>) -> (r: Vec<(String, String)>)
    ensures
        pairs_model(r) == pairs_model(*v),
{
    let mut r: Vec<(String, String)> = Vec::new();
    let mut i: usize = 0;
    while i < v.len()
        invariant
            i <= v.len(),
            r@.len() == i,
            forall|j: int| 0 <= j < i ==> r@[j].0@ == v@[j].0@ && r@[j].1@ == v@[j].1@,
        decreases v.len() - i,
    {
        let (k, x) = &v[i];
        r.push((k.clone(), x.clone()));
        i = i + 1;
    }
    assert(pairs_model(r) =~= pairs_model(*v));
    r
}

fn copy_fields(v: &Vec<ArrowField>) -> (r: Vec<ArrowField>)
    ensures
        fields_model(r) == fields_model(*v),
    decreases *v, 0nat,
{
    let mut r: Vec<ArrowField> = Vec::new();
    let mut i: usize = 0;
    while i < v.len()
        invariant
            i <= v.len(),
            r@.len() == i,
            forall|j: int| 0 <= j < i ==> field_model(r@[j]) == field_model(v@[j]),
        decreases v.len() - i,
    {
        assert(decreases_to!(*v => v@[i as int]));
        let f = copy_field(&v[i]);
        r.push(f);
        i = i + 1;
    }
    assert(fields_model(r) =~= fields_model(*v));
    r
}

fn copy_field(f: &ArrowField) -> (r: ArrowField)
    ensures
        r@ == f@,
    decreases *f, 1nat,
{
    ArrowField {
        name: f.name.clone(),
        data_type: copy_datatype(&f.data_type),
        is_nullable: f.is_nullable,
        metadata: copy_pairs(&f.metadata),
    }
}

fn copy_datatype(d: &ArrowDatatype) -> (r: ArrowDatatype)
    ensures
        r@ == d@,
    decreases *d, 1nat,
{
    match d {
        ArrowDatatype::Null => ArrowDatatype::Null,
        ArrowDatatype::Boolean => ArrowDatatype::Boolean,
        ArrowDatatype::Int8 => ArrowDatatype::Int8,
        ArrowDatatype::Int16 => ArrowDatatype::Int16,
        ArrowDatatype::Int32 => ArrowDatatype::Int32,
        ArrowDatatype::Int64 => ArrowDatatype::Int64,
        ArrowDatatype::UInt8 => ArrowDatatype::UInt8,
        ArrowDatatype::UInt16 => ArrowDatatype::UInt16,
        ArrowDatatype::UInt32 => ArrowDatatype::UInt32,
        ArrowDatatype::UInt64 => ArrowDatatype::UInt64,
        ArrowDatatype::Float16 => ArrowDatatype::Float16,
        ArrowDatatype::Float32 => ArrowDatatype::Float32,
        ArrowDatatype::Float64 => ArrowDatatype::Float64,
        ArrowDatatype::Timestamp(u, tz) => ArrowDatatype::Timestamp(*u, copy_text(tz)),
        ArrowDatatype::Date32 => ArrowDatatype::Date32,
        ArrowDatatype::Date64 => ArrowDatatype::Date64,
        ArrowDatatype::Time32(u) => ArrowDatatype::Time32(*u),
        ArrowDatatype::Time64(u) => ArrowDatatype::Time64(*u),
        ArrowDatatype::Duration(u) => ArrowDatatype::Duration(*u),
        ArrowDatatype::Interval(u) => ArrowDatatype::Interval(*u),
        ArrowDatatype::Binary => ArrowDatatype::Binary,
        ArrowDatatype::FixedSizeBinary(n) => ArrowDatatype::FixedSizeBinary(*n),
        ArrowDatatype::LargeBinary => ArrowDatatype::LargeBinary,
        ArrowDatatype::Utf8 => ArrowDatatype::Utf8,
        ArrowDatatype::LargeUtf8 => ArrowDatatype::LargeUtf8,
        ArrowDatatype::List(f) => ArrowDatatype::List(Box::new(copy_field(f))),
        ArrowDatatype::FixedSizeList(f, n) => ArrowDatatype::FixedSizeList(
            Box::new(copy_field(f)),
            *n,
        ),
        ArrowDatatype::LargeList(f) => ArrowDatatype::LargeList(Box::new(copy_field(f))),
        ArrowDatatype::Struct(fs) => ArrowDatatype::Struct(copy_fields(fs)),
        ArrowDatatype::Union(fs, ids, mode) => ArrowDatatype::Union(
            copy_fields(fs),
            match ids {
                Some(v) => Some(v.clone()),
                None => None,
            },
            *mode,
        ),
        ArrowDatatype::MapType(f, sorted) => ArrowDatatype::MapType(Box::new(copy_field(f)), *sorted),
        ArrowDatatype::Dictionary(k, v, sorted) => ArrowDatatype::Dictionary(
            *k,
            Box::new(copy_datatype(v)),
            *sorted,
        ),
        ArrowDatatype::Decimal(p, s) => ArrowDatatype::Decimal(*p, *s),
        ArrowDatatype::Decimal256(p, s) => ArrowDatatype::Decimal256(*p, *s),
        ArrowDatatype::Extension(name, inner, meta) => ArrowDatatype::Extension(
            name.clone(),
            Box::new(copy_datatype(inner)),
            copy_text(meta),
        ),
    }
}

impl Clone for ArrowDatatype {
    fn clone(&self) -> (r: Self)
        ensures
            r@ == self@,
    {
        copy_datatype(self)
    }
}

impl Clone for ArrowField {
    fn clone(&self) -> (r: Self)
        ensures
            r@ == self@,
    {
        copy_field(self)
    }
}

/// The field `ArrowField::new(name, data_type, is_nullable)` builds: no metadata.
pub open spec fn plain_field_model(
    name: Seq<char>,
    data_type: DatatypeModel,
    is_nullable: bool,
) -> FieldModel {
    FieldModel { name, data_type, is_nullable, metadata: Seq::empty() }
}

impl ArrowField {
    /// A field without metadata.
    pub fn new(name: String, data_type: ArrowDatatype, is_nullable: bool) -> (r: Self)
        ensures
            r@ == plain_field_model(name@, data_type@, is_nullable),
    {
        let r = ArrowField { name, data_type, is_nullable, metadata: Vec::new() };
        assert(pairs_model(r.metadata) =~= Seq::empty());
        r
    }

    /// The same field, its metadata replaced.
    pub fn with_metadata(self, metadata: Vec<(String, String)>) -> (r: Self)
        ensures
            r@ == (FieldModel { metadata: pairs_model(metadata), ..self@ }),
    {
        ArrowField { metadata, ..self }
    }
}

/// The datatype of a list of `inner` values with 32-bit offsets: a `List` whose item
/// field is named `item` and is nullable.
pub open spec fn list_model(inner: DatatypeModel) -> DatatypeModel {
    DatatypeModel::List(Box::new(plain_field_model("item"@, inner, true)))
}

/// The datatype of `inner` values encoded through a dictionary with `Int32` keys.
pub open spec fn dictionary_model(inner: DatatypeModel) -> DatatypeModel {
    DatatypeModel::Dictionary(IntegerType::Int32, Box::new(inner), true)
}

/// The default datatype of a list array with 32-bit offsets over `inner`.
pub fn list_datatype(inner: ArrowDatatype) -> (r: ArrowDatatype)
    ensures
        r@ == list_model(inner@),
{
    ArrowDatatype::List(Box::new(ArrowField::new(owned("item"), inner, true)))
}

/// `inner`, dictionary-encoded with `Int32` keys.
pub fn dictionary_datatype(inner: ArrowDatatype) -> (r: ArrowDatatype)
    ensures
        r@ == dictionary_model(inner@),
{
    ArrowDatatype::Dictionary(IntegerType::Int32, Box::new(inner), true)
}

} // verus!
