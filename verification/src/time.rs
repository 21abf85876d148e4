//! Timelines and points on them.
use vstd::prelude::*;

use crate::arrow::{ArrowDatatype, DatatypeModel, TimeUnit};
use crate::names::TimelineName;
use crate::sorted::order_laws;
use crate::text::{
    chars_order, flip, lemma_chars_order_equal, lemma_chars_order_flip, lemma_chars_order_trans,
    then_order, Order,
};

verus! {

/// The kind of a timeline: wall-clock time, or a sequence number.
#[derive(Debug, Clone, Copy, PartialEq, Eq, Hash, Structural)]
pub enum TimeType {
    Time,
    Sequence,
}

/// `Time` comes before `Sequence`.
pub open spec fn time_type_order(a: TimeType, b: TimeType) -> Order {
    if a == b {
        Order::Equal
    } else if a == TimeType::Time {
        Order::Less
    } else {
        Order::Greater
    }
}

/// The Arrow datatype of the values of a timeline of the given kind.
pub open spec fn time_type_datatype(typ: TimeType) -> DatatypeModel {
    match typ {
        TimeType::Time => DatatypeModel::Timestamp(TimeUnit::Nanosecond, None),
        TimeType::Sequence => DatatypeModel::Int64,
    }
}

impl TimeType {
    pub fn datatype(self) -> (r: ArrowDatatype)
        ensures
            r@ == time_type_datatype(self),
    {
        match self {
            TimeType::Time => ArrowDatatype::Timestamp(TimeUnit::Nanosecond, None),
            TimeType::Sequence => ArrowDatatype::Int64,
        }
    }
}

/// A point on a timeline; `i64::MIN` stands for static data.
#[derive(Debug, Clone, Copy, PartialEq, Eq, Hash, Structural)]
pub struct TimeInt(pub i64);

impl TimeInt {
    pub fn new(value: i64) -> (r: Self)
        ensures
            r.0 == value,
    {
        TimeInt(value)
    }

    pub fn as_i64(self) -> (r: i64)
        ensures
            r == self.0,
    {
        self.0
    }
}

/// An inclusive range of time points.
#[derive(Debug, Clone, Copy, PartialEq, Eq, Hash, Structural)]
pub struct ResolvedTimeRange {
    pub min: TimeInt,
    pub max: TimeInt,
}

impl ResolvedTimeRange {
    pub fn new(min: TimeInt, max: TimeInt) -> (r: Self)
        ensures
            r.min == min,
            r.max == max,
    {
        ResolvedTimeRange { min, max }
    }

    pub fn min(&self) -> (r: TimeInt)
        ensures
            r == self.min,
    {
        self.min
    }

    pub fn max(&self) -> (r: TimeInt)
        ensures
            r == self.max,
    {
        self.max
    }
}

/// A named timeline of a given kind.
#[derive(Debug, PartialEq, Eq, Hash)]
pub struct Timeline {
    pub name: TimelineName,
    pub typ: TimeType,
}

/// What a [`Timeline`] denotes.
pub struct TimelineModel {
    pub name: Seq<char>,
    pub typ: TimeType,
}

impl View for Timeline {
    type V = TimelineModel;

    open spec fn view(&self) -> TimelineModel {
        TimelineModel { name: self.name@, typ: self.typ }
    }
}

/// Timelines are ordered by name, then by kind.
pub open spec fn timeline_order(a: TimelineModel, b: TimelineModel) -> Order {
    then_order(chars_order(a.name, b.name), time_type_order(a.typ, b.typ))
}

/// The laws of [`timeline_order`] for three given timelines.
pub proof fn lemma_timeline_order(a: TimelineModel, b: TimelineModel, c: TimelineModel)
    ensures
        timeline_order(b, a) == flip(timeline_order(a, b)),
        (timeline_order(a, b) == Order::Equal) <==> (a == b),
        timeline_order(a, b) == Order::Less && timeline_order(b, c) == Order::Less
            ==> timeline_order(a, c) == Order::Less,
{
    lemma_chars_order_flip(a.name, b.name);
    lemma_chars_order_equal(a.name, b.name);
    lemma_chars_order_equal(b.name, c.name);
    lemma_chars_order_equal(a.name, c.name);
    if chars_order(a.name, b.name) == Order::Less && chars_order(b.name, c.name) == Order::Less {
        lemma_chars_order_trans(a.name, b.name, c.name);
    }
}

/// [`timeline_order`] as a function value.
pub open spec fn timeline_ord() -> spec_fn(TimelineModel, TimelineModel) -> Order {
    |a: TimelineModel, b: TimelineModel| timeline_order(a, b)
}

/// Timelines are ordered by an order that obeys the order laws.
pub proof fn lemma_timeline_order_laws()
    ensures
        order_laws(timeline_ord()),
{
    assert forall|a: TimelineModel, b: TimelineModel| #[trigger] timeline_ord()(a, b) == flip(
        timeline_ord()(b, a),
    ) by {
        lemma_timeline_order(b, a, a);
    }
    assert forall|a: TimelineModel, b: TimelineModel, c: TimelineModel|
        #![trigger timeline_ord()(a, b), timeline_ord()(b, c)]
        timeline_ord()(a, b) == Order::Less && timeline_ord()(b, c) == Order::Less
            implies timeline_ord()(a, c) == Order::Less by {
        lemma_timeline_order(a, b, c);
    }
}

impl Clone for Timeline {
    fn clone(&self) -> (r: Self)
        ensures
            r@ == self@,
    {
        Timeline { name: self.name.clone(), typ: self.typ }
    }
}

impl Timeline {
    pub fn new(name: TimelineName, typ: TimeType) -> (r: Self)
        ensures
            r@ == (TimelineModel { name: name@, typ }),
    {
        Timeline { name, typ }
    }

    /// A wall-clock timeline of the given name.
    pub fn new_temporal(name: TimelineName) -> (r: Self)
        ensures
            r@ == (TimelineModel { name: name@, typ: TimeType::Time }),
    {
        Timeline { name, typ: TimeType::Time }
    }

    /// A sequence timeline of the given name.
    pub fn new_sequence(name: TimelineName) -> (r: Self)
        ensures
            r@ == (TimelineModel { name: name@, typ: TimeType::Sequence }),
    {
        Timeline { name, typ: TimeType::Sequence }
    }

    pub fn name(&self) -> (r: &TimelineName)
        ensures
            r@ == self@.name,
    {
        &self.name
    }

    pub fn typ(&self) -> (r: TimeType)
        ensures
            r == self@.typ,
    {
        self.typ
    }

    /// The Arrow datatype of this timeline's values.
    pub fn datatype(&self) -> (r: ArrowDatatype)
        ensures
            r@ == time_type_datatype(self@.typ),
    {
        self.typ.datatype()
    }

    /// Orders timelines by name, then by kind.
    pub fn compare(&self, other: &Self) -> (r: Order)
        ensures
            r == timeline_order(self@, other@),
    {
        let by_name = self.name.compare(&other.name);
        match by_name {
            Order::Equal => {
                if self.typ == other.typ {
                    Order::Equal
                } else if self.typ == TimeType::Time {
                    Order::Less
                } else {
                    Order::Greater
                }
            },
            _ => by_name,
        }
    }
}

} // verus!
