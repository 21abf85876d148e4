//! Descriptions of the columns a dataframe query can return.
use vstd::prelude::*;

use crate::arrow::{
    dictionary_datatype, dictionary_model, list_datatype, list_model, pairs_model,
    plain_field_model, ArrowDatatype, ArrowField, DatatypeModel, FieldModel,
};
use crate::names::{archetype_short_name, component_short_name, ArchetypeName, ComponentName};
use crate::path::{lemma_parts_order, path_text, parts_order, EntityPath};
use crate::sorted::order_laws;
use crate::text::{
    chars_order, concat, flip, lemma_chars_order_equal, lemma_chars_order_flip,
    lemma_chars_order_trans, lemma_opt_chars_order, opt_chars_order, owned, then_order, Order,
};
use crate::time::{lemma_timeline_order, timeline_order, Timeline, TimelineModel};

verus! {

/// When selecting secondary component columns, how the joined data is encoded.
#[derive(Debug, Clone, Copy, PartialEq, Eq, Hash, Structural)]
pub enum JoinEncoding {
    /// Slice the record batch to minimal overlapping sub-ranges; the default.
    OverlappingSlice,
    /// Dictionary-encode the joined column, which changes its physical type.
    DictionaryEncode,
}

impl Default for JoinEncoding {
    fn default() -> (r: Self)
        ensures
            r == JoinEncoding::OverlappingSlice,
    {
        JoinEncoding::OverlappingSlice
    }
}

/// The component name of row ids, the one control column.
pub open spec fn row_id_name() -> Seq<char> {
    "rerun.controls.RowId"@
}

/// The Arrow datatype of row ids: a struct of two unsigned 64-bit integers.
pub open spec fn row_id_datatype() -> DatatypeModel {
    DatatypeModel::Struct(
        seq![
            plain_field_model("time_ns"@, DatatypeModel::UInt64, false),
            plain_field_model("inc"@, DatatypeModel::UInt64, false),
        ],
    )
}

/// The component name of row ids.
pub fn row_id_component_name() -> (r: ComponentName)
    ensures
        r@ == row_id_name(),
{
    ComponentName::new("rerun.controls.RowId")
}

/// The Arrow datatype of row ids.
pub fn row_id_arrow_datatype() -> (r: ArrowDatatype)
    ensures
        r@ == row_id_datatype(),
{
    let mut fields: Vec<ArrowField> = Vec::new();
    fields.push(ArrowField::new(owned("time_ns"), ArrowDatatype::UInt64, false));
    fields.push(ArrowField::new(owned("inc"), ArrowDatatype::UInt64, false));
    let r = ArrowDatatype::Struct(fields);
    assert(r@ == row_id_datatype()) by {
        assert(crate::arrow::fields_model(fields) =~= seq![
            plain_field_model("time_ns"@, DatatypeModel::UInt64, false),
            plain_field_model("inc"@, DatatypeModel::UInt64, false),
        ]);
    }
    r
}

// --- Descriptors ---

/// Describes a column used to control behavior, such as the row id.
#[derive(Debug, PartialEq, Eq, Hash)]
pub struct ControlColumnDescriptor {
    /// Semantic name associated with this data, e.g. the row id's.
    pub component_name: ComponentName,
    /// The Arrow datatype of the column.
    pub datatype: ArrowDatatype,
}

/// Describes a time column, such as `log_time`.
#[derive(Debug, PartialEq, Eq, Hash)]
pub struct TimeColumnDescriptor {
    /// The timeline this column is associated with.
    pub timeline: Timeline,
    /// The Arrow datatype of the column.
    pub datatype: ArrowDatatype,
}

/// Describes a data/component column, such as `Position3D`.
#[derive(Debug, PartialEq, Eq, Hash)]
pub struct ComponentColumnDescriptor {
    /// The path of the entity.
    pub entity_path: EntityPath,
    /// Name of the archetype this data was logged through, if any.
    pub archetype_name: Option<ArchetypeName>,
    /// Name of the field within that archetype, if any.
    pub archetype_field_name: Option<String>,
    /// Semantic name associated with this data.
    pub component_name: ComponentName,
    /// The Arrow datatype of the stored column: a list of the component's datatype.
    pub store_datatype: ArrowDatatype,
    /// How the data will be joined into the resulting record batch.
    pub join_encoding: JoinEncoding,
    /// Whether this column represents static data.
    pub is_static: bool,
}

/// Describes any kind of column.
#[derive(Debug, PartialEq, Eq, Hash)]
pub enum ColumnDescriptor {
    Control(ControlColumnDescriptor),
    Time(TimeColumnDescriptor),
    Component(ComponentColumnDescriptor),
}

/// What a [`ControlColumnDescriptor`] denotes.
pub struct ControlModel {
    pub component_name: Seq<char>,
    pub datatype: DatatypeModel,
}

/// What a [`TimeColumnDescriptor`] denotes.
pub struct TimeModel {
    pub timeline: TimelineModel,
    pub datatype: DatatypeModel,
}

/// What a [`ComponentColumnDescriptor`] denotes.
pub struct ComponentModel {
    pub entity_path: Seq<Seq<char>>,
    pub archetype_name: Option<Seq<char>>,
    pub archetype_field_name: Option<Seq<char>>,
    pub component_name: Seq<char>,
    pub store_datatype: DatatypeModel,
    pub join_encoding: JoinEncoding,
    pub is_static: bool,
}

/// What a [`ColumnDescriptor`] denotes.
pub enum ColumnModel {
    Control(ControlModel),
    Time(TimeModel),
    Component(ComponentModel),
}

pub open spec fn opt_archetype(o: Option<ArchetypeName>) -> Option<Seq<char>> {
    match o {
        Some(a) => Some(a@),
        None => None,
    }
}

pub open spec fn opt_string(o: Option<String>) -> Option<Seq<char>> {
    match o {
        Some(s) => Some(s@),
        None => None,
    }
}

impl View for ControlColumnDescriptor {
    type V = ControlModel;

    open spec fn view(&self) -> ControlModel {
        ControlModel { component_name: self.component_name@, datatype: self.datatype@ }
    }
}

impl View for TimeColumnDescriptor {
    type V = TimeModel;

    open spec fn view(&self) -> TimeModel {
        TimeModel { timeline: self.timeline@, datatype: self.datatype@ }
    }
}

impl View for ComponentColumnDescriptor {
    type V = ComponentModel;

    open spec fn view(&self) -> ComponentModel {
        ComponentModel {
            entity_path: self.entity_path@,
            archetype_name: opt_archetype(self.archetype_name),
            archetype_field_name: opt_string(self.archetype_field_name),
            component_name: self.component_name@,
            store_datatype: self.store_datatype@,
            join_encoding: self.join_encoding,
            is_static: self.is_static,
        }
    }
}

impl View for ColumnDescriptor {
    type V = ColumnModel;

    open spec fn view(&self) -> ColumnModel {
        match self {
            ColumnDescriptor::Control(d) => ColumnModel::Control(d@),
            ColumnDescriptor::Time(d) => ColumnModel::Time(d@),
            ColumnDescriptor::Component(d) => ColumnModel::Component(d@),
        }
    }
}

impl Clone for ControlColumnDescriptor {
    fn clone(&self) -> (r: Self)
        ensures
            r@ == self@,
    {
        ControlColumnDescriptor {
            component_name: self.component_name.clone(),
            datatype: self.datatype.clone(),
        }
    }
}

impl Clone for TimeColumnDescriptor {
    fn clone(&self) -> (r: Self)
        ensures
            r@ == self@,
    {
        TimeColumnDescriptor { timeline: self.timeline.clone(), datatype: self.datatype.clone() }
    }
}

impl Clone for ComponentColumnDescriptor {
    fn clone(&self) -> (r: Self)
        ensures
            r@ == self@,
    {
        ComponentColumnDescriptor {
            entity_path: self.entity_path.clone(),
            archetype_name: match &self.archetype_name {
                Some(a) => Some(a.clone()),
                None => None,
            },
            archetype_field_name: match &self.archetype_field_name {
                Some(f) => Some(f.clone()),
                None => None,
            },
            component_name: self.component_name.clone(),
            store_datatype: self.store_datatype.clone(),
            join_encoding: self.join_encoding,
            is_static: self.is_static,
        }
    }
}

impl Clone for ColumnDescriptor {
    fn clone(&self) -> (r: Self)
        ensures
            r@ == self@,
    {
        match self {
            ColumnDescriptor::Control(d) => ColumnDescriptor::Control(d.clone()),
            ColumnDescriptor::Time(d) => ColumnDescriptor::Time(d.clone()),
            ColumnDescriptor::Component(d) => ColumnDescriptor::Component(d.clone()),
        }
    }
}

// --- Orders ---

/// Control columns are ordered by component name; the datatype does not take part.
pub open spec fn control_order(a: ControlModel, b: ControlModel) -> Order {
    chars_order(a.component_name, b.component_name)
}

/// Time columns are ordered by timeline; the datatype does not take part.
pub open spec fn time_order(a: TimeModel, b: TimeModel) -> Order {
    timeline_order(a.timeline, b.timeline)
}

/// Component columns are ordered by entity path, then component name, then archetype
/// name, then archetype field name; datatype, join encoding and staticness do not
/// take part.
pub open spec fn component_order(a: ComponentModel, b: ComponentModel) -> Order {
    then_order(
        parts_order(a.entity_path, b.entity_path),
        then_order(
            chars_order(a.component_name, b.component_name),
            then_order(
                opt_chars_order(a.archetype_name, b.archetype_name),
                opt_chars_order(a.archetype_field_name, b.archetype_field_name),
            ),
        ),
    )
}

/// Rank of a column kind: control columns first, then time columns, then components.
pub open spec fn column_rank(c: ColumnModel) -> int {
    match c {
        ColumnModel::Control(_) => 0,
        ColumnModel::Time(_) => 1,
        ColumnModel::Component(_) => 2,
    }
}

/// Columns are ordered by kind, then within a kind by that kind's order.
pub open spec fn column_order(a: ColumnModel, b: ColumnModel) -> Order {
    if column_rank(a) < column_rank(b) {
        Order::Less
    } else if column_rank(a) > column_rank(b) {
        Order::Greater
    } else {
        match (a, b) {
            (ColumnModel::Control(x), ColumnModel::Control(y)) => control_order(x, y),
            (ColumnModel::Time(x), ColumnModel::Time(y)) => time_order(x, y),
            (ColumnModel::Component(x), ColumnModel::Component(y)) => component_order(x, y),
            _ => Order::Equal,
        }
    }
}

/// The laws of [`component_order`] for three given columns; two columns compare
/// equal exactly when their entity paths, component names, archetype names and
/// archetype field names are the same.
pub proof fn lemma_component_order(a: ComponentModel, b: ComponentModel, c: ComponentModel)
    ensures
        component_order(b, a) == flip(component_order(a, b)),
        (component_order(a, b) == Order::Equal) <==> (a.entity_path == b.entity_path
            && a.component_name == b.component_name && a.archetype_name == b.archetype_name
            && a.archetype_field_name == b.archetype_field_name),
        component_order(a, b) == Order::Less && component_order(b, c) == Order::Less
            ==> component_order(a, c) == Order::Less,
{
    lemma_parts_order(a.entity_path, b.entity_path, c.entity_path);
    lemma_parts_order(b.entity_path, c.entity_path, a.entity_path);
    lemma_parts_order(a.entity_path, c.entity_path, b.entity_path);
    lemma_chars_order_flip(a.component_name, b.component_name);
    lemma_chars_order_equal(a.component_name, b.component_name);
    lemma_chars_order_equal(b.component_name, c.component_name);
    lemma_chars_order_equal(a.component_name, c.component_name);
    if chars_order(a.component_name, b.component_name) == Order::Less && chars_order(
        b.component_name,
        c.component_name,
    ) == Order::Less {
        lemma_chars_order_trans(a.component_name, b.component_name, c.component_name);
    }
    lemma_opt_chars_order(a.archetype_name, b.archetype_name, c.archetype_name);
    lemma_opt_chars_order(b.archetype_name, c.archetype_name, a.archetype_name);
    lemma_opt_chars_order(a.archetype_name, c.archetype_name, b.archetype_name);
    lemma_opt_chars_order(a.archetype_field_name, b.archetype_field_name, c.archetype_field_name);
    lemma_opt_chars_order(b.archetype_field_name, c.archetype_field_name, a.archetype_field_name);
    lemma_opt_chars_order(a.archetype_field_name, c.archetype_field_name, b.archetype_field_name);
}

/// [`component_order`] as a function value.
pub open spec fn component_ord() -> spec_fn(ComponentModel, ComponentModel) -> Order {
    |a: ComponentModel, b: ComponentModel| component_order(a, b)
}

/// [`column_order`] as a function value.
pub open spec fn column_ord() -> spec_fn(ColumnModel, ColumnModel) -> Order {
    |a: ColumnModel, b: ColumnModel| column_order(a, b)
}

/// The laws of [`column_order`] for three given columns.
pub proof fn lemma_column_order(a: ColumnModel, b: ColumnModel, c: ColumnModel)
    ensures
        column_order(b, a) == flip(column_order(a, b)),
        column_order(a, b) == Order::Less && column_order(b, c) == Order::Less
            ==> column_order(a, c) == Order::Less,
{
    match (a, b) {
        (ColumnModel::Control(x), ColumnModel::Control(y)) => {
            lemma_chars_order_flip(x.component_name, y.component_name);
        },
        (ColumnModel::Time(x), ColumnModel::Time(y)) => {
            lemma_timeline_order(x.timeline, y.timeline, x.timeline);
        },
        (ColumnModel::Component(x), ColumnModel::Component(y)) => {
            lemma_component_order(x, y, x);
        },
        _ => {},
    }
    match (a, b, c) {
        (ColumnModel::Control(x), ColumnModel::Control(y), ColumnModel::Control(z)) => {
            if chars_order(x.component_name, y.component_name) == Order::Less && chars_order(
                y.component_name,
                z.component_name,
            ) == Order::Less {
                lemma_chars_order_trans(x.component_name, y.component_name, z.component_name);
            }
        },
        (ColumnModel::Time(x), ColumnModel::Time(y), ColumnModel::Time(z)) => {
            lemma_timeline_order(x.timeline, y.timeline, z.timeline);
        },
        (ColumnModel::Component(x), ColumnModel::Component(y), ColumnModel::Component(z)) => {
            lemma_component_order(x, y, z);
        },
        _ => {},
    }
}

/// Component columns and columns are ordered by orders that obey the order laws.
pub proof fn lemma_column_order_laws()
    ensures
        order_laws(component_ord()),
        order_laws(column_ord()),
{
    assert forall|a: ComponentModel, b: ComponentModel| #[trigger] component_ord()(a, b) == flip(
        component_ord()(b, a),
    ) by {
        lemma_component_order(b, a, a);
    }
    assert forall|a: ComponentModel, b: ComponentModel, c: ComponentModel|
        #![trigger component_ord()(a, b), component_ord()(b, c)]
        component_ord()(a, b) == Order::Less && component_ord()(b, c) == Order::Less
            implies component_ord()(a, c) == Order::Less by {
        lemma_component_order(a, b, c);
    }
    assert forall|a: ColumnModel, b: ColumnModel| #[trigger] column_ord()(a, b) == flip(
        column_ord()(b, a),
    ) by {
        lemma_column_order(b, a, a);
    }
    assert forall|a: ColumnModel, b: ColumnModel, c: ColumnModel|
        #![trigger column_ord()(a, b), column_ord()(b, c)]
        column_ord()(a, b) == Order::Less && column_ord()(b, c) == Order::Less
            implies column_ord()(a, c) == Order::Less by {
        lemma_column_order(a, b, c);
    }
}

impl ControlColumnDescriptor {
    /// Orders by component name.
    pub fn compare(&self, other: &Self) -> (r: Order)
        ensures
            r == control_order(self@, other@),
    {
        self.component_name.compare(&other.component_name)
    }

    /// The Arrow field of this column: named after the full component name, not
    /// nullable.
    pub fn to_arrow_field(&self) -> (r: ArrowField)
        ensures
            r@ == plain_field_model(self@.component_name, self@.datatype, false),
    {
        ArrowField::new(owned(self.component_name.as_str()), self.datatype.clone(), false)
    }
}

impl TimeColumnDescriptor {
    /// Orders by timeline.
    pub fn compare(&self, other: &Self) -> (r: Order)
        ensures
            r == time_order(self@, other@),
    {
        self.timeline.compare(&other.timeline)
    }

    /// The Arrow field of this column: named after the timeline, not nullable.
    pub fn to_arrow_field(&self) -> (r: ArrowField)
        ensures
            r@ == plain_field_model(self@.timeline.name, self@.datatype, false),
    {
        ArrowField::new(owned(self.timeline.name().as_str()), self.datatype.clone(), false)
    }
}

fn compare_opt_archetype(a: &Option<ArchetypeName>, b: &Option<ArchetypeName>) -> (r: Order)
    ensures
        r == opt_chars_order(opt_archetype(*a), opt_archetype(*b)),
{
    match (a, b) {
        (None, None) => Order::Equal,
        (None, Some(_)) => Order::Less,
        (Some(_), None) => Order::Greater,
        (Some(x), Some(y)) => x.compare(y),
    }
}

fn compare_opt_string(a: &Option<String>, b: &Option<String>) -> (r: Order)
    ensures
        r == opt_chars_order(opt_string(*a), opt_string(*b)),
{
    match (a, b) {
        (None, None) => Order::Equal,
        (None, Some(_)) => Order::Less,
        (Some(_), None) => Order::Greater,
        (Some(x), Some(y)) => crate::text::compare_str(x.as_str(), y.as_str()),
    }
}

/// The descriptor `ComponentColumnDescriptor::new` builds.
pub open spec fn new_component_model(
    entity_path: Seq<Seq<char>>,
    component_name: Seq<char>,
    component_datatype: DatatypeModel,
) -> ComponentModel {
    ComponentModel {
        entity_path,
        archetype_name: None,
        archetype_field_name: None,
        component_name,
        store_datatype: list_model(component_datatype),
        join_encoding: JoinEncoding::OverlappingSlice,
        is_static: false,
    }
}

/// The datatype a component column has in query results.
pub open spec fn returned_datatype_model(d: ComponentModel) -> DatatypeModel {
    match d.join_encoding {
        JoinEncoding::OverlappingSlice => d.store_datatype,
        JoinEncoding::DictionaryEncode => dictionary_model(d.store_datatype),
    }
}

/// The metadata of a component column's Arrow field, in increasing key order.
pub open spec fn metadata_model(d: ComponentModel) -> Seq<(Seq<char>, Seq<char>)> {
    (if d.is_static {
        seq![("sorbet.is_static"@, "yes"@)]
    } else {
        Seq::empty()
    }) + (match d.archetype_field_name {
        Some(f) => seq![("sorbet.logical_type"@, f)],
        None => Seq::empty(),
    }) + seq![("sorbet.path"@, path_text(d.entity_path))] + (match d.archetype_name {
        Some(a) => seq![("sorbet.semantic_family"@, archetype_short_name(a))],
        None => Seq::empty(),
    }) + seq![("sorbet.semantic_type"@, component_short_name(d.component_name))]
}

/// The Arrow field of a component column.
pub open spec fn component_field_model(d: ComponentModel) -> FieldModel {
    FieldModel {
        name: component_short_name(d.component_name),
        data_type: returned_datatype_model(d),
        is_nullable: true,
        metadata: metadata_model(d),
    }
}

/// The text of a component column.
pub open spec fn component_text(d: ComponentModel) -> Seq<char> {
    let s = match (d.archetype_name, d.archetype_field_name) {
        (None, None) => d.component_name,
        (Some(a), None) => path_text(d.entity_path) + "@"@ + archetype_short_name(a) + "::"@
            + component_short_name(d.component_name),
        (None, Some(f)) => path_text(d.entity_path) + "@"@ + component_short_name(
            d.component_name,
        ) + "#"@ + f,
        (Some(a), Some(f)) => path_text(d.entity_path) + "@"@ + archetype_short_name(a) + "::"@
            + component_short_name(d.component_name) + "#"@ + f,
    };
    if d.is_static {
        "|"@ + s + "|"@
    } else {
        s
    }
}

impl ComponentColumnDescriptor {
    /// The descriptor of a component column on `entity_path`, for the component named
    /// `component_name` whose values have datatype `component_datatype`.
    pub fn new(
        entity_path: EntityPath,
        component_name: ComponentName,
        component_datatype: ArrowDatatype,
    ) -> (r: Self)
        ensures
            r@ == new_component_model(entity_path@, component_name@, component_datatype@),
    {
        let join_encoding = JoinEncoding::default();
        let store_datatype = list_datatype(component_datatype);
        ComponentColumnDescriptor {
            entity_path,
            archetype_name: None,
            archetype_field_name: None,
            component_name,
            join_encoding,
            store_datatype,
            is_static: false,
        }
    }

    /// Orders by entity path, component name, archetype name, archetype field name.
    pub fn compare(&self, other: &Self) -> (r: Order)
        ensures
            r == component_order(self@, other@),
    {
        let by_path = self.entity_path.compare(&other.entity_path);
        if by_path != Order::Equal {
            return by_path;
        }
        let by_component = self.component_name.compare(&other.component_name);
        if by_component != Order::Equal {
            return by_component;
        }
        let by_archetype = compare_opt_archetype(&self.archetype_name, &other.archetype_name);
        if by_archetype != Order::Equal {
            return by_archetype;
        }
        compare_opt_string(&self.archetype_field_name, &other.archetype_field_name)
    }

    fn metadata(&self) -> (r: Vec<(String, String)>)
        ensures
            pairs_model(r) == metadata_model(self@),
    {
        let mut r: Vec<(String, String)> = Vec::new();
        if self.is_static {
            r.push((owned("sorbet.is_static"), owned("yes")));
        }
        match &self.archetype_field_name {
            Some(name) => {
                r.push((owned("sorbet.logical_type"), name.clone()));
            },
            None => {},
        }
        r.push((owned("sorbet.path"), self.entity_path.to_display_string()));
        match &self.archetype_name {
            Some(name) => {
                r.push((owned("sorbet.semantic_family"), name.short_name()));
            },
            None => {},
        }
        r.push((owned("sorbet.semantic_type"), self.component_name.short_name()));
        assert(pairs_model(r) =~= metadata_model(self@));
        r
    }

    /// The datatype this column has in query results: the stored datatype, wrapped in
    /// a dictionary when dictionary-encoded.
    pub fn returned_datatype(&self) -> (r: ArrowDatatype)
        ensures
            r@ == returned_datatype_model(self@),
    {
        match self.join_encoding {
            JoinEncoding::OverlappingSlice => self.store_datatype.clone(),
            JoinEncoding::DictionaryEncode => dictionary_datatype(self.store_datatype.clone()),
        }
    }

    /// The Arrow field of this column: named after the short component name,
    /// nullable, with the `sorbet.*` metadata.
    pub fn to_arrow_field(&self) -> (r: ArrowField)
        ensures
            r@ == component_field_model(self@),
    {
        ArrowField::new(self.component_name.short_name(), self.returned_datatype(), true).with_metadata(
            self.metadata(),
        )
    }

    /// The same descriptor with another join encoding.
    pub fn with_join_encoding(self, join_encoding: JoinEncoding) -> (r: Self)
        ensures
            r@ == (ComponentModel { join_encoding, ..self@ }),
    {
        ComponentColumnDescriptor { join_encoding, ..self }
    }

    /// The text of this column, e.g. `/world/points@Points3D::Position3D#positions`,
    /// between bars when static.
    pub fn to_display_string(&self) -> (r: String)
        ensures
            r@ == component_text(self@),
    {
        let s = match (&self.archetype_name, &self.archetype_field_name) {
            (None, None) => owned(self.component_name.as_str()),
            (Some(a), None) => {
                let s = self.entity_path.to_display_string();
                let s = concat(s, "@");
                let s = concat(s, a.short_name().as_str());
                let s = concat(s, "::");
                concat(s, self.component_name.short_name().as_str())
            },
            (None, Some(f)) => {
                let s = self.entity_path.to_display_string();
                let s = concat(s, "@");
                let s = concat(s, self.component_name.short_name().as_str());
                let s = concat(s, "#");
                concat(s, f.as_str())
            },
            (Some(a), Some(f)) => {
                let s = self.entity_path.to_display_string();
                let s = concat(s, "@");
                let s = concat(s, a.short_name().as_str());
                let s = concat(s, "::");
                let s = concat(s, self.component_name.short_name().as_str());
                let s = concat(s, "#");
                concat(s, f.as_str())
            },
        };
        if self.is_static {
            let r = concat(owned("|"), s.as_str());
            concat(r, "|")
        } else {
            s
        }
    }
}

/// The datatype a column has in query results.
pub open spec fn column_datatype(c: ColumnModel) -> DatatypeModel {
    match c {
        ColumnModel::Control(d) => d.datatype,
        ColumnModel::Time(d) => d.datatype,
        ColumnModel::Component(d) => returned_datatype_model(d),
    }
}

/// The Arrow field of a column.
pub open spec fn column_field_model(c: ColumnModel) -> FieldModel {
    match c {
        ColumnModel::Control(d) => plain_field_model(d.component_name, d.datatype, false),
        ColumnModel::Time(d) => plain_field_model(d.timeline.name, d.datatype, false),
        ColumnModel::Component(d) => component_field_model(d),
    }
}

/// The short name of a column.
pub open spec fn column_short_name(c: ColumnModel) -> Seq<char> {
    match c {
        ColumnModel::Control(d) => component_short_name(d.component_name),
        ColumnModel::Time(d) => d.timeline.name,
        ColumnModel::Component(d) => component_short_name(d.component_name),
    }
}

impl ColumnDescriptor {
    /// The entity path of a component column; control and time columns have none.
    pub fn entity_path(&self) -> (r: Option<&EntityPath>)
        ensures
            match self@ {
                ColumnModel::Component(d) => r matches Some(p) && p@ == d.entity_path,
                _ => r is None,
            },
    {
        match self {
            ColumnDescriptor::Control(_) | ColumnDescriptor::Time(_) => None,
            ColumnDescriptor::Component(descr) => Some(&descr.entity_path),
        }
    }

    /// The datatype this column has in query results.
    pub fn datatype(&self) -> (r: ArrowDatatype)
        ensures
            r@ == column_datatype(self@),
    {
        match self {
            ColumnDescriptor::Control(descr) => descr.datatype.clone(),
            ColumnDescriptor::Time(descr) => descr.datatype.clone(),
            ColumnDescriptor::Component(descr) => descr.returned_datatype(),
        }
    }

    /// The Arrow field of this column.
    pub fn to_arrow_field(&self) -> (r: ArrowField)
        ensures
            r@ == column_field_model(self@),
    {
        match self {
            ColumnDescriptor::Control(descr) => descr.to_arrow_field(),
            ColumnDescriptor::Time(descr) => descr.to_arrow_field(),
            ColumnDescriptor::Component(descr) => descr.to_arrow_field(),
        }
    }

    /// The short name of this column: the short component name, or the timeline name.
    pub fn short_name(&self) -> (r: String)
        ensures
            r@ == column_short_name(self@),
    {
        match self {
            ColumnDescriptor::Control(descr) => descr.component_name.short_name(),
            ColumnDescriptor::Time(descr) => owned(descr.timeline.name().as_str()),
            ColumnDescriptor::Component(descr) => descr.component_name.short_name(),
        }
    }

    /// Orders columns: control columns, then time columns, then component columns,
    /// each kind by its own order.
    pub fn compare(&self, other: &Self) -> (r: Order)
        ensures
            r == column_order(self@, other@),
    {
        match (self, other) {
            (ColumnDescriptor::Control(a), ColumnDescriptor::Control(b)) => a.compare(b),
            (ColumnDescriptor::Time(a), ColumnDescriptor::Time(b)) => a.compare(b),
            (ColumnDescriptor::Component(a), ColumnDescriptor::Component(b)) => a.compare(b),
            (ColumnDescriptor::Control(_), _) => Order::Less,
            (_, ColumnDescriptor::Control(_)) => Order::Greater,
            (ColumnDescriptor::Time(_), _) => Order::Less,
            (_, ColumnDescriptor::Time(_)) => Order::Greater,
        }
    }
}

/// Texts sharing a prefix compare as what follows the prefix.
proof fn lemma_common_prefix(p: Seq<char>, x: Seq<char>, y: Seq<char>)
    ensures
        chars_order(p + x, p + y) == chars_order(x, y),
    decreases p.len(),
{
    if p.len() > 0 {
        assert((p + x).drop_first() =~= p.drop_first() + x);
        assert((p + y).drop_first() =~= p.drop_first() + y);
        lemma_common_prefix(p.drop_first(), x, y);
    } else {
        assert(p + x =~= x);
        assert(p + y =~= y);
    }
}

/// The metadata keys, in the order a component column's field lists them.
pub open spec fn metadata_keys() -> Seq<Seq<char>> {
    seq![
        "sorbet.is_static"@,
        "sorbet.logical_type"@,
        "sorbet.path"@,
        "sorbet.semantic_family"@,
        "sorbet.semantic_type"@,
    ]
}

/// The metadata keys are in strictly increasing order.
pub proof fn lemma_metadata_keys_increasing()
    ensures
        forall|i: int, j: int|
            0 <= i < j < 5 ==> chars_order(
                #[trigger] metadata_keys()[i],
                #[trigger] metadata_keys()[j],
            ) == Order::Less,
{
    reveal_strlit("sorbet.is_static");
    reveal_strlit("sorbet.logical_type");
    reveal_strlit("sorbet.path");
    reveal_strlit("sorbet.semantic_family");
    reveal_strlit("sorbet.semantic_type");
    reveal_strlit("sorbet.");
    reveal_strlit("sorbet.semantic_");
    reveal_strlit("is_static");
    reveal_strlit("logical_type");
    reveal_strlit("path");
    reveal_strlit("semantic_family");
    reveal_strlit("semantic_type");
    reveal_strlit("family");
    reveal_strlit("type");
    let p = "sorbet."@;
    let k = metadata_keys();
    assert(k[0] =~= p + "is_static"@);
    assert(k[1] =~= p + "logical_type"@);
    assert(k[2] =~= p + "path"@);
    assert(k[3] =~= p + "semantic_family"@);
    assert(k[4] =~= p + "semantic_type"@);
    let tails = seq!["is_static"@, "logical_type"@, "path"@, "semantic_family"@, "semantic_type"@];
    assert forall|i: int, j: int| 0 <= i < j < 5 implies chars_order(
        #[trigger] metadata_keys()[i],
        #[trigger] metadata_keys()[j],
    ) == Order::Less by {
        lemma_common_prefix(p, tails[i], tails[j]);
        if i == 3 && j == 4 {
            assert(tails[3] =~= "semantic_"@ + "family"@) by {
                reveal_strlit("semantic_");
            }
            assert(tails[4] =~= "semantic_"@ + "type"@) by {
                reveal_strlit("semantic_");
            }
            lemma_common_prefix("semantic_"@, "family"@, "type"@);
        }
    }
}

/// The metadata of a component column's Arrow field lists each key at most once, in
/// increasing key order, as a map keyed by them does.
pub proof fn lemma_metadata_sorted(d: ComponentModel)
    ensures
        forall|i: int, j: int|
            0 <= i < j < metadata_model(d).len() ==> chars_order(
                #[trigger] metadata_model(d)[i].0,
                #[trigger] metadata_model(d)[j].0,
            ) == Order::Less,
{
    lemma_metadata_keys_increasing();
    let m = metadata_model(d);
    let k = metadata_keys();
    // Each entry's key is one of the keys, at a position that grows along the metadata.
    let ghost pos: Seq<int> = (if d.is_static {
        seq![0int]
    } else {
        Seq::empty()
    }) + (if d.archetype_field_name is Some {
        seq![1int]
    } else {
        Seq::empty()
    }) + seq![2int] + (if d.archetype_name is Some {
        seq![3int]
    } else {
        Seq::empty()
    }) + seq![4int];
    assert(pos.len() == m.len());
    assert forall|i: int| 0 <= i < m.len() implies 0 <= #[trigger] pos[i] < 5 && m[i].0 == k[pos[i]] by {}
    assert forall|i: int, j: int| 0 <= i < j < m.len() implies #[trigger] pos[i] < #[trigger] pos[j] by {}
    assert forall|i: int, j: int| 0 <= i < j < m.len() implies chars_order(
        #[trigger] m[i].0,
        #[trigger] m[j].0,
    ) == Order::Less by {
        assert(pos[i] < pos[j]);
        assert(chars_order(k[pos[i]], k[pos[j]]) == Order::Less);
    }
}

} // verus!
