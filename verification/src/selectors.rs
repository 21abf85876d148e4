//! Selections of columns to return as part of a query.
use vstd::prelude::*;

use crate::descriptors::{
    row_id_component_name, row_id_name, ColumnDescriptor, ComponentColumnDescriptor,
    ControlColumnDescriptor, JoinEncoding, TimeColumnDescriptor,
};
use crate::names::{component_short_name, ComponentName, TimelineName};
use crate::path::{path_text, EntityPath};
use crate::text::{concat, owned};

verus! {

/// Selects a control column; the only one is the row id.
#[derive(Debug, PartialEq, Eq, Hash)]
pub struct ControlColumnSelector {
    /// Name of the control column.
    pub component: ComponentName,
}

/// Selects a time column.
#[derive(Debug, PartialEq, Eq, Hash)]
pub struct TimeColumnSelector {
    /// The name of the timeline.
    pub timeline: TimelineName,
}

/// Selects a component column by its entity path and component name.
#[derive(Debug, PartialEq, Eq, Hash)]
pub struct ComponentColumnSelector {
    /// The path of the entity.
    pub entity_path: EntityPath,
    /// Semantic name associated with this data.
    pub component: ComponentName,
    /// How to join the data into the record batch.
    pub join_encoding: JoinEncoding,
}

/// Describes a column selection to return as part of a query.
#[derive(Debug, PartialEq, Eq, Hash)]
pub enum ColumnSelector {
    Control(ControlColumnSelector),
    Time(TimeColumnSelector),
    Component(ComponentColumnSelector),
}

/// What a [`ComponentColumnSelector`] denotes.
pub struct ComponentSelectorModel {
    pub entity_path: Seq<Seq<char>>,
    pub component: Seq<char>,
    pub join_encoding: JoinEncoding,
}

/// What a [`ColumnSelector`] denotes.
pub enum SelectorModel {
    Control(Seq<char>),
    Time(Seq<char>),
    Component(ComponentSelectorModel),
}

impl View for ControlColumnSelector {
    type V = Seq<char>;

    open spec fn view(&self) -> Seq<char> {
        self.component@
    }
}

impl View for TimeColumnSelector {
    type V = Seq<char>;

    open spec fn view(&self) -> Seq<char> {
        self.timeline@
    }
}

impl View for ComponentColumnSelector {
    type V = ComponentSelectorModel;

    open spec fn view(&self) -> ComponentSelectorModel {
        ComponentSelectorModel {
            entity_path: self.entity_path@,
            component: self.component@,
            join_encoding: self.join_encoding,
        }
    }
}

impl View for ColumnSelector {
    type V = SelectorModel;

    open spec fn view(&self) -> SelectorModel {
        match self {
            ColumnSelector::Control(s) => SelectorModel::Control(s@),
            ColumnSelector::Time(s) => SelectorModel::Time(s@),
            ColumnSelector::Component(s) => SelectorModel::Component(s@),
        }
    }
}

impl Clone for ControlColumnSelector {
    fn clone(&self) -> (r: Self)
        ensures
            r@ == self@,
    {
        ControlColumnSelector { component: self.component.clone() }
    }
}

impl Clone for TimeColumnSelector {
    fn clone(&self) -> (r: Self)
        ensures
            r@ == self@,
    {
        TimeColumnSelector { timeline: self.timeline.clone() }
    }
}

impl Clone for ComponentColumnSelector {
    fn clone(&self) -> (r: Self)
        ensures
            r@ == self@,
    {
        ComponentColumnSelector {
            entity_path: self.entity_path.clone(),
            component: self.component.clone(),
            join_encoding: self.join_encoding,
        }
    }
}

impl Clone for ColumnSelector {
    fn clone(&self) -> (r: Self)
        ensures
            r@ == self@,
    {
        match self {
            ColumnSelector::Control(s) => ColumnSelector::Control(s.clone()),
            ColumnSelector::Time(s) => ColumnSelector::Time(s.clone()),
            ColumnSelector::Component(s) => ColumnSelector::Component(s.clone()),
        }
    }
}

impl From<ControlColumnDescriptor> for ControlColumnSelector {
    fn from(desc: ControlColumnDescriptor) -> (r: Self) {
        ControlColumnSelector { component: desc.component_name }
    }
}

impl vstd::std_specs::convert::FromSpecImpl<ControlColumnDescriptor> for ControlColumnSelector {
    open spec fn obeys_from_spec() -> bool {
        true
    }

    open spec fn from_spec(desc: ControlColumnDescriptor) -> Self {
        ControlColumnSelector { component: desc.component_name }
    }
}

impl From<TimeColumnDescriptor> for TimeColumnSelector {
    fn from(desc: TimeColumnDescriptor) -> (r: Self) {
        TimeColumnSelector { timeline: desc.timeline.name }
    }
}

impl vstd::std_specs::convert::FromSpecImpl<TimeColumnDescriptor> for TimeColumnSelector {
    open spec fn obeys_from_spec() -> bool {
        true
    }

    open spec fn from_spec(desc: TimeColumnDescriptor) -> Self {
        TimeColumnSelector { timeline: desc.timeline.name }
    }
}

impl From<ComponentColumnDescriptor> for ComponentColumnSelector {
    fn from(desc: ComponentColumnDescriptor) -> (r: Self) {
        ComponentColumnSelector {
            entity_path: desc.entity_path,
            component: desc.component_name,
            join_encoding: desc.join_encoding,
        }
    }
}

impl vstd::std_specs::convert::FromSpecImpl<ComponentColumnDescriptor> for ComponentColumnSelector {
    open spec fn obeys_from_spec() -> bool {
        true
    }

    open spec fn from_spec(desc: ComponentColumnDescriptor) -> Self {
        ComponentColumnSelector {
            entity_path: desc.entity_path,
            component: desc.component_name,
            join_encoding: desc.join_encoding,
        }
    }
}

/// The selector of a described column.
pub open spec fn selector_of(desc: ColumnDescriptor) -> ColumnSelector {
    match desc {
        ColumnDescriptor::Control(d) => ColumnSelector::Control(
            ControlColumnSelector { component: d.component_name },
        ),
        ColumnDescriptor::Time(d) => ColumnSelector::Time(
            TimeColumnSelector { timeline: d.timeline.name },
        ),
        ColumnDescriptor::Component(d) => ColumnSelector::Component(
            ComponentColumnSelector {
                entity_path: d.entity_path,
                component: d.component_name,
                join_encoding: d.join_encoding,
            },
        ),
    }
}

impl From<ColumnDescriptor> for ColumnSelector {
    fn from(desc: ColumnDescriptor) -> (r: Self) {
        match desc {
            ColumnDescriptor::Control(desc) => ColumnSelector::Control(
                ControlColumnSelector::from(desc),
            ),
            ColumnDescriptor::Time(desc) => ColumnSelector::Time(TimeColumnSelector::from(desc)),
            ColumnDescriptor::Component(desc) => ColumnSelector::Component(
                ComponentColumnSelector::from(desc),
            ),
        }
    }
}

impl vstd::std_specs::convert::FromSpecImpl<ColumnDescriptor> for ColumnSelector {
    open spec fn obeys_from_spec() -> bool {
        true
    }

    open spec fn from_spec(desc: ColumnDescriptor) -> Self {
        selector_of(desc)
    }
}

impl From<ControlColumnSelector> for ColumnSelector {
    fn from(selector: ControlColumnSelector) -> (r: Self) {
        ColumnSelector::Control(selector)
    }
}

impl vstd::std_specs::convert::FromSpecImpl<ControlColumnSelector> for ColumnSelector {
    open spec fn obeys_from_spec() -> bool {
        true
    }

    open spec fn from_spec(selector: ControlColumnSelector) -> Self {
        ColumnSelector::Control(selector)
    }
}

impl From<TimeColumnSelector> for ColumnSelector {
    fn from(selector: TimeColumnSelector) -> (r: Self) {
        ColumnSelector::Time(selector)
    }
}

impl vstd::std_specs::convert::FromSpecImpl<TimeColumnSelector> for ColumnSelector {
    open spec fn obeys_from_spec() -> bool {
        true
    }

    open spec fn from_spec(selector: TimeColumnSelector) -> Self {
        ColumnSelector::Time(selector)
    }
}

impl From<ComponentColumnSelector> for ColumnSelector {
    fn from(selector: ComponentColumnSelector) -> (r: Self) {
        ColumnSelector::Component(selector)
    }
}

impl vstd::std_specs::convert::FromSpecImpl<ComponentColumnSelector> for ColumnSelector {
    open spec fn obeys_from_spec() -> bool {
        true
    }

    open spec fn from_spec(selector: ComponentColumnSelector) -> Self {
        ColumnSelector::Component(selector)
    }
}

impl ControlColumnSelector {
    /// Selects the row id column.
    pub fn row_id() -> (r: Self)
        ensures
            r@ == row_id_name(),
    {
        ControlColumnSelector { component: row_id_component_name() }
    }
}

/// The text of a component selector: `{entity_path}@{short component name}`.
pub open spec fn component_selector_text(s: ComponentSelectorModel) -> Seq<char> {
    path_text(s.entity_path) + "@"@ + component_short_name(s.component)
}

impl ComponentColumnSelector {
    /// Selects the component named `component` on `entity_path`, joined by overlapping
    /// slices.
    pub fn new(entity_path: EntityPath, component: ComponentName) -> (r: Self)
        ensures
            r@ == (ComponentSelectorModel {
                entity_path: entity_path@,
                component: component@,
                join_encoding: JoinEncoding::OverlappingSlice,
            }),
    {
        ComponentColumnSelector { entity_path, component, join_encoding: JoinEncoding::default() }
    }

    /// Selects a component based on its entity path and component name.
    pub fn new_for_component_name(entity_path: EntityPath, component: ComponentName) -> (r: Self)
        ensures
            r@ == (ComponentSelectorModel {
                entity_path: entity_path@,
                component: component@,
                join_encoding: JoinEncoding::OverlappingSlice,
            }),
    {
        ComponentColumnSelector { entity_path, component, join_encoding: JoinEncoding::default() }
    }

    /// The same selector with another join encoding.
    pub fn with_join_encoding(self, join_encoding: JoinEncoding) -> (r: Self)
        ensures
            r@ == (ComponentSelectorModel { join_encoding, ..self@ }),
    {
        ComponentColumnSelector { join_encoding, ..self }
    }

    /// The text of this selector, e.g. `/world/points@Position3D`.
    pub fn to_display_string(&self) -> (r: String)
        ensures
            r@ == component_selector_text(self@),
    {
        let s = self.entity_path.to_display_string();
        let s = concat(s, "@");
        concat(s, self.component.short_name().as_str())
    }
}

} // verus!
