//! Names of components, archetypes and timelines, ordered by their text.
use vstd::prelude::*;

use crate::text::{chars_order, compare_str, owned, strip_prefix, Order};

verus! {

/// Short form of a fully-qualified component name: the known `rerun.` namespaces
/// are stripped, the first that matches winning.
pub open spec fn component_short_name(full: Seq<char>) -> Seq<char> {
    if "rerun.blueprint.components."@.is_prefix_of(full) {
        full.skip("rerun.blueprint.components."@.len() as int)
    } else if "rerun.components."@.is_prefix_of(full) {
        full.skip("rerun.components."@.len() as int)
    } else if "rerun.controls."@.is_prefix_of(full) {
        full.skip("rerun.controls."@.len() as int)
    } else if "rerun."@.is_prefix_of(full) {
        full.skip("rerun."@.len() as int)
    } else {
        full
    }
}

/// Short form of a fully-qualified archetype name.
pub open spec fn archetype_short_name(full: Seq<char>) -> Seq<char> {
    if "rerun.blueprint.archetypes."@.is_prefix_of(full) {
        full.skip("rerun.blueprint.archetypes."@.len() as int)
    } else if "rerun.archetypes."@.is_prefix_of(full) {
        full.skip("rerun.archetypes."@.len() as int)
    } else if "rerun."@.is_prefix_of(full) {
        full.skip("rerun."@.len() as int)
    } else {
        full
    }
}

/// The fully-qualified name of a component, e.g. `rerun.components.Position2D`.
#[derive(Debug, PartialEq, Eq, Hash)]
pub struct ComponentName(pub String);

/// The fully-qualified name of an archetype, e.g. `rerun.archetypes.Points3D`.
#[derive(Debug, PartialEq, Eq, Hash)]
pub struct ArchetypeName(pub String);

/// The name of a timeline, e.g. `frame`.
#[derive(Debug, PartialEq, Eq, Hash)]
pub struct TimelineName(pub String);

impl View for ComponentName {
    type V = Seq<char>;

    open spec fn view(&self) -> Seq<char> {
        self.0@
    }
}

impl View for ArchetypeName {
    type V = Seq<char>;

    open spec fn view(&self) -> Seq<char> {
        self.0@
    }
}

impl View for TimelineName {
    type V = Seq<char>;

    open spec fn view(&self) -> Seq<char> {
        self.0@
    }
}

impl Clone for ComponentName {
    fn clone(&self) -> (r: Self)
        ensures
            r == *self,
    {
        ComponentName(self.0.clone())
    }
}

impl Clone for ArchetypeName {
    fn clone(&self) -> (r: Self)
        ensures
            r == *self,
    {
        ArchetypeName(self.0.clone())
    }
}

impl Clone for TimelineName {
    fn clone(&self) -> (r: Self)
        ensures
            r == *self,
    {
        TimelineName(self.0.clone())
    }
}

impl ComponentName {
    pub fn new(name: &str) -> (r: Self)
        ensures
            r@ == name@,
    {
        ComponentName(owned(name))
    }

    pub fn as_str(&self) -> (r: &str)
        ensures
            r@ == self@,
    {
        self.0.as_str()
    }

    /// The name without its `rerun.` namespace, e.g. `Position2D`.
    pub fn short_name(&self) -> (r: String)
        ensures
            r@ == component_short_name(self@),
    {
        let full = self.0.as_str();
        if let Some(s) = strip_prefix(full, "rerun.blueprint.components.") {
            s
        } else if let Some(s) = strip_prefix(full, "rerun.components.") {
            s
        } else if let Some(s) = strip_prefix(full, "rerun.controls.") {
            s
        } else if let Some(s) = strip_prefix(full, "rerun.") {
            s
        } else {
            owned(full)
        }
    }

    /// Orders component names by their text.
    pub fn compare(&self, other: &Self) -> (r: Order)
        ensures
            r == chars_order(self@, other@),
    {
        compare_str(self.0.as_str(), other.0.as_str())
    }

    /// Whether both names are the same.
    pub fn same_as(&self, other: &Self) -> (r: bool)
        ensures
            r == (self@ == other@),
    {
        self.0 == other.0
    }
}

impl ArchetypeName {
    pub fn new(name: &str) -> (r: Self)
        ensures
            r@ == name@,
    {
        ArchetypeName(owned(name))
    }

    /// The name without its `rerun.` namespace, e.g. `Points3D`.
    pub fn short_name(&self) -> (r: String)
        ensures
            r@ == archetype_short_name(self@),
    {
        let full = self.0.as_str();
        if let Some(s) = strip_prefix(full, "rerun.blueprint.archetypes.") {
            s
        } else if let Some(s) = strip_prefix(full, "rerun.archetypes.") {
            s
        } else if let Some(s) = strip_prefix(full, "rerun.") {
            s
        } else {
            owned(full)
        }
    }

    /// Orders archetype names by their text.
    pub fn compare(&self, other: &Self) -> (r: Order)
        ensures
            r == chars_order(self@, other@),
    {
        compare_str(self.0.as_str(), other.0.as_str())
    }
}

impl TimelineName {
    pub fn new(name: &str) -> (r: Self)
        ensures
            r@ == name@,
    {
        TimelineName(owned(name))
    }

    pub fn as_str(&self) -> (r: &str)
        ensures
            r@ == self@,
    {
        self.0.as_str()
    }

    /// Orders timeline names by their text.
    pub fn compare(&self, other: &Self) -> (r: Order)
        ensures
            r == chars_order(self@, other@),
    {
        compare_str(self.0.as_str(), other.0.as_str())
    }

    /// Whether both names are the same.
    pub fn same_as(&self, other: &Self) -> (r: bool)
        ensures
            r == (self@ == other@),
    {
        self.0 == other.0
    }
}

} // verus!
