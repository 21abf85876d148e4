//! The chunk store as the dataframe APIs see it, and the schemas it answers with.
use vstd::prelude::*;

use crate::arrow::{list_datatype, list_model, ArrowDatatype, DatatypeModel};
use crate::descriptors::{
    column_ord, component_ord, component_order, lemma_column_order, lemma_column_order_laws,
    lemma_component_order, row_id_arrow_datatype, row_id_component_name, row_id_datatype,
    row_id_name, ColumnDescriptor, ColumnModel, ComponentColumnDescriptor, ComponentModel,
    ControlColumnDescriptor, ControlModel, JoinEncoding, TimeColumnDescriptor, TimeModel,
};
use crate::names::{ComponentName, TimelineName};
use crate::path::{filter_verdict, EntityPath};
use crate::query::{query_filter, QueryExpression};
use crate::selectors::{
    ColumnSelector, ComponentColumnSelector, ComponentSelectorModel, ControlColumnSelector,
    SelectorModel, TimeColumnSelector,
};
use crate::sorted::{
    lemma_filter_step, lemma_insert_contains, lemma_insert_sorted, lemma_push_sorted, order_laws,
    sorted_by,
};
use crate::text::Order;
use crate::time::{
    lemma_timeline_order, lemma_timeline_order_laws, time_type_datatype, timeline_ord,
    timeline_order, TimeInt, TimeType, Timeline, TimelineModel,
};

verus! {

/// Where the data of a store lies: the datatype registered for each component, the
/// (entity, component) pairs with static data, and for each temporal chunk its
/// entity, timeline, component and start time on that timeline.
#[derive(Debug)]
pub struct ChunkStore {
    type_registry: Vec<(ComponentName, ArrowDatatype)>,
    static_components: Vec<(EntityPath, ComponentName)>,
    temporal_chunks: Vec<(EntityPath, Timeline, ComponentName, TimeInt)>,
}

/// What a [`ChunkStore`] denotes.
pub struct StoreModel {
    /// Datatype registrations in the order they were made; the last one for a
    /// component holds.
    pub registry: Seq<(Seq<char>, DatatypeModel)>,
    /// (entity path, component name) of each static chunk.
    pub statics: Seq<(Seq<Seq<char>>, Seq<char>)>,
    /// (entity path, timeline, component name, start time) of each temporal chunk.
    pub temporals: Seq<(Seq<Seq<char>>, TimelineModel, Seq<char>, i64)>,
}

impl ChunkStore {
    /// The store's contents as plain values.
    pub closed spec fn model(&self) -> StoreModel {
        StoreModel {
            registry: Seq::new(
                self.type_registry@.len(),
                |i: int| (self.type_registry@[i].0@, self.type_registry@[i].1@),
            ),
            statics: Seq::new(
                self.static_components@.len(),
                |i: int| (self.static_components@[i].0@, self.static_components@[i].1@),
            ),
            temporals: Seq::new(
                self.temporal_chunks@.len(),
                |i: int|
                    (
                        self.temporal_chunks@[i].0@,
                        self.temporal_chunks@[i].1@,
                        self.temporal_chunks@[i].2@,
                        self.temporal_chunks@[i].3.0,
                    ),
            ),
        }
    }
}

impl View for ChunkStore {
    type V = StoreModel;

    open spec fn view(&self) -> StoreModel {
        self.model()
    }
}

/// The datatype last registered for a component.
pub open spec fn registered_datatype(
    registry: Seq<(Seq<char>, DatatypeModel)>,
    component: Seq<char>,
) -> Option<DatatypeModel>
    decreases registry.len(),
{
    if registry.len() == 0 {
        None
    } else if registry.last().0 == component {
        Some(registry.last().1)
    } else {
        registered_datatype(registry.drop_last(), component)
    }
}

/// Whether a static chunk holds the component on the entity.
pub open spec fn has_static(m: StoreModel, entity: Seq<Seq<char>>, component: Seq<char>) -> bool {
    exists|i: int| 0 <= i < m.statics.len() && #[trigger] m.statics[i] == (entity, component)
}

/// Whether a temporal chunk holds the component on the entity.
pub open spec fn has_temporal(m: StoreModel, entity: Seq<Seq<char>>, component: Seq<char>) -> bool {
    exists|i: int|
        0 <= i < m.temporals.len() && (#[trigger] m.temporals[i]).0 == entity
            && m.temporals[i].2 == component
}

/// Whether a temporal chunk lies on the timeline.
pub open spec fn has_timeline(m: StoreModel, timeline: TimelineModel) -> bool {
    exists|i: int| 0 <= i < m.temporals.len() && (#[trigger] m.temporals[i]).1 == timeline
}

/// Whether a latest-at query on `timeline` at `at` finds data for the component on
/// the entity: static data always answers, else a temporal chunk on that timeline
/// starting at or before `at`.
pub open spec fn has_latest_at_data(
    m: StoreModel,
    timeline: TimelineModel,
    at: i64,
    entity: Seq<Seq<char>>,
    component: Seq<char>,
) -> bool {
    has_static(m, entity, component) || exists|i: int|
        0 <= i < m.temporals.len() && (#[trigger] m.temporals[i]).0 == entity && m.temporals[i].1
            == timeline && m.temporals[i].2 == component && m.temporals[i].3 <= at
}

/// The row id control column.
pub open spec fn row_id_column() -> ControlModel {
    ControlModel { component_name: row_id_name(), datatype: row_id_datatype() }
}

/// The time column of a timeline.
pub open spec fn time_column(timeline: TimelineModel) -> TimeModel {
    TimeModel { timeline, datatype: time_type_datatype(timeline.typ) }
}

/// The component column the schema holds for a component on an entity.
pub open spec fn schema_component(
    m: StoreModel,
    entity: Seq<Seq<char>>,
    component: Seq<char>,
) -> ComponentModel {
    ComponentModel {
        entity_path: entity,
        archetype_name: None,
        archetype_field_name: None,
        component_name: component,
        store_datatype: list_model(registered_datatype(m.registry, component).unwrap()),
        join_encoding: JoinEncoding::OverlappingSlice,
        is_static: has_static(m, entity, component),
    }
}

/// Whether a component column belongs to the schema: some chunk holds the component on
/// the entity, its datatype is registered, and the column is the one for that pair.
pub open spec fn schema_has_component(m: StoreModel, d: ComponentModel) -> bool {
    &&& has_static(m, d.entity_path, d.component_name) || has_temporal(
        m,
        d.entity_path,
        d.component_name,
    )
    &&& registered_datatype(m.registry, d.component_name) is Some
    &&& d == schema_component(m, d.entity_path, d.component_name)
}

/// Whether a column belongs to the full schema of the store: the row id column, the
/// time column of every timeline with data, and every component column.
pub open spec fn schema_has(m: StoreModel, c: ColumnModel) -> bool {
    match c {
        ColumnModel::Control(d) => d == row_id_column(),
        ColumnModel::Time(d) => has_timeline(m, d.timeline) && d == time_column(d.timeline),
        ColumnModel::Component(d) => schema_has_component(m, d),
    }
}

pub open spec fn columns_model(v: Seq<ColumnDescriptor>) -> Seq<ColumnModel> {
    Seq::new(v.len(), |i: int| v[i]@)
}

pub open spec fn components_model(v: Seq<ComponentColumnDescriptor>) -> Seq<ComponentModel> {
    Seq::new(v.len(), |i: int| v[i]@)
}

pub open spec fn timelines_model(v: Seq<Timeline>) -> Seq<TimelineModel> {
    Seq::new(v.len(), |i: int| v[i]@)
}

/// Inserts `t` into a strictly increasing sequence of timelines, unless it is there.
fn insert_timeline(v: &mut Vec<Timeline>, t: &Timeline)
    requires
        sorted_by(timelines_model(old(v)@), timeline_ord()),
    ensures
        sorted_by(timelines_model(final(v)@), timeline_ord()),
        forall|x: TimelineModel|
            timelines_model(final(v)@).contains(x) <==> (timelines_model(old(v)@).contains(x)
                || x == t@),
{
    proof {
        lemma_timeline_order_laws();
    }
    let ghost old_model = timelines_model(v@);
    let mut p: usize = 0;
    while p < v.len() && v[p].compare(t) == Order::Less
        invariant
            p <= v.len(),
            v@ == old(v)@,
            old_model == timelines_model(v@),
            forall|i: int| 0 <= i < p ==> timeline_order(#[trigger] v@[i]@, t@) == Order::Less,
        decreases v.len() - p,
    {
        p = p + 1;
    }
    if p < v.len() && v[p].compare(t) == Order::Equal {
        proof {
            lemma_timeline_order(v@[p as int]@, t@, t@);
            assert(old_model[p as int] == t@);
            assert(old_model.contains(t@));
        }
        return;
    }
    proof {
        if p < v.len() {
            lemma_timeline_order(v@[p as int]@, t@, t@);
            assert(timeline_order(t@, old_model[p as int]) == Order::Less);
        }
        lemma_insert_sorted(old_model, timeline_ord(), p as int, t@);
        lemma_insert_contains(old_model, p as int, t@);
    }
    v.insert(p, t.clone());
    proof {
        assert(timelines_model(v@) =~= old_model.insert(p as int, t@));
        assert(timelines_model(old(v)@) =~= old_model);
        assert(forall|x: TimelineModel|
            timelines_model(v@).contains(x) <==> (timelines_model(old(v)@).contains(x) || x == t@));
    }
}

/// Inserts `d` into a strictly increasing sequence of component columns, unless a
/// column with the same ordering key is there, which must then be `d` itself.
fn insert_component(v: &mut Vec<ComponentColumnDescriptor>, d: ComponentColumnDescriptor)
    requires
        sorted_by(components_model(old(v)@), component_ord()),
        forall|i: int|
            0 <= i < old(v)@.len() && component_order(#[trigger] old(v)@[i]@, d@) == Order::Equal
                ==> old(v)@[i]@ == d@,
    ensures
        sorted_by(components_model(final(v)@), component_ord()),
        forall|x: ComponentModel|
            components_model(final(v)@).contains(x) <==> (components_model(old(v)@).contains(x)
                || x == d@),
{
    proof {
        lemma_column_order_laws();
    }
    let ghost old_model = components_model(v@);
    let mut p: usize = 0;
    while p < v.len() && v[p].compare(&d) == Order::Less
        invariant
            p <= v.len(),
            v@ == old(v)@,
            old_model == components_model(v@),
            forall|i: int| 0 <= i < p ==> component_order(#[trigger] v@[i]@, d@) == Order::Less,
        decreases v.len() - p,
    {
        p = p + 1;
    }
    if p < v.len() && v[p].compare(&d) == Order::Equal {
        proof {
            assert(old_model[p as int] == d@);
            assert(old_model.contains(d@));
        }
        return;
    }
    proof {
        if p < v.len() {
            lemma_component_order(v@[p as int]@, d@, d@);
            assert(component_order(d@, old_model[p as int]) == Order::Less);
        }
        lemma_insert_sorted(old_model, component_ord(), p as int, d@);
        lemma_insert_contains(old_model, p as int, d@);
    }
    v.insert(p, d);
    proof {
        assert(components_model(v@) =~= old_model.insert(p as int, d@));
        assert(components_model(old(v)@) =~= old_model);
        assert(forall|x: ComponentModel|
            components_model(v@).contains(x) <==> (components_model(old(v)@).contains(x) || x == d@));
    }
}


impl ChunkStore {
    /// An empty store.
    pub fn new() -> (r: Self)
        ensures
            r@.registry.len() == 0,
            r@.statics.len() == 0,
            r@.temporals.len() == 0,
    {
        ChunkStore {
            type_registry: Vec::new(),
            static_components: Vec::new(),
            temporal_chunks: Vec::new(),
        }
    }

    /// Records a static chunk holding `component_name` on `entity_path`, whose values
    /// have datatype `datatype`.
    pub fn insert_static_component(
        &mut self,
        entity_path: EntityPath,
        component_name: ComponentName,
        datatype: ArrowDatatype,
    )
        ensures
            final(self)@.registry == old(self)@.registry.push((component_name@, datatype@)),
            final(self)@.statics == old(self)@.statics.push((entity_path@, component_name@)),
            final(self)@.temporals == old(self)@.temporals,
    {
        let ghost old_model = self@;
        self.type_registry.push((component_name.clone(), datatype));
        self.static_components.push((entity_path, component_name));
        assert(self@.registry =~= old_model.registry.push((component_name@, datatype@)));
        assert(self@.statics =~= old_model.statics.push((entity_path@, component_name@)));
        assert(self@.temporals =~= old_model.temporals);
    }

    /// Records a temporal chunk holding `component_name` on `entity_path`, whose values
    /// have datatype `datatype`, starting at `start` on `timeline`.
    pub fn insert_temporal_component(
        &mut self,
        entity_path: EntityPath,
        timeline: Timeline,
        component_name: ComponentName,
        datatype: ArrowDatatype,
        start: TimeInt,
    )
        ensures
            final(self)@.registry == old(self)@.registry.push((component_name@, datatype@)),
            final(self)@.statics == old(self)@.statics,
            final(self)@.temporals == old(self)@.temporals.push(
                (entity_path@, timeline@, component_name@, start.0),
            ),
    {
        let ghost old_model = self@;
        self.type_registry.push((component_name.clone(), datatype));
        self.temporal_chunks.push((entity_path, timeline, component_name, start));
        assert(self@.registry =~= old_model.registry.push((component_name@, datatype@)));
        assert(self@.statics =~= old_model.statics);
        assert(self@.temporals =~= old_model.temporals.push(
            (entity_path@, timeline@, component_name@, start.0),
        ));
    }

    /// The datatype last registered for `component_name`, if any.
    pub fn lookup_datatype(&self, component_name: &ComponentName) -> (r: Option<&ArrowDatatype>)
        ensures
            match registered_datatype(self@.registry, component_name@) {
                Some(dt) => r matches Some(x) && x@ == dt,
                None => r is None,
            },
    {
        let ghost reg = self@.registry;
        let mut i: usize = self.type_registry.len();
        assert(reg.subrange(0, i as int) =~= reg);
        while i > 0
            invariant
                i <= self.type_registry.len(),
                reg == self@.registry,
                registered_datatype(reg, component_name@) == registered_datatype(
                    reg.subrange(0, i as int),
                    component_name@,
                ),
            decreases i,
        {
            let (name, datatype) = &self.type_registry[i - 1];
            assert(reg.subrange(0, i as int).last() == reg[i - 1]);
            if name.same_as(component_name) {
                return Some(datatype);
            }
            assert(reg.subrange(0, i as int).drop_last() =~= reg.subrange(0, i - 1));
            i = i - 1;
        }
        None
    }

    /// Whether a static chunk holds `component_name` on `entity_path`.
    pub fn has_static_component(&self, entity_path: &EntityPath, component_name: &ComponentName) -> (r:
        bool)
        ensures
            r == has_static(self@, entity_path@, component_name@),
    {
        let mut i: usize = 0;
        while i < self.static_components.len()
            invariant
                i <= self.static_components.len(),
                forall|j: int| 0 <= j < i ==> self@.statics[j] != (entity_path@, component_name@),
            decreases self.static_components.len() - i,
        {
            let (e, c) = &self.static_components[i];
            if e.same_as(entity_path) && c.same_as(component_name) {
                assert(self@.statics[i as int] == (entity_path@, component_name@));
                return true;
            }
            i = i + 1;
        }
        false
    }

    /// Every timeline some temporal chunk lies on, in increasing order.
    pub fn all_timelines(&self) -> (r: Vec<Timeline>)
        ensures
            sorted_by(timelines_model(r@), timeline_ord()),
            forall|t: TimelineModel| timelines_model(r@).contains(t) <==> has_timeline(self@, t),
    {
        let mut r: Vec<Timeline> = Vec::new();
        let mut i: usize = 0;
        while i < self.temporal_chunks.len()
            invariant
                i <= self.temporal_chunks.len(),
                sorted_by(timelines_model(r@), timeline_ord()),
                forall|t: TimelineModel|
                    timelines_model(r@).contains(t) <==> exists|j: int|
                        0 <= j < i && (#[trigger] self@.temporals[j]).1 == t,
            decreases self.temporal_chunks.len() - i,
        {
            insert_timeline(&mut r, &self.temporal_chunks[i].1);
            proof {
                assert forall|t: TimelineModel|
                    timelines_model(r@).contains(t) <==> exists|j: int|
                        0 <= j < i + 1 && (#[trigger] self@.temporals[j]).1 == t by {
                    if t == self@.temporals[i as int].1 {
                        assert(self@.temporals[i as int].1 == t);
                    }
                }
            }
            i = i + 1;
        }
        r
    }
}

impl ChunkStore {
    /// The component column of every (entity, component) pair some chunk holds and
    /// whose datatype is registered, in increasing order.
    fn component_columns(&self) -> (r: Vec<ComponentColumnDescriptor>)
        ensures
            sorted_by(components_model(r@), component_ord()),
            forall|i: int| 0 <= i < r@.len() ==> schema_has_component(self@, #[trigger] r@[i]@),
            forall|d: ComponentModel|
                schema_has_component(self@, d) ==> components_model(r@).contains(d),
    {
        let ghost m = self@;
        let mut r: Vec<ComponentColumnDescriptor> = Vec::new();
        let mut i: usize = 0;
        while i < self.static_components.len()
            invariant
                m == self@,
                i <= self.static_components.len(),
                sorted_by(components_model(r@), component_ord()),
                forall|k: int| 0 <= k < r@.len() ==> schema_has_component(m, #[trigger] r@[k]@),
                forall|j: int|
                    0 <= j < i && registered_datatype(m.registry, (#[trigger] m.statics[j]).1) is Some
                        ==> components_model(r@).contains(
                        schema_component(m, m.statics[j].0, m.statics[j].1),
                    ),
            decreases self.static_components.len() - i,
        {
            let (e, c) = &self.static_components[i];
            assert(m.statics[i as int] == (e@, c@));
            if let Some(dt) = self.lookup_datatype(c) {
                let d = ComponentColumnDescriptor {
                    entity_path: e.clone(),
                    archetype_name: None,
                    archetype_field_name: None,
                    component_name: c.clone(),
                    store_datatype: list_datatype(dt.clone()),
                    join_encoding: JoinEncoding::default(),
                    is_static: true,
                };
                proof {
                    assert(has_static(m, e@, c@));
                    assert(d@ == schema_component(m, e@, c@));
                    assert forall|k: int|
                        0 <= k < r@.len() && component_order(#[trigger] r@[k]@, d@) == Order::Equal
                            implies r@[k]@ == d@ by {
                        lemma_component_order(r@[k]@, d@, d@);
                    }
                }
                let ghost before = r@;
                let ghost dm = d@;
                insert_component(&mut r, d);
                proof {
                    assert forall|k: int| 0 <= k < r@.len() implies schema_has_component(
                        m,
                        #[trigger] r@[k]@,
                    ) by {
                        assert(components_model(r@)[k] == r@[k]@);
                        assert(components_model(r@).contains(r@[k]@));
                        if r@[k]@ != dm {
                            let q = choose|q: int|
                                0 <= q < before.len() && components_model(before)[q] == r@[k]@;
                            assert(schema_has_component(m, before[q]@));
                        }
                    }
                    assert forall|x: ComponentModel|
                        components_model(before).contains(x) implies components_model(r@).contains(
                        x,
                    ) by {}
                }
            }
            i = i + 1;
        }
        let mut j: usize = 0;
        while j < self.temporal_chunks.len()
            invariant
                m == self@,
                j <= self.temporal_chunks.len(),
                sorted_by(components_model(r@), component_ord()),
                forall|k: int| 0 <= k < r@.len() ==> schema_has_component(m, #[trigger] r@[k]@),
                forall|k: int|
                    0 <= k < m.statics.len() && registered_datatype(
                        m.registry,
                        (#[trigger] m.statics[k]).1,
                    ) is Some ==> components_model(r@).contains(
                        schema_component(m, m.statics[k].0, m.statics[k].1),
                    ),
                forall|k: int|
                    0 <= k < j && registered_datatype(m.registry, (#[trigger] m.temporals[k]).2)
                        is Some ==> components_model(r@).contains(
                        schema_component(m, m.temporals[k].0, m.temporals[k].2),
                    ),
            decreases self.temporal_chunks.len() - j,
        {
            let (e, _timeline, c, _start) = &self.temporal_chunks[j];
            assert(m.temporals[j as int].0 == e@ && m.temporals[j as int].2 == c@);
            if let Some(dt) = self.lookup_datatype(c) {
                let is_static = self.has_static_component(e, c);
                let d = ComponentColumnDescriptor {
                    entity_path: e.clone(),
                    archetype_name: None,
                    archetype_field_name: None,
                    component_name: c.clone(),
                    store_datatype: list_datatype(dt.clone()),
                    join_encoding: JoinEncoding::default(),
                    is_static,
                };
                proof {
                    assert(has_temporal(m, e@, c@));
                    assert(d@ == schema_component(m, e@, c@));
                    assert forall|k: int|
                        0 <= k < r@.len() && component_order(#[trigger] r@[k]@, d@) == Order::Equal
                            implies r@[k]@ == d@ by {
                        lemma_component_order(r@[k]@, d@, d@);
                    }
                }
                let ghost before = r@;
                let ghost dm = d@;
                insert_component(&mut r, d);
                proof {
                    assert forall|k: int| 0 <= k < r@.len() implies schema_has_component(
                        m,
                        #[trigger] r@[k]@,
                    ) by {
                        assert(components_model(r@)[k] == r@[k]@);
                        assert(components_model(r@).contains(r@[k]@));
                        if r@[k]@ != dm {
                            let q = choose|q: int|
                                0 <= q < before.len() && components_model(before)[q] == r@[k]@;
                            assert(schema_has_component(m, before[q]@));
                        }
                    }
                    assert forall|x: ComponentModel|
                        components_model(before).contains(x) implies components_model(r@).contains(
                        x,
                    ) by {}
                }
            }
            j = j + 1;
        }
        proof {
            assert forall|d: ComponentModel| schema_has_component(m, d) implies components_model(
                r@,
            ).contains(d) by {
                if has_static(m, d.entity_path, d.component_name) {
                    let k = choose|k: int|
                        0 <= k < m.statics.len() && #[trigger] m.statics[k] == (
                            d.entity_path,
                            d.component_name,
                        );
                    assert(m.statics[k].1 == d.component_name);
                } else {
                    let k = choose|k: int|
                        0 <= k < m.temporals.len() && (#[trigger] m.temporals[k]).0 == d.entity_path
                            && m.temporals[k].2 == d.component_name;
                    assert(m.temporals[k].2 == d.component_name);
                }
            }
        }
        r
    }

    /// The full schema of the store: a column for the row id, for every timeline, and
    /// for every component on every entity that has been written so far.
    ///
    /// The columns come in a guaranteed order: first the control columns, then the
    /// time columns by timeline, then the component columns by entity path and
    /// component name.
    pub fn schema(&self) -> (r: Vec<ColumnDescriptor>)
        ensures
            sorted_by(columns_model(r@), column_ord()),
            forall|i: int| 0 <= i < r@.len() ==> schema_has(self@, #[trigger] r@[i]@),
            forall|c: ColumnModel| schema_has(self@, c) ==> columns_model(r@).contains(c),
    {
        let ghost m = self@;
        proof {
            lemma_column_order_laws();
            lemma_timeline_order_laws();
        }
        let mut r: Vec<ColumnDescriptor> = Vec::new();
        r.push(
            ColumnDescriptor::Control(
                ControlColumnDescriptor {
                    component_name: row_id_component_name(),
                    datatype: row_id_arrow_datatype(),
                },
            ),
        );
        assert(columns_model(r@) =~= seq![ColumnModel::Control(row_id_column())]);
        let timelines = self.all_timelines();
        let mut i: usize = 0;
        while i < timelines.len()
            invariant
                i <= timelines.len(),
                r@.len() == i + 1,
                r@[0]@ == ColumnModel::Control(row_id_column()),
                forall|k: int|
                    1 <= k <= i ==> #[trigger] r@[k]@ == ColumnModel::Time(
                        time_column(timelines@[k - 1]@),
                    ),
                sorted_by(columns_model(r@), column_ord()),
                sorted_by(timelines_model(timelines@), timeline_ord()),
                order_laws(column_ord()),
            decreases timelines.len() - i,
        {
            let t = timelines[i].clone();
            let datatype = t.datatype();
            let col = ColumnDescriptor::Time(TimeColumnDescriptor { timeline: t, datatype });
            let ghost before = columns_model(r@);
            proof {
                assert forall|k: int| 0 <= k < before.len() implies #[trigger] column_ord()(
                    before[k],
                    col@,
                ) == Order::Less by {
                    if k >= 1 {
                        assert(timeline_ord()(
                            timelines_model(timelines@)[k - 1],
                            timelines_model(timelines@)[i as int],
                        ) == Order::Less);
                    }
                }
                lemma_push_sorted(before, column_ord(), col@);
            }
            r.push(col);
            assert(columns_model(r@) =~= before.push(col@));
            i = i + 1;
        }
        let comps = self.component_columns();
        let n = r.len();
        let mut j: usize = 0;
        while j < comps.len()
            invariant
                j <= comps.len(),
                n == timelines@.len() + 1,
                r@.len() == n + j,
                r@[0]@ == ColumnModel::Control(row_id_column()),
                forall|k: int|
                    1 <= k < n ==> #[trigger] r@[k]@ == ColumnModel::Time(
                        time_column(timelines@[k - 1]@),
                    ),
                forall|k: int|
                    n <= k < n + j ==> #[trigger] r@[k]@ == ColumnModel::Component(
                        comps@[k - n]@,
                    ),
                sorted_by(columns_model(r@), column_ord()),
                sorted_by(components_model(comps@), component_ord()),
                order_laws(column_ord()),
            decreases comps.len() - j,
        {
            let col = ColumnDescriptor::Component(comps[j].clone());
            let ghost before = columns_model(r@);
            proof {
                assert forall|k: int| 0 <= k < before.len() implies #[trigger] column_ord()(
                    before[k],
                    col@,
                ) == Order::Less by {
                    if k >= n {
                        assert(component_ord()(
                            components_model(comps@)[k - n],
                            components_model(comps@)[j as int],
                        ) == Order::Less);
                    }
                }
                lemma_push_sorted(before, column_ord(), col@);
            }
            r.push(col);
            assert(columns_model(r@) =~= before.push(col@));
            j = j + 1;
        }
        proof {
            assert forall|i: int| 0 <= i < r@.len() implies schema_has(m, #[trigger] r@[i]@) by {
                if 1 <= i < n {
                    assert(timelines_model(timelines@).contains(timelines@[i - 1]@)) by {
                        assert(timelines_model(timelines@)[i - 1] == timelines@[i - 1]@);
                    }
                } else if i >= n {
                    assert(r@[i]@ == ColumnModel::Component(comps@[i - n]@));
                }
            }
            assert forall|c: ColumnModel| schema_has(m, c) implies columns_model(r@).contains(c) by {
                match c {
                    ColumnModel::Control(d) => {
                        assert(columns_model(r@)[0] == c);
                    },
                    ColumnModel::Time(d) => {
                        assert(timelines_model(timelines@).contains(d.timeline));
                        let k = choose|k: int|
                            0 <= k < timelines@.len() && timelines_model(timelines@)[k]
                                == d.timeline;
                        assert(r@[k + 1]@ == c);
                        assert(columns_model(r@)[k + 1] == c);
                    },
                    ColumnModel::Component(d) => {
                        assert(components_model(comps@).contains(d));
                        let k = choose|k: int|
                            0 <= k < comps@.len() && components_model(comps@)[k] == d;
                        assert(r@[n + k]@ == c);
                        assert(columns_model(r@)[n + k] == c);
                    },
                }
            }
        }
        r
    }
}

/// Declares `ahash`'s hasher builder, which keys the set of discarded columns.
#[verifier::external_type_specification]
#[verifier::external_body]
pub struct ExAhashRandomState(ahash::RandomState);

/// `ahash::HashSet::default()`: an empty hash set of column positions.
#[verifier::external_body]
fn new_position_set() -> (r: ahash::HashSet<usize>)
    ensures
        r@ == Set::<usize>::empty(),
{
    ahash::HashSet::default()
}

/// `HashSet::insert` on an `ahash` set: afterwards the set holds `position` as well.
#[verifier::external_body]
fn position_set_insert(set: &mut ahash::HashSet<usize>, position: usize)
    ensures
        final(set)@ == old(set)@.insert(position),
{
    set.insert(position);
}

/// `HashSet::contains` on an `ahash` set: whether the set holds `position`.
#[verifier::external_body]
fn position_set_contains(set: &ahash::HashSet<usize>, position: usize) -> (r: bool)
    ensures
        r == set@.contains(position),
{
    set.contains(&position)
}

/// The control column a control selector resolves to: the row id column when it names
/// the row id, else a column of that name with the `Null` datatype.
pub open spec fn resolved_control(selector: Seq<char>) -> ControlModel {
    ControlModel {
        component_name: selector,
        datatype: if selector == row_id_name() {
            row_id_datatype()
        } else {
            DatatypeModel::Null
        },
    }
}

/// The timeline a time selector resolves to: the first timeline of the store, in
/// timeline order, with that name; a wall-clock timeline of that name when none has it.
pub open spec fn resolved_timeline(m: StoreModel, name: Seq<char>) -> TimelineModel {
    let time = TimelineModel { name, typ: TimeType::Time };
    let sequence = TimelineModel { name, typ: TimeType::Sequence };
    if !has_timeline(m, time) && has_timeline(m, sequence) {
        sequence
    } else {
        time
    }
}

/// The component column a component selector resolves to: the datatype registered for
/// the component (`Null` when none is), staticness from the store, the join encoding
/// from the selector.
pub open spec fn resolved_component(m: StoreModel, s: ComponentSelectorModel) -> ComponentModel {
    ComponentModel {
        entity_path: s.entity_path,
        archetype_name: None,
        archetype_field_name: None,
        component_name: s.component,
        store_datatype: list_model(
            match registered_datatype(m.registry, s.component) {
                Some(dt) => dt,
                None => DatatypeModel::Null,
            },
        ),
        join_encoding: s.join_encoding,
        is_static: has_static(m, s.entity_path, s.component),
    }
}

/// The column a selector resolves to.
pub open spec fn resolved_column(m: StoreModel, s: SelectorModel) -> ColumnModel {
    match s {
        SelectorModel::Control(name) => ColumnModel::Control(resolved_control(name)),
        SelectorModel::Time(name) => ColumnModel::Time(time_column(resolved_timeline(m, name))),
        SelectorModel::Component(c) => ColumnModel::Component(resolved_component(m, c)),
    }
}

/// The timeline a query runs on.
pub open spec fn query_timeline(q: QueryExpression) -> TimelineModel {
    match q {
        QueryExpression::LatestAt(q) => q.timeline@,
        QueryExpression::Range(q) => q.timeline@,
    }
}

/// The time at which a query looks for data: the query time of a latest-at query, the
/// end of the range of a range query.
pub open spec fn query_time(q: QueryExpression) -> i64 {
    match q {
        QueryExpression::LatestAt(q) => q.at.0,
        QueryExpression::Range(q) => q.time_range.max.0,
    }
}

/// Whether a column of the schema stays in the schema of a query: control and time
/// columns always do; a component column does when the query's filter selects its
/// entity and a latest-at query at the query's time finds data for it.
pub open spec fn query_keeps(m: StoreModel, q: QueryExpression, c: ColumnModel) -> bool {
    filter_keeps(q, c) && data_keeps(m, q, c)
}

/// Whether the query's filter keeps a column: it selects a component column's entity;
/// other columns have no entity and are kept.
pub open spec fn filter_keeps(q: QueryExpression, c: ColumnModel) -> bool {
    match c {
        ColumnModel::Component(d) => filter_verdict(query_filter(q)@, d.entity_path),
        _ => true,
    }
}

/// Whether a column may hold data for the query: a latest-at query at the query's time
/// finds data for a component column; other columns are kept.
pub open spec fn data_keeps(m: StoreModel, q: QueryExpression, c: ColumnModel) -> bool {
    match c {
        ColumnModel::Component(d) => has_latest_at_data(
            m,
            query_timeline(q),
            query_time(q),
            d.entity_path,
            d.component_name,
        ),
        _ => true,
    }
}

impl ChunkStore {
    /// Whether a latest-at query on `timeline` at `at` finds data for `component_name`
    /// on `entity_path`.
    pub fn has_latest_at_data(
        &self,
        timeline: &Timeline,
        at: TimeInt,
        entity_path: &EntityPath,
        component_name: &ComponentName,
    ) -> (r: bool)
        ensures
            r == has_latest_at_data(self@, timeline@, at.0, entity_path@, component_name@),
    {
        if self.has_static_component(entity_path, component_name) {
            return true;
        }
        let mut i: usize = 0;
        while i < self.temporal_chunks.len()
            invariant
                i <= self.temporal_chunks.len(),
                forall|j: int|
                    0 <= j < i ==> !((#[trigger] self@.temporals[j]).0 == entity_path@
                        && self@.temporals[j].1 == timeline@ && self@.temporals[j].2
                        == component_name@ && self@.temporals[j].3 <= at.0),
            decreases self.temporal_chunks.len() - i,
        {
            let (e, t, c, start) = &self.temporal_chunks[i];
            let same_timeline = t.compare(timeline) == Order::Equal;
            proof {
                lemma_timeline_order(t@, timeline@, timeline@);
            }
            if same_timeline && e.same_as(entity_path) && c.same_as(component_name) && start.0
                <= at.0 {
                assert(self@.temporals[i as int].0 == entity_path@);
                return true;
            }
            i = i + 1;
        }
        false
    }

    /// The descriptor of the control column `selector` names: the row id column when it
    /// names the row id, else a column with the `Null` datatype.
    pub fn resolve_control_selector(&self, selector: &ControlColumnSelector) -> (r:
        ControlColumnDescriptor)
        ensures
            r@ == resolved_control(selector@),
    {
        let row_id = row_id_component_name();
        if selector.component.same_as(&row_id) {
            ControlColumnDescriptor {
                component_name: selector.component.clone(),
                datatype: row_id_arrow_datatype(),
            }
        } else {
            ControlColumnDescriptor {
                component_name: selector.component.clone(),
                datatype: ArrowDatatype::Null,
            }
        }
    }

    /// The descriptor of the time column `selector` names: on the first timeline of the
    /// store with that name, or on a new wall-clock timeline of that name.
    pub fn resolve_time_selector(&self, selector: &TimeColumnSelector) -> (r:
        TimeColumnDescriptor)
        ensures
            r@ == time_column(resolved_timeline(self@, selector@)),
    {
        let timelines = self.all_timelines();
        let ghost tm = timelines_model(timelines@);
        let mut i: usize = 0;
        while i < timelines.len()
            invariant
                i <= timelines.len(),
                tm == timelines_model(timelines@),
                sorted_by(tm, timeline_ord()),
                forall|t: TimelineModel| tm.contains(t) <==> has_timeline(self@, t),
                forall|k: int| 0 <= k < i ==> (#[trigger] tm[k]).name != selector@,
            decreases timelines.len() - i,
        {
            if timelines[i].name().same_as(&selector.timeline) {
                let timeline = timelines[i].clone();
                proof {
                    lemma_timeline_order_laws();
                    let found = tm[i as int];
                    if found.typ == TimeType::Sequence {
                        let time = TimelineModel { name: selector@, typ: TimeType::Time };
                        if has_timeline(self@, time) {
                            assert(tm.contains(time));
                            let k = choose|k: int| 0 <= k < tm.len() && tm[k] == time;
                            assert(timeline_ord()(time, found) == Order::Less);
                            if k > i {
                                assert(timeline_ord()(found, time) == Order::Less);
                            }
                        }
                        assert(tm.contains(found));
                    } else {
                        assert(tm.contains(found));
                    }
                }
                let datatype = timeline.datatype();
                return TimeColumnDescriptor { timeline, datatype };
            }
            i = i + 1;
        }
        proof {
            let time = TimelineModel { name: selector@, typ: TimeType::Time };
            let sequence = TimelineModel { name: selector@, typ: TimeType::Sequence };
            if tm.contains(time) {
                let k = choose|k: int| 0 <= k < tm.len() && tm[k] == time;
                assert(tm[k].name == selector@);
            }
            if tm.contains(sequence) {
                let k = choose|k: int| 0 <= k < tm.len() && tm[k] == sequence;
                assert(tm[k].name == selector@);
            }
        }
        let timeline = Timeline::new_temporal(selector.timeline.clone());
        let datatype = timeline.datatype();
        TimeColumnDescriptor { timeline, datatype }
    }

    /// The descriptor of the component column `selector` names; when the store knows no
    /// datatype for the component, its values are taken to be of the `Null` datatype.
    pub fn resolve_component_selector(&self, selector: &ComponentColumnSelector) -> (r:
        ComponentColumnDescriptor)
        ensures
            r@ == resolved_component(self@, selector@),
    {
        let datatype = match self.lookup_datatype(&selector.component) {
            Some(dt) => dt.clone(),
            None => ArrowDatatype::Null,
        };
        let is_static = self.has_static_component(&selector.entity_path, &selector.component);
        ComponentColumnDescriptor {
            entity_path: selector.entity_path.clone(),
            archetype_name: None,
            archetype_field_name: None,
            component_name: selector.component.clone(),
            store_datatype: list_datatype(datatype),
            join_encoding: selector.join_encoding,
            is_static,
        }
    }

    /// The descriptors of the columns `selectors` name, in the same order.
    pub fn resolve_selectors(&self, selectors: Vec<ColumnSelector>) -> (r: Vec<ColumnDescriptor>)
        ensures
            r@.len() == selectors@.len(),
            forall|i: int|
                0 <= i < r@.len() ==> #[trigger] r@[i]@ == resolved_column(self@, selectors@[i]@),
    {
        let mut r: Vec<ColumnDescriptor> = Vec::new();
        let mut i: usize = 0;
        while i < selectors.len()
            invariant
                i <= selectors.len(),
                r@.len() == i,
                forall|k: int|
                    0 <= k < i ==> #[trigger] r@[k]@ == resolved_column(self@, selectors@[k]@),
            decreases selectors.len() - i,
        {
            let d = match &selectors[i] {
                ColumnSelector::Control(s) => ColumnDescriptor::Control(
                    self.resolve_control_selector(s),
                ),
                ColumnSelector::Time(s) => ColumnDescriptor::Time(self.resolve_time_selector(s)),
                ColumnSelector::Component(s) => ColumnDescriptor::Component(
                    self.resolve_component_selector(s),
                ),
            };
            r.push(d);
            i = i + 1;
        }
        r
    }
}

impl ChunkStore {
    /// The schema of the store for a query: the columns of [`ChunkStore::schema`] that
    /// may hold data from the query's point of view, in the same order. A component
    /// column stays when the query's filter selects its entity and the store has data
    /// for it at the query's time (the end of the range for a range query), judged from
    /// chunk-level metadata alone.
    pub fn schema_for_query(&self, query: &QueryExpression) -> (r: Vec<ColumnDescriptor>)
        ensures
            sorted_by(columns_model(r@), column_ord()),
            forall|i: int|
                0 <= i < r@.len() ==> schema_has(self@, #[trigger] r@[i]@) && query_keeps(
                    self@,
                    *query,
                    r@[i]@,
                ),
            forall|c: ColumnModel|
                schema_has(self@, c) && query_keeps(self@, *query, c) ==> columns_model(
                    r@,
                ).contains(c),
    {
        proof {
            lemma_column_order_laws();
        }
        let full = self.schema();
        let ghost src = columns_model(full@);
        // First, keep the columns whose entity the query's filter selects.
        let filter = query.entity_path_filter();
        let mut schema: Vec<ColumnDescriptor> = Vec::new();
        let mut k: usize = 0;
        while k < full.len()
            invariant
                k <= full.len(),
                src == columns_model(full@),
                sorted_by(src, column_ord()),
                order_laws(column_ord()),
                *filter == query_filter(*query),
                sorted_by(columns_model(schema@), column_ord()),
                forall|a: int, j: int|
                    0 <= a < schema@.len() && k <= j < src.len() ==> #[trigger] column_ord()(
                        columns_model(schema@)[a],
                        src[j],
                    ) == Order::Less,
                forall|a: int|
                    0 <= a < schema@.len() ==> src.contains(#[trigger] schema@[a]@) && filter_keeps(
                        *query,
                        schema@[a]@,
                    ),
                forall|j: int|
                    0 <= j < k && filter_keeps(*query, #[trigger] src[j]) ==> columns_model(
                        schema@,
                    ).contains(src[j]),
            decreases full.len() - k,
        {
            let keep = match full[k].entity_path() {
                None => true,
                Some(entity_path) => filter.matches(entity_path),
            };
            if keep {
                let ghost before = columns_model(schema@);
                proof {
                    lemma_filter_step(before, src, k as int, column_ord());
                }
                schema.push(full[k].clone());
                proof {
                    assert(columns_model(schema@) =~= before.push(src[k as int]));
                    assert(src.contains(src[k as int]));
                    assert forall|j: int|
                        0 <= j < k + 1 && filter_keeps(*query, #[trigger] src[j]) implies columns_model(
                            schema@,
                        ).contains(src[j]) by {
                        if j < k {
                            let a = choose|a: int| 0 <= a < before.len() && before[a] == src[j];
                            assert(columns_model(schema@)[a] == src[j]);
                        } else {
                            assert(columns_model(schema@)[before.len() as int] == src[j]);
                        }
                    }
                }
            } else {
                proof {
                    assert forall|a: int, j: int|
                        0 <= a < schema@.len() && k + 1 <= j < src.len() implies #[trigger] column_ord()(
                            columns_model(schema@)[a],
                            src[j],
                        ) == Order::Less by {}
                }
            }
            k = k + 1;
        }
        // Then, discard every component column for which the store holds no data at
        // the query's time.
        let (timeline, at) = match query {
            QueryExpression::LatestAt(q) => (&q.timeline, q.at),
            QueryExpression::Range(q) => (&q.timeline, q.time_range.max()),
        };
        let mut filtered_out = new_position_set();
        let mut k: usize = 0;
        while k < schema.len()
            invariant
                k <= schema.len(),
                timeline@ == query_timeline(*query),
                at.0 == query_time(*query),
                forall|j: usize|
                    #[trigger] filtered_out@.contains(j) <==> (j < k && !data_keeps(
                        self@,
                        *query,
                        schema@[j as int]@,
                    )),
            decreases schema.len() - k,
        {
            match &schema[k] {
                ColumnDescriptor::Component(descr) => {
                    if !self.has_latest_at_data(
                        timeline,
                        at,
                        &descr.entity_path,
                        &descr.component_name,
                    ) {
                        position_set_insert(&mut filtered_out, k);
                    }
                },
                _ => {},
            }
            k = k + 1;
        }
        let ghost mid = columns_model(schema@);
        assert forall|j: usize|
            #[trigger] filtered_out@.contains(j) <==> (j < schema@.len() && !data_keeps(
                self@,
                *query,
                schema@[j as int]@,
            )) by {}
        let mut r: Vec<ColumnDescriptor> = Vec::new();
        let mut k: usize = 0;
        while k < schema.len()
            invariant
                k <= schema.len(),
                mid == columns_model(schema@),
                sorted_by(mid, column_ord()),
                order_laws(column_ord()),
                forall|j: usize|
                    #[trigger] filtered_out@.contains(j) <==> (j < schema@.len() && !data_keeps(
                        self@,
                        *query,
                        schema@[j as int]@,
                    )),
                sorted_by(columns_model(r@), column_ord()),
                forall|a: int, j: int|
                    0 <= a < r@.len() && k <= j < mid.len() ==> #[trigger] column_ord()(
                        columns_model(r@)[a],
                        mid[j],
                    ) == Order::Less,
                forall|a: int|
                    0 <= a < r@.len() ==> mid.contains(#[trigger] r@[a]@) && data_keeps(
                        self@,
                        *query,
                        r@[a]@,
                    ),
                forall|j: int|
                    0 <= j < k && data_keeps(self@, *query, #[trigger] mid[j]) ==> columns_model(
                        r@,
                    ).contains(mid[j]),
            decreases schema.len() - k,
        {
            if !position_set_contains(&filtered_out, k) {
                let ghost before = columns_model(r@);
                proof {
                    assert(mid[k as int] == schema@[k as int]@);
                    lemma_filter_step(before, mid, k as int, column_ord());
                }
                r.push(schema[k].clone());
                proof {
                    assert(columns_model(r@) =~= before.push(mid[k as int]));
                    assert(mid.contains(mid[k as int]));
                    assert forall|j: int|
                        0 <= j < k + 1 && data_keeps(self@, *query, #[trigger] mid[j]) implies columns_model(
                            r@,
                        ).contains(mid[j]) by {
                        if j < k {
                            let a = choose|a: int| 0 <= a < before.len() && before[a] == mid[j];
                            assert(columns_model(r@)[a] == mid[j]);
                        } else {
                            assert(columns_model(r@)[before.len() as int] == mid[j]);
                        }
                    }
                }
            } else {
                proof {
                    assert(mid[k as int] == schema@[k as int]@);
                    assert forall|a: int, j: int|
                        0 <= a < r@.len() && k + 1 <= j < mid.len() implies #[trigger] column_ord()(
                            columns_model(r@)[a],
                            mid[j],
                        ) == Order::Less by {}
                }
            }
            k = k + 1;
        }
        proof {
            assert forall|i: int| 0 <= i < r@.len() implies schema_has(self@, #[trigger] r@[i]@)
                && query_keeps(self@, *query, r@[i]@) by {
                let a = choose|a: int| 0 <= a < mid.len() && mid[a] == r@[i]@;
                assert(mid[a] == schema@[a]@);
                let b = choose|b: int| 0 <= b < src.len() && src[b] == schema@[a]@;
                assert(src[b] == full@[b]@);
            }
            assert forall|c: ColumnModel|
                schema_has(self@, c) && query_keeps(self@, *query, c) implies columns_model(
                r@,
            ).contains(c) by {
                assert(src.contains(c));
                let b = choose|b: int| 0 <= b < src.len() && src[b] == c;
                assert(columns_model(schema@).contains(c));
                let a = choose|a: int| 0 <= a < mid.len() && mid[a] == c;
                assert(mid[a] == c);
            }
        }
        r
    }
}

} // verus!
