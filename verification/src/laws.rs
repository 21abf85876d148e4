//! Properties that relate the operations of this crate to one another.
use vstd::prelude::*;

use crate::arrow::{list_model, DatatypeModel};
use crate::descriptors::{
    column_field_model, column_ord, component_order, component_text,
    lemma_component_order, lemma_metadata_keys_increasing, metadata_keys, row_id_name, ColumnDescriptor, ColumnModel,
    ComponentModel, JoinEncoding,
};
use crate::path::{
    filter_verdict, lemma_parts_order, parts_order, rule_matches, rule_pair_ord, rules_sorted,
    RuleEffect, RuleModel,
};
use crate::query::{LatestAtQueryExpression, QueryExpression, RangeQueryExpression};
use crate::selectors::{selector_of, ComponentSelectorModel, SelectorModel};
use crate::sorted::{lemma_filter_members, lemma_filter_sorted, lemma_sorted_unique, sorted_by};
use crate::store::{
    has_static, has_timeline, query_keeps, registered_datatype, resolved_column,
    resolved_component, row_id_column,
    schema_has, time_column, StoreModel,
};
use crate::text::{chars_order, flip, lemma_chars_order_equal, Order};
use crate::time::{TimeType, TimelineModel};

verus! {

/// What the selector of a column denotes.
pub open spec fn selector_model(c: ColumnModel) -> SelectorModel {
    match c {
        ColumnModel::Control(d) => SelectorModel::Control(d.component_name),
        ColumnModel::Time(d) => SelectorModel::Time(d.timeline.name),
        ColumnModel::Component(d) => SelectorModel::Component(
            ComponentSelectorModel {
                entity_path: d.entity_path,
                component: d.component_name,
                join_encoding: d.join_encoding,
            },
        ),
    }
}

/// Whether the store has timelines of both kinds under one name.
pub open spec fn ambiguous_timeline_name(m: StoreModel, name: Seq<char>) -> bool {
    has_timeline(m, TimelineModel { name, typ: TimeType::Time }) && has_timeline(
        m,
        TimelineModel { name, typ: TimeType::Sequence },
    )
}

/// Converting a descriptor into a selector keeps what the selector names: the
/// component name of a control column, the timeline name of a time column, the entity,
/// component and join encoding of a component column.
pub proof fn lemma_selector_of_descriptor(desc: ColumnDescriptor)
    ensures
        selector_of(desc)@ == selector_model(desc@),
{
}

/// Resolving the selector of any column of the full schema gives that column back,
/// unless it is the time column of a name that the store uses for timelines of both
/// kinds (the wall-clock one is then found first).
pub proof fn lemma_resolve_schema_column(m: StoreModel, c: ColumnModel)
    requires
        schema_has(m, c),
        c matches ColumnModel::Time(d) ==> !ambiguous_timeline_name(m, d.timeline.name),
    ensures
        resolved_column(m, selector_model(c)) == c,
{
}

/// The row id selector resolves to the row id column, which every schema holds.
pub proof fn lemma_row_id_selector(m: StoreModel)
    ensures
        resolved_column(m, SelectorModel::Control(row_id_name())) == ColumnModel::Control(
            row_id_column(),
        ),
        schema_has(m, ColumnModel::Control(row_id_column())),
{
}

/// Whether a column sequence is a full schema of the store, as
/// [`crate::store::ChunkStore::schema`] returns it.
pub open spec fn is_schema(m: StoreModel, s: Seq<ColumnModel>) -> bool {
    &&& sorted_by(s, column_ord())
    &&& forall|i: int| 0 <= i < s.len() ==> schema_has(m, #[trigger] s[i])
    &&& forall|c: ColumnModel| schema_has(m, c) ==> s.contains(c)
}

/// Whether a column sequence is a schema of the store for a query, as
/// [`crate::store::ChunkStore::schema_for_query`] returns it.
pub open spec fn is_query_schema(m: StoreModel, q: QueryExpression, s: Seq<ColumnModel>) -> bool {
    &&& sorted_by(s, column_ord())
    &&& forall|i: int| 0 <= i < s.len() ==> schema_has(m, #[trigger] s[i]) && query_keeps(m, q, s[i])
    &&& forall|c: ColumnModel| schema_has(m, c) && query_keeps(m, q, c) ==> s.contains(c)
}

/// The schema of a store is determined by the store alone.
pub proof fn lemma_schema_unique(m: StoreModel, s: Seq<ColumnModel>, t: Seq<ColumnModel>)
    requires
        is_schema(m, s),
        is_schema(m, t),
    ensures
        s == t,
{
    crate::descriptors::lemma_column_order_laws();
    lemma_sorted_unique(s, t, column_ord());
}

/// The schema for a query is the full schema with the columns the query cannot hold data
/// for left out, in the same order.
pub proof fn lemma_query_schema_is_filtered_schema(
    m: StoreModel,
    q: QueryExpression,
    s: Seq<ColumnModel>,
    t: Seq<ColumnModel>,
)
    requires
        is_schema(m, s),
        is_query_schema(m, q, t),
    ensures
        t == s.filter(|c: ColumnModel| query_keeps(m, q, c)),
{
    crate::descriptors::lemma_column_order_laws();
    let pred = |c: ColumnModel| query_keeps(m, q, c);
    let f = s.filter(pred);
    lemma_filter_members(s, pred);
    lemma_filter_sorted(s, pred, column_ord());
    assert forall|x: ColumnModel| t.contains(x) <==> f.contains(x) by {
        if t.contains(x) {
            let k = choose|k: int| 0 <= k < t.len() && t[k] == x;
            assert(schema_has(m, t[k]));
        }
        if f.contains(x) {
            let k = choose|k: int| 0 <= k < s.len() && s[k] == x;
            assert(schema_has(m, s[k]));
        }
    }
    lemma_sorted_unique(t, f, column_ord());
}

/// A schema holds at most one column per component on an entity: shadowed temporal data
/// of a static component does not yield a second column.
pub proof fn lemma_one_column_per_component(m: StoreModel, s: Seq<ColumnModel>, i: int, j: int)
    requires
        is_schema(m, s),
        0 <= i < s.len(),
        0 <= j < s.len(),
        s[i] is Component,
        s[j] is Component,
        s[i]->Component_0.entity_path == s[j]->Component_0.entity_path,
        s[i]->Component_0.component_name == s[j]->Component_0.component_name,
    ensures
        i == j,
{
    assert(schema_has(m, s[i]));
    assert(schema_has(m, s[j]));
    lemma_component_order(s[i]->Component_0, s[j]->Component_0, s[j]->Component_0);
    if i < j {
        assert(column_ord()(s[i], s[j]) == Order::Less);
    } else if j < i {
        assert(column_ord()(s[j], s[i]) == Order::Less);
        lemma_component_order(s[j]->Component_0, s[i]->Component_0, s[i]->Component_0);
    }
}

/// A path strictly below another comes after it.
pub proof fn lemma_proper_prefix_order(q: Seq<Seq<char>>, p: Seq<Seq<char>>)
    requires
        q.is_prefix_of(p),
        q != p,
    ensures
        parts_order(q, p) == Order::Less,
    decreases q.len(),
{
    if q.len() == 0 {
        assert(p.len() > 0) by {
            if p.len() == 0 {
                assert(q =~= p);
            }
        }
    } else {
        assert(q[0] == p[0]);
        crate::text::lemma_chars_order_equal(q[0], p[0]);
        assert(q.drop_first().is_prefix_of(p.drop_first())) by {
            assert(q.drop_first() =~= p.drop_first().subrange(0, q.drop_first().len() as int));
        }
        if q.drop_first() == p.drop_first() {
            assert(q =~= p) by {
                assert(q =~= seq![q[0]] + q.drop_first());
                assert(p =~= seq![p[0]] + p.drop_first());
            }
        }
        lemma_proper_prefix_order(q.drop_first(), p.drop_first());
    }
}

/// In a filter, a rule for exactly one path decides that path, whatever the rules for
/// the subtrees above it say: the most specific rule wins.
pub proof fn lemma_exact_rule_decides(
    rules: Seq<(RuleModel, RuleEffect)>,
    path: Seq<Seq<char>>,
    i: int,
)
    requires
        rules_sorted(rules),
        0 <= i < rules.len(),
        rules[i].0 == (RuleModel { path, include_subtree: false }),
    ensures
        filter_verdict(rules, path) == (rules[i].1 == RuleEffect::Include),
    decreases rules.len(),
{
    if rules.len() - 1 > i {
        let last = rules.last();
        assert(rule_pair_ord()(rules[i], rules[rules.len() - 1]) == Order::Less);
        assert(!rule_matches(last.0, path)) by {
            lemma_parts_order(path, last.0.path, path);
            if last.0.include_subtree && last.0.path.is_prefix_of(path) {
                if last.0.path != path {
                    lemma_proper_prefix_order(last.0.path, path);
                }
            }
        }
        let d = rules.drop_last();
        assert(rules_sorted(d)) by {
            assert forall|a: int, b: int| 0 <= a < b < d.len() implies #[trigger] rule_pair_ord()(
                d[a],
                d[b],
            ) == Order::Less by {
                assert(d[a] == rules[a] && d[b] == rules[b]);
            }
        }
        assert(d[i] == rules[i]);
        lemma_exact_rule_decides(d, path, i);
    }
}

/// The store after a static chunk holding `component` on `entity`, of datatype
/// `datatype`, was written to `m`.
pub open spec fn with_static(
    m: StoreModel,
    entity: Seq<Seq<char>>,
    component: Seq<char>,
    datatype: DatatypeModel,
) -> StoreModel {
    StoreModel {
        registry: m.registry.push((component, datatype)),
        statics: m.statics.push((entity, component)),
        temporals: m.temporals,
    }
}

/// The store after a temporal chunk holding `component` on `entity`, of datatype
/// `datatype`, starting at `start` on `timeline`, was written to `m`.
pub open spec fn with_temporal(
    m: StoreModel,
    entity: Seq<Seq<char>>,
    timeline: TimelineModel,
    component: Seq<char>,
    datatype: DatatypeModel,
    start: i64,
) -> StoreModel {
    StoreModel {
        registry: m.registry.push((component, datatype)),
        statics: m.statics,
        temporals: m.temporals.push((entity, timeline, component, start)),
    }
}

/// After a static write, the schema holds a static column for the component on the
/// entity, listing values of the written datatype.
pub proof fn lemma_static_write_in_schema(
    m: StoreModel,
    entity: Seq<Seq<char>>,
    component: Seq<char>,
    datatype: DatatypeModel,
)
    ensures
        schema_has(
            with_static(m, entity, component, datatype),
            ColumnModel::Component(
                ComponentModel {
                    entity_path: entity,
                    archetype_name: None,
                    archetype_field_name: None,
                    component_name: component,
                    store_datatype: list_model(datatype),
                    join_encoding: JoinEncoding::OverlappingSlice,
                    is_static: true,
                },
            ),
        ),
{
    let m2 = with_static(m, entity, component, datatype);
    assert(m2.statics[m.statics.len() as int] == (entity, component));
    assert(has_static(m2, entity, component));
    assert(registered_datatype(m2.registry, component) == Some(datatype));
}

/// After a temporal write, the schema holds the time column of the timeline, and a
/// column for the component on the entity listing values of the written datatype,
/// static exactly when static data was written for it before.
pub proof fn lemma_temporal_write_in_schema(
    m: StoreModel,
    entity: Seq<Seq<char>>,
    timeline: TimelineModel,
    component: Seq<char>,
    datatype: DatatypeModel,
    start: i64,
)
    ensures
        schema_has(
            with_temporal(m, entity, timeline, component, datatype, start),
            ColumnModel::Time(time_column(timeline)),
        ),
        schema_has(
            with_temporal(m, entity, timeline, component, datatype, start),
            ColumnModel::Component(
                ComponentModel {
                    entity_path: entity,
                    archetype_name: None,
                    archetype_field_name: None,
                    component_name: component,
                    store_datatype: list_model(datatype),
                    join_encoding: JoinEncoding::OverlappingSlice,
                    is_static: has_static(m, entity, component),
                },
            ),
        ),
{
    let m2 = with_temporal(m, entity, timeline, component, datatype, start);
    assert(m2.temporals[m.temporals.len() as int] == (entity, timeline, component, start));
    assert(registered_datatype(m2.registry, component) == Some(datatype));
    assert(has_static(m2, entity, component) == has_static(m, entity, component));
}

/// In the schema of a latest-at query, a component column of an entity is there exactly
/// when the full schema has it, the query's filter selects the entity, and the store
/// holds static data for that very component on that entity, or a chunk of that very
/// component on that entity on the query's timeline starting at or before the query
/// time. Data of another component of the entity never keeps a column.
pub proof fn lemma_latest_at_query_columns(
    m: StoreModel,
    q: LatestAtQueryExpression,
    t: Seq<ColumnModel>,
    d: ComponentModel,
)
    requires
        is_query_schema(m, QueryExpression::LatestAt(q), t),
    ensures
        t.contains(ColumnModel::Component(d)) <==> {
            &&& schema_has(m, ColumnModel::Component(d))
            &&& filter_verdict(q.entity_path_filter@, d.entity_path)
            &&& (exists|i: int|
                0 <= i < m.statics.len() && #[trigger] m.statics[i] == (
                    d.entity_path,
                    d.component_name,
                )) || (exists|i: int|
                0 <= i < m.temporals.len() && (#[trigger] m.temporals[i]).0 == d.entity_path
                    && m.temporals[i].1 == q.timeline@ && m.temporals[i].2 == d.component_name
                    && m.temporals[i].3 <= q.at.0)
        },
{
    if t.contains(ColumnModel::Component(d)) {
        let k = choose|k: int| 0 <= k < t.len() && t[k] == ColumnModel::Component(d);
        assert(schema_has(m, t[k]) && query_keeps(m, QueryExpression::LatestAt(q), t[k]));
    }
}

/// In the schema of a range query, a component column of an entity is there exactly when
/// the full schema has it, the query's filter selects the entity, and the store holds
/// static data for that very component on that entity, or a chunk of that very component
/// on that entity on the query's timeline starting at or before the end of the range.
pub proof fn lemma_range_query_columns(
    m: StoreModel,
    q: RangeQueryExpression,
    t: Seq<ColumnModel>,
    d: ComponentModel,
)
    requires
        is_query_schema(m, QueryExpression::Range(q), t),
    ensures
        t.contains(ColumnModel::Component(d)) <==> {
            &&& schema_has(m, ColumnModel::Component(d))
            &&& filter_verdict(q.entity_path_filter@, d.entity_path)
            &&& (exists|i: int|
                0 <= i < m.statics.len() && #[trigger] m.statics[i] == (
                    d.entity_path,
                    d.component_name,
                )) || (exists|i: int|
                0 <= i < m.temporals.len() && (#[trigger] m.temporals[i]).0 == d.entity_path
                    && m.temporals[i].1 == q.timeline@ && m.temporals[i].2 == d.component_name
                    && m.temporals[i].3 <= q.time_range.max.0)
        },
{
    if t.contains(ColumnModel::Component(d)) {
        let k = choose|k: int| 0 <= k < t.len() && t[k] == ColumnModel::Component(d);
        assert(schema_has(m, t[k]) && query_keeps(m, QueryExpression::Range(q), t[k]));
    }
}

/// The Arrow field of a component column carries the key `sorbet.is_static` exactly when
/// the column is static, and then with the value `yes`.
pub proof fn lemma_static_marker_in_field(d: ComponentModel)
    ensures
        (exists|i: int|
            0 <= i < column_field_model(ColumnModel::Component(d)).metadata.len()
                && (#[trigger] column_field_model(ColumnModel::Component(d)).metadata[i]).0
                == "sorbet.is_static"@) <==> d.is_static,
        d.is_static ==> column_field_model(ColumnModel::Component(d)).metadata.contains(
            ("sorbet.is_static"@, "yes"@),
        ),
{
    let meta = column_field_model(ColumnModel::Component(d)).metadata;
    lemma_metadata_keys_increasing();
    let k = metadata_keys();
    assert forall|j: int| 1 <= j < 5 implies #[trigger] k[j] != k[0] by {
        assert(chars_order(k[0], k[j]) == Order::Less);
        lemma_chars_order_equal(k[0], k[j]);
    }
    if d.is_static {
        assert(meta[0] == ("sorbet.is_static"@, "yes"@));
    } else {
        assert forall|i: int| 0 <= i < meta.len() implies (#[trigger] meta[i]).0
            != "sorbet.is_static"@ by {
            assert(k[1] != k[0]);
            assert(k[2] != k[0]);
            assert(k[3] != k[0]);
            assert(k[4] != k[0]);
        }
    }
}

/// A component selector resolves to a column with the selector's join encoding,
/// whatever the store holds.
pub proof fn lemma_resolve_keeps_join_encoding(m: StoreModel, s: ComponentSelectorModel)
    ensures
        resolved_component(m, s).join_encoding == s.join_encoding,
        resolved_column(m, SelectorModel::Component(s)) == ColumnModel::Component(
            resolved_component(m, s),
        ),
        resolved_component(m, s).entity_path == s.entity_path,
        resolved_component(m, s).component_name == s.component,
{
}

/// Two component columns on one entity, with distinct component names, are ordered by
/// the lexicographic order of those names, whatever their archetype names.
pub proof fn lemma_component_columns_by_name(a: ComponentModel, b: ComponentModel)
    requires
        a.entity_path == b.entity_path,
        a.component_name != b.component_name,
    ensures
        component_order(a, b) == chars_order(a.component_name, b.component_name),
        column_ord()(ColumnModel::Component(a), ColumnModel::Component(b)) == chars_order(
            a.component_name,
            b.component_name,
        ),
{
    lemma_parts_order(a.entity_path, b.entity_path, b.entity_path);
    lemma_chars_order_equal(a.component_name, b.component_name);
}

/// In the schema, the component columns of one entity come in lexicographic order of
/// their component names.
pub proof fn lemma_schema_components_in_name_order(
    m: StoreModel,
    s: Seq<ColumnModel>,
    i: int,
    j: int,
    a: ComponentModel,
    b: ComponentModel,
)
    requires
        is_schema(m, s),
        0 <= i < j < s.len(),
        s[i] == ColumnModel::Component(a),
        s[j] == ColumnModel::Component(b),
        a.entity_path == b.entity_path,
    ensures
        chars_order(a.component_name, b.component_name) == Order::Less,
{
    assert(column_ord()(s[i], s[j]) == Order::Less);
    assert(schema_has(m, s[i]) && schema_has(m, s[j]));
    if a.component_name == b.component_name {
        assert(a == b);
        crate::descriptors::lemma_column_order_laws();
        assert(column_ord()(s[i], s[i]) == flip(column_ord()(s[i], s[i])));
    } else {
        lemma_component_columns_by_name(a, b);
    }
}

/// The text of a static component column is the text of the same column when not
/// static, between bars.
pub proof fn lemma_static_text_has_bars(d: ComponentModel)
    ensures
        component_text(ComponentModel { is_static: true, ..d }) == "|"@ + component_text(
            ComponentModel { is_static: false, ..d },
        ) + "|"@,
{
}

} // verus!
