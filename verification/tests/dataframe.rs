use re_dataframe_schema::arrow::{ArrowDatatype, ArrowField, IntegerType, TimeUnit};
use re_dataframe_schema::components::{
    leaf_transform_mat3x3_arrow_datatype, leaf_transform_mat3x3_component_name,
};
use re_dataframe_schema::descriptors::{
    row_id_arrow_datatype, row_id_component_name, ColumnDescriptor, ComponentColumnDescriptor,
    ControlColumnDescriptor, JoinEncoding, TimeColumnDescriptor,
};
use re_dataframe_schema::names::{ArchetypeName, ComponentName, TimelineName};
use re_dataframe_schema::path::{join_strings, EntityPath, EntityPathFilter, EntityPathRule, RuleEffect};
use re_dataframe_schema::query::{LatestAtQueryExpression, QueryExpression, RangeQueryExpression};
use re_dataframe_schema::selectors::{
    ColumnSelector, ComponentColumnSelector, ControlColumnSelector, TimeColumnSelector,
};
use re_dataframe_schema::store::ChunkStore;
use re_dataframe_schema::text::{compare_str, starts_with, strip_prefix, Order};
use re_dataframe_schema::time::{ResolvedTimeRange, TimeInt, TimeType, Timeline};

fn path(parts: &[&str]) -> EntityPath {
    EntityPath::new(parts.iter().map(|p| p.to_string()).collect())
}

fn list_of(inner: ArrowDatatype) -> ArrowDatatype {
    ArrowDatatype::List(Box::new(ArrowField::new("item".to_string(), inner, true)))
}

fn frame() -> Timeline {
    Timeline::new_sequence(TimelineName::new("frame"))
}

fn log_time() -> Timeline {
    Timeline::new_temporal(TimelineName::new("log_time"))
}

fn position() -> ComponentName {
    ComponentName::new("rerun.components.Position3D")
}

fn color() -> ComponentName {
    ComponentName::new("rerun.components.Color")
}

fn radius() -> ComponentName {
    ComponentName::new("rerun.components.Radius")
}

fn filter_all() -> EntityPathFilter {
    let mut filter = EntityPathFilter::new();
    filter.insert_rule(EntityPathRule::including_subtree(EntityPath::root()), RuleEffect::Include);
    filter
}

/// A store with points on `/world/points` (positions over `frame` and `log_time`,
/// colors static and also temporal on `frame`), and a radius on `/world/a` at frame 10.
fn sample_store() -> ChunkStore {
    let mut store = ChunkStore::new();
    store.insert_temporal_component(path(&["world", "points"]), frame(), position(), ArrowDatatype::Float32, TimeInt::new(0));
    store.insert_temporal_component(path(&["world", "points"]), log_time(), position(), ArrowDatatype::Float32, TimeInt::new(100));
    store.insert_static_component(path(&["world", "points"]), color(), ArrowDatatype::UInt32);
    store.insert_temporal_component(path(&["world", "points"]), frame(), color(), ArrowDatatype::UInt32, TimeInt::new(5));
    store.insert_temporal_component(path(&["world", "a"]), frame(), radius(), ArrowDatatype::Float32, TimeInt::new(10));
    store
}

fn component_key(c: &ColumnDescriptor) -> Option<(String, String, bool)> {
    match c {
        ColumnDescriptor::Component(d) => Some((
            d.entity_path.to_display_string(),
            d.component_name.as_str().to_string(),
            d.is_static,
        )),
        _ => None,
    }
}

#[test]
fn join_encoding_defaults_to_overlapping_slice() {
    assert_eq!(JoinEncoding::default(), JoinEncoding::OverlappingSlice);
}

#[test]
fn schema_orders_control_then_time_then_components() {
    let store = sample_store();
    let schema = store.schema();
    assert_eq!(schema.len(), 1 + 2 + 3);
    match &schema[0] {
        ColumnDescriptor::Control(d) => {
            assert_eq!(d.component_name.as_str(), "rerun.controls.RowId");
            assert_eq!(d.datatype, row_id_arrow_datatype());
        }
        _ => panic!("first column must be the row id"),
    }
    match (&schema[1], &schema[2]) {
        (ColumnDescriptor::Time(a), ColumnDescriptor::Time(b)) => {
            assert_eq!(a.timeline.name().as_str(), "frame");
            assert_eq!(a.datatype, ArrowDatatype::Int64);
            assert_eq!(b.timeline.name().as_str(), "log_time");
            assert_eq!(b.datatype, ArrowDatatype::Timestamp(TimeUnit::Nanosecond, None));
        }
        _ => panic!("then the time columns"),
    }
    let keys: Vec<_> = schema[3..].iter().map(|c| component_key(c).unwrap()).collect();
    assert_eq!(
        keys,
        vec![
            ("/world/a".to_string(), "rerun.components.Radius".to_string(), false),
            ("/world/points".to_string(), "rerun.components.Color".to_string(), true),
            ("/world/points".to_string(), "rerun.components.Position3D".to_string(), false),
        ]
    );
}

#[test]
fn schema_component_columns_store_lists() {
    let store = sample_store();
    let schema = store.schema();
    match &schema[5] {
        ColumnDescriptor::Component(d) => {
            assert_eq!(d.store_datatype, list_of(ArrowDatatype::Float32));
            assert_eq!(d.join_encoding, JoinEncoding::OverlappingSlice);
            assert!(d.archetype_name.is_none());
            assert!(d.archetype_field_name.is_none());
        }
        _ => panic!("component column expected"),
    }
}

#[test]
fn empty_store_schema_is_row_id_only() {
    let store = ChunkStore::new();
    let schema = store.schema();
    assert_eq!(schema.len(), 1);
    assert!(matches!(schema[0], ColumnDescriptor::Control(_)));
}

#[test]
fn latest_registration_of_a_datatype_wins() {
    let mut store = ChunkStore::new();
    store.insert_static_component(path(&["a"]), color(), ArrowDatatype::UInt32);
    store.insert_static_component(path(&["b"]), color(), ArrowDatatype::UInt8);
    assert_eq!(store.lookup_datatype(&color()), Some(&ArrowDatatype::UInt8));
    assert_eq!(store.lookup_datatype(&radius()), None);
}

#[test]
fn resolve_control_selector_knows_row_id() {
    let store = ChunkStore::new();
    let d = store.resolve_control_selector(&ControlColumnSelector::row_id());
    assert_eq!(d.component_name, row_id_component_name());
    assert_eq!(d.datatype, row_id_arrow_datatype());
    let other = store.resolve_control_selector(&ControlColumnSelector {
        component: ComponentName::new("rerun.controls.Other"),
    });
    assert_eq!(other.datatype, ArrowDatatype::Null);
}

#[test]
fn resolve_time_selector_finds_or_makes_timeline() {
    let store = sample_store();
    let found = store.resolve_time_selector(&TimeColumnSelector { timeline: TimelineName::new("frame") });
    assert_eq!(found.timeline.typ(), TimeType::Sequence);
    assert_eq!(found.datatype, ArrowDatatype::Int64);
    let made = store.resolve_time_selector(&TimeColumnSelector { timeline: TimelineName::new("other") });
    assert_eq!(made.timeline.typ(), TimeType::Time);
    assert_eq!(made.datatype, ArrowDatatype::Timestamp(TimeUnit::Nanosecond, None));
}

#[test]
fn resolve_time_selector_prefers_wall_clock_timeline() {
    let mut store = ChunkStore::new();
    let seq = Timeline::new_sequence(TimelineName::new("t"));
    let time = Timeline::new_temporal(TimelineName::new("t"));
    store.insert_temporal_component(path(&["a"]), seq, color(), ArrowDatatype::UInt32, TimeInt::new(0));
    store.insert_temporal_component(path(&["a"]), time, color(), ArrowDatatype::UInt32, TimeInt::new(0));
    let d = store.resolve_time_selector(&TimeColumnSelector { timeline: TimelineName::new("t") });
    assert_eq!(d.timeline.typ(), TimeType::Time);
}

#[test]
fn resolve_component_selector_unknown_component_is_null() {
    let store = sample_store();
    let selector = ComponentColumnSelector::new_for_component_name(
        path(&["nowhere"]),
        ComponentName::new("rerun.components.Unknown"),
    )
    .with_join_encoding(JoinEncoding::DictionaryEncode);
    let d = store.resolve_component_selector(&selector);
    assert_eq!(d.store_datatype, list_of(ArrowDatatype::Null));
    assert_eq!(d.join_encoding, JoinEncoding::DictionaryEncode);
    assert!(!d.is_static);
}

#[test]
fn resolve_component_selector_reports_static() {
    let store = sample_store();
    let d = store.resolve_component_selector(&ComponentColumnSelector::new(path(&["world", "points"]), color()));
    assert!(d.is_static);
    assert_eq!(d.store_datatype, list_of(ArrowDatatype::UInt32));
}

#[test]
fn resolving_schema_selectors_gives_schema_back() {
    let store = sample_store();
    let schema = store.schema();
    let selectors: Vec<ColumnSelector> = schema.iter().cloned().map(ColumnSelector::from).collect();
    let resolved = store.resolve_selectors(selectors);
    assert_eq!(resolved, schema);
}

#[test]
fn schema_for_latest_at_drops_columns_without_data() {
    let store = sample_store();
    let query = QueryExpression::from(LatestAtQueryExpression {
        entity_path_filter: filter_all(),
        timeline: frame(),
        at: TimeInt::new(3),
    });
    let schema = store.schema_for_query(&query);
    let keys: Vec<_> = schema.iter().filter_map(component_key).collect();
    assert_eq!(
        keys,
        vec![
            ("/world/points".to_string(), "rerun.components.Color".to_string(), true),
            ("/world/points".to_string(), "rerun.components.Position3D".to_string(), false),
        ]
    );
    assert_eq!(schema.len(), 1 + 2 + 2);
}

#[test]
fn schema_for_range_uses_end_of_range() {
    let store = sample_store();
    let pov = ComponentColumnSelector::new(path(&["world", "a"]), radius());
    let query = QueryExpression::from(RangeQueryExpression {
        entity_path_filter: filter_all(),
        timeline: frame(),
        time_range: ResolvedTimeRange::new(TimeInt::new(0), TimeInt::new(20)),
        pov,
    });
    let schema = store.schema_for_query(&query);
    assert_eq!(schema.len(), 1 + 2 + 3);
    assert_eq!(schema, store.schema());
}

#[test]
fn schema_for_query_applies_entity_filter() {
    let store = sample_store();
    let mut filter = filter_all();
    filter.insert_rule(EntityPathRule::exact(path(&["world", "a"])), RuleEffect::Exclude);
    let query = QueryExpression::from(LatestAtQueryExpression { entity_path_filter: filter, timeline: frame(), at: TimeInt::new(100) });
    let schema = store.schema_for_query(&query);
    let keys: Vec<_> = schema.iter().filter_map(component_key).collect();
    assert_eq!(keys.len(), 2);
    assert!(keys.iter().all(|(p, _, _)| p == "/world/points"));
}

#[test]
fn schema_for_query_on_other_timeline_keeps_static_only() {
    let store = sample_store();
    let query = QueryExpression::from(LatestAtQueryExpression {
        entity_path_filter: filter_all(),
        timeline: Timeline::new_sequence(TimelineName::new("other")),
        at: TimeInt::new(1000),
    });
    let keys: Vec<_> = store.schema_for_query(&query).iter().filter_map(component_key).collect();
    assert_eq!(keys, vec![("/world/points".to_string(), "rerun.components.Color".to_string(), true)]);
}

#[test]
fn filter_most_specific_rule_wins() {
    let mut filter = EntityPathFilter::new();
    filter.insert_rule(EntityPathRule::including_subtree(path(&["world"])), RuleEffect::Include);
    filter.insert_rule(EntityPathRule::including_subtree(path(&["world", "car"])), RuleEffect::Exclude);
    filter.insert_rule(EntityPathRule::exact(path(&["world", "car", "wheel"])), RuleEffect::Include);
    assert!(filter.matches(&path(&["world"])));
    assert!(filter.matches(&path(&["world", "house"])));
    assert!(!filter.matches(&path(&["world", "car"])));
    assert!(!filter.matches(&path(&["world", "car", "door"])));
    assert!(filter.matches(&path(&["world", "car", "wheel"])));
    assert!(!filter.matches(&path(&["other"])));
    assert!(!EntityPathFilter::new().matches(&path(&["world"])));
}

#[test]
fn filter_insert_replaces_effect() {
    let mut filter = EntityPathFilter::new();
    filter.insert_rule(EntityPathRule::exact(path(&["a"])), RuleEffect::Include);
    filter.insert_rule(EntityPathRule::exact(path(&["a"])), RuleEffect::Exclude);
    assert!(!filter.matches(&path(&["a"])));
    assert_eq!(filter.expressions(), vec!["- /a".to_string()]);
}

#[test]
fn filter_expressions_in_rule_order() {
    let mut filter = EntityPathFilter::new();
    filter.insert_rule(EntityPathRule::exact(path(&["world"])), RuleEffect::Exclude);
    filter.insert_rule(EntityPathRule::including_subtree(EntityPath::root()), RuleEffect::Include);
    filter.insert_rule(EntityPathRule::including_subtree(path(&["world"])), RuleEffect::Include);
    assert_eq!(
        filter.expressions(),
        vec!["+ /**".to_string(), "+ /world/**".to_string(), "- /world".to_string()]
    );
}

#[test]
fn component_short_names() {
    assert_eq!(position().short_name(), "Position3D");
    assert_eq!(ComponentName::new("rerun.blueprint.components.Visible").short_name(), "Visible");
    assert_eq!(row_id_component_name().short_name(), "RowId");
    assert_eq!(ComponentName::new("rerun.Thing").short_name(), "Thing");
    assert_eq!(ComponentName::new("my.Custom").short_name(), "my.Custom");
    assert_eq!(ArchetypeName::new("rerun.archetypes.Points3D").short_name(), "Points3D");
    assert_eq!(ArchetypeName::new("rerun.blueprint.archetypes.Background").short_name(), "Background");
}

fn full_descriptor() -> ComponentColumnDescriptor {
    ComponentColumnDescriptor {
        entity_path: path(&["world", "points"]),
        archetype_name: Some(ArchetypeName::new("rerun.archetypes.Points3D")),
        archetype_field_name: Some("positions".to_string()),
        component_name: position(),
        store_datatype: list_of(ArrowDatatype::Float32),
        join_encoding: JoinEncoding::OverlappingSlice,
        is_static: false,
    }
}

#[test]
fn component_descriptor_display() {
    let d = full_descriptor();
    assert_eq!(d.to_display_string(), "/world/points@Points3D::Position3D#positions");
    let mut s = full_descriptor();
    s.is_static = true;
    assert_eq!(s.to_display_string(), "|/world/points@Points3D::Position3D#positions|");
    let mut plain = full_descriptor();
    plain.archetype_name = None;
    plain.archetype_field_name = None;
    assert_eq!(plain.to_display_string(), "rerun.components.Position3D");
    let mut no_field = full_descriptor();
    no_field.archetype_field_name = None;
    assert_eq!(no_field.to_display_string(), "/world/points@Points3D::Position3D");
    let mut no_arch = full_descriptor();
    no_arch.archetype_name = None;
    assert_eq!(no_arch.to_display_string(), "/world/points@Position3D#positions");
}

#[test]
fn component_descriptor_arrow_field_and_metadata() {
    let mut d = full_descriptor();
    d.is_static = true;
    let field = d.to_arrow_field();
    assert_eq!(field.name, "Position3D");
    assert!(field.is_nullable);
    assert_eq!(field.data_type, list_of(ArrowDatatype::Float32));
    let meta: Vec<(&str, &str)> = field.metadata.iter().map(|(k, v)| (k.as_str(), v.as_str())).collect();
    assert_eq!(
        meta,
        vec![
            ("sorbet.is_static", "yes"),
            ("sorbet.logical_type", "positions"),
            ("sorbet.path", "/world/points"),
            ("sorbet.semantic_family", "Points3D"),
            ("sorbet.semantic_type", "Position3D"),
        ]
    );
    let mut keys: Vec<&str> = meta.iter().map(|(k, _)| *k).collect();
    let before = keys.clone();
    keys.sort();
    assert_eq!(keys, before);
}

#[test]
fn dictionary_encoding_changes_returned_datatype() {
    let d = ComponentColumnDescriptor::new(path(&["a"]), color(), ArrowDatatype::UInt32);
    assert_eq!(d.returned_datatype(), list_of(ArrowDatatype::UInt32));
    let d = d.with_join_encoding(JoinEncoding::DictionaryEncode);
    assert_eq!(
        d.returned_datatype(),
        ArrowDatatype::Dictionary(IntegerType::Int32, Box::new(list_of(ArrowDatatype::UInt32)), true)
    );
    let column = ColumnDescriptor::Component(d);
    assert_eq!(column.datatype(), column.to_arrow_field().data_type);
    assert_eq!(column.short_name(), "Color");
    assert_eq!(column.entity_path().unwrap().to_display_string(), "/a");
}

#[test]
fn control_and_time_arrow_fields() {
    let control = ColumnDescriptor::Control(ControlColumnDescriptor {
        component_name: row_id_component_name(),
        datatype: row_id_arrow_datatype(),
    });
    let field = control.to_arrow_field();
    assert_eq!(field.name, "rerun.controls.RowId");
    assert!(!field.is_nullable);
    assert!(field.metadata.is_empty());
    assert_eq!(control.short_name(), "RowId");
    assert!(control.entity_path().is_none());
    let time = ColumnDescriptor::Time(TimeColumnDescriptor { timeline: frame(), datatype: ArrowDatatype::Int64 });
    let field = time.to_arrow_field();
    assert_eq!(field.name, "frame");
    assert_eq!(field.data_type, ArrowDatatype::Int64);
    assert_eq!(time.short_name(), "frame");
}

#[test]
fn row_id_datatype_is_struct_of_two_u64() {
    assert_eq!(
        row_id_arrow_datatype(),
        ArrowDatatype::Struct(vec![
            ArrowField::new("time_ns".to_string(), ArrowDatatype::UInt64, false),
            ArrowField::new("inc".to_string(), ArrowDatatype::UInt64, false),
        ])
    );
}

#[test]
fn column_order_ignores_datatype() {
    let a = ComponentColumnDescriptor::new(path(&["a"]), color(), ArrowDatatype::UInt32);
    let b = ComponentColumnDescriptor::new(path(&["a"]), color(), ArrowDatatype::UInt8);
    assert_eq!(a.compare(&b), Order::Equal);
    let c = ComponentColumnDescriptor::new(path(&["a", "b"]), color(), ArrowDatatype::UInt8);
    assert_eq!(a.compare(&c), Order::Less);
    assert_eq!(c.compare(&a), Order::Greater);
    let control = ColumnDescriptor::Control(ControlColumnDescriptor { component_name: color(), datatype: ArrowDatatype::Null });
    let time = ColumnDescriptor::Time(TimeColumnDescriptor { timeline: frame(), datatype: ArrowDatatype::Int64 });
    let comp = ColumnDescriptor::Component(a);
    assert_eq!(control.compare(&time), Order::Less);
    assert_eq!(time.compare(&comp), Order::Less);
    assert_eq!(comp.compare(&control), Order::Greater);
}

#[test]
fn timeline_order_name_then_kind() {
    let a = Timeline::new_temporal(TimelineName::new("t"));
    let b = Timeline::new_sequence(TimelineName::new("t"));
    assert_eq!(a.compare(&b), Order::Less);
    assert_eq!(frame().compare(&log_time()), Order::Less);
}

#[test]
fn selector_conversions() {
    let d = ComponentColumnDescriptor::new(path(&["world"]), color(), ArrowDatatype::UInt32)
        .with_join_encoding(JoinEncoding::DictionaryEncode);
    let s = ComponentColumnSelector::from(d);
    assert_eq!(s.entity_path, path(&["world"]));
    assert_eq!(s.component, color());
    assert_eq!(s.join_encoding, JoinEncoding::DictionaryEncode);
    assert_eq!(s.to_display_string(), "/world@Color");
    let t = TimeColumnSelector::from(TimeColumnDescriptor { timeline: frame(), datatype: ArrowDatatype::Int64 });
    assert_eq!(t.timeline, TimelineName::new("frame"));
    let c = ControlColumnSelector::from(ControlColumnDescriptor { component_name: color(), datatype: ArrowDatatype::Null });
    assert_eq!(c.component, color());
    assert!(matches!(ColumnSelector::from(c), ColumnSelector::Control(_)));
    assert!(matches!(ColumnSelector::from(t), ColumnSelector::Time(_)));
}

#[test]
fn entity_path_text_and_order() {
    assert_eq!(EntityPath::root().to_display_string(), "/");
    assert_eq!(path(&["a", "b"]).to_display_string(), "/a/b");
    assert!(path(&["a", "b"]).starts_with(&path(&["a"])));
    assert!(!path(&["a"]).starts_with(&path(&["a", "b"])));
    assert_eq!(path(&["a"]).compare(&path(&["b"])), Order::Less);
    assert_eq!(path(&["a"]).join("c"), path(&["a", "c"]));
}

#[test]
fn query_descriptions() {
    let mut filter = EntityPathFilter::new();
    filter.insert_rule(EntityPathRule::including_subtree(path(&["world"])), RuleEffect::Include);
    filter.insert_rule(EntityPathRule::exact(path(&["world", "a"])), RuleEffect::Exclude);
    let q = LatestAtQueryExpression { entity_path_filter: filter.clone(), timeline: frame(), at: TimeInt::new(18) };
    assert_eq!(q.describe("#18"), "latest state for '+ /world/**, - /world/a' at #18 on \"frame\"");
    let r = RangeQueryExpression {
        entity_path_filter: filter,
        timeline: frame(),
        time_range: ResolvedTimeRange::new(TimeInt::new(1), TimeInt::new(9)),
        pov: ComponentColumnSelector::new(path(&["world"]), position()),
    };
    assert_eq!(
        r.describe("#1", "#9"),
        "+ /world/**, - /world/a ranging #1..=#9 on \"frame\" as seen from /world@Position3D"
    );
    let qr = QueryExpression::from(r);
    assert_eq!(qr.entity_path_filter().expressions().len(), 2);
    assert_eq!(
        qr.describe("#1", "#9"),
        "+ /world/**, - /world/a ranging #1..=#9 on \"frame\" as seen from /world@Position3D"
    );
    assert_eq!(
        QueryExpression::from(q).describe("#18", "unused"),
        "latest state for '+ /world/**, - /world/a' at #18 on \"frame\""
    );
}

#[test]
fn leaf_transform_mat3x3_name_and_datatype() {
    assert_eq!(leaf_transform_mat3x3_component_name().as_str(), "rerun.components.LeafTransformMat3x3");
    assert_eq!(
        leaf_transform_mat3x3_arrow_datatype(),
        ArrowDatatype::FixedSizeList(Box::new(ArrowField::new("item".to_string(), ArrowDatatype::Float32, false)), 9)
    );
}


#[test]
fn query_schema_is_schema_filtered() {
    let store = sample_store();
    let mut filter = filter_all();
    filter.insert_rule(EntityPathRule::including_subtree(path(&["world", "points"])), RuleEffect::Exclude);
    let timeline = frame();
    let at = TimeInt::new(7);
    let expected: Vec<ColumnDescriptor> = store
        .schema()
        .into_iter()
        .filter(|c| match c {
            ColumnDescriptor::Component(d) => {
                filter.matches(&d.entity_path)
                    && store.has_latest_at_data(&timeline, at, &d.entity_path, &d.component_name)
            }
            _ => true,
        })
        .collect();
    let query = QueryExpression::from(LatestAtQueryExpression { entity_path_filter: filter.clone(), timeline: frame(), at });
    let got = store.schema_for_query(&query);
    assert_eq!(got, expected);
    assert_eq!(got.iter().filter_map(component_key).count(), 0);
}

#[test]
fn schema_is_deterministic_and_deduplicated() {
    let mut store = sample_store();
    store.insert_temporal_component(path(&["world", "points"]), log_time(), position(), ArrowDatatype::Float32, TimeInt::new(200));
    store.insert_static_component(path(&["world", "points"]), color(), ArrowDatatype::UInt32);
    let a = store.schema();
    let b = store.schema();
    assert_eq!(a, b);
    assert_eq!(a.len(), 1 + 2 + 3);
}

#[test]
fn store_queries() {
    let store = sample_store();
    let timelines: Vec<String> = store.all_timelines().iter().map(|t| t.name().as_str().to_string()).collect();
    assert_eq!(timelines, vec!["frame".to_string(), "log_time".to_string()]);
    assert!(store.has_static_component(&path(&["world", "points"]), &color()));
    assert!(!store.has_static_component(&path(&["world", "points"]), &position()));
    assert!(store.has_latest_at_data(&frame(), TimeInt::new(10), &path(&["world", "a"]), &radius()));
    assert!(!store.has_latest_at_data(&frame(), TimeInt::new(9), &path(&["world", "a"]), &radius()));
    assert!(!store.has_latest_at_data(&log_time(), TimeInt::new(99), &path(&["world", "points"]), &position()));
    assert!(store.has_latest_at_data(&log_time(), TimeInt::new(100), &path(&["world", "points"]), &position()));
    assert!(store.has_latest_at_data(&log_time(), TimeInt::new(i64::MIN), &path(&["world", "points"]), &color()));
}

#[test]
fn compare_is_antisymmetric() {
    let names = ["a", "ab", "b", "", "ba"];
    for x in names {
        for y in names {
            let xy = compare_str(x, y);
            let yx = compare_str(y, x);
            let flipped = match xy {
                Order::Less => Order::Greater,
                Order::Equal => Order::Equal,
                Order::Greater => Order::Less,
            };
            assert_eq!(yx, flipped);
            assert_eq!(xy == Order::Equal, x == y);
            assert_eq!(xy == Order::Less, x < y);
        }
    }
}

#[test]
fn text_helpers() {
    assert!(starts_with("rerun.components.Color", "rerun."));
    assert!(!starts_with("rerun", "rerun."));
    assert_eq!(strip_prefix("rerun.Color", "rerun."), Some("Color".to_string()));
    assert_eq!(strip_prefix("Color", "rerun."), None);
    assert_eq!(join_strings(&vec![], ", "), "");
    assert_eq!(join_strings(&vec!["a".to_string()], ", "), "a");
    assert_eq!(join_strings(&vec!["a".to_string(), "b".to_string(), "c".to_string()], ", "), "a, b, c");
}

#[test]
fn time_values() {
    let r = ResolvedTimeRange::new(TimeInt::new(-3), TimeInt::new(4));
    assert_eq!(r.min().as_i64(), -3);
    assert_eq!(r.max().as_i64(), 4);
    assert_eq!(TimeType::Time.datatype(), ArrowDatatype::Timestamp(TimeUnit::Nanosecond, None));
    assert_eq!(TimeType::Sequence.datatype(), ArrowDatatype::Int64);
    assert_eq!(Timeline::new(TimelineName::new("x"), TimeType::Sequence), Timeline::new_sequence(TimelineName::new("x")));
}

#[test]
fn new_component_descriptor_defaults() {
    let d = ComponentColumnDescriptor::new(path(&["p"]), position(), ArrowDatatype::Float32);
    assert_eq!(d.store_datatype, list_of(ArrowDatatype::Float32));
    assert_eq!(d.join_encoding, JoinEncoding::OverlappingSlice);
    assert!(!d.is_static);
    assert!(d.archetype_name.is_none() && d.archetype_field_name.is_none());
    let s = ComponentColumnSelector::new(path(&["p"]), position());
    assert_eq!(s.join_encoding, JoinEncoding::OverlappingSlice);
    assert_eq!(ColumnSelector::from(ColumnDescriptor::Component(d)), ColumnSelector::Component(s));
}
