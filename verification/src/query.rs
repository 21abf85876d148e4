//! Query expressions: what a dataframe query asks the store for.
use vstd::prelude::*;

use crate::path::{expression_text, join_strings, join_texts, EntityPathFilter, RuleEffect, RuleModel};
use crate::selectors::{component_selector_text, ComponentColumnSelector};
use crate::text::{concat, owned};
use crate::time::{ResolvedTimeRange, TimeInt, Timeline};

verus! {

/// The latest state of the selected entities at a point on a timeline.
#[derive(Debug, PartialEq, Eq, Hash)]
pub struct LatestAtQueryExpression {
    /// The entity path expression to query, e.g. `world/camera/**`.
    pub entity_path_filter: EntityPathFilter,
    /// The timeline to query, e.g. `frame`.
    pub timeline: Timeline,
    /// The time at which to query.
    pub at: TimeInt,
}

/// The selected entities over a range of a timeline, as seen from a point-of-view
/// component: each non-null value of that component yields a row.
#[derive(Debug, PartialEq, Eq, Hash)]
pub struct RangeQueryExpression {
    /// The entity path expression to query.
    pub entity_path_filter: EntityPathFilter,
    /// The timeline to query.
    pub timeline: Timeline,
    /// The time range to query.
    pub time_range: ResolvedTimeRange,
    /// The point-of-view component of the query.
    pub pov: ComponentColumnSelector,
}

/// A dataframe query.
#[derive(Debug, PartialEq, Eq, Hash)]
pub enum QueryExpression {
    LatestAt(LatestAtQueryExpression),
    Range(RangeQueryExpression),
}

impl From<LatestAtQueryExpression> for QueryExpression {
    fn from(query: LatestAtQueryExpression) -> (r: Self) {
        QueryExpression::LatestAt(query)
    }
}

impl vstd::std_specs::convert::FromSpecImpl<LatestAtQueryExpression> for QueryExpression {
    open spec fn obeys_from_spec() -> bool {
        true
    }

    open spec fn from_spec(query: LatestAtQueryExpression) -> Self {
        QueryExpression::LatestAt(query)
    }
}

impl From<RangeQueryExpression> for QueryExpression {
    fn from(query: RangeQueryExpression) -> (r: Self) {
        QueryExpression::Range(query)
    }
}

impl vstd::std_specs::convert::FromSpecImpl<RangeQueryExpression> for QueryExpression {
    open spec fn obeys_from_spec() -> bool {
        true
    }

    open spec fn from_spec(query: RangeQueryExpression) -> Self {
        QueryExpression::Range(query)
    }
}

/// The entity path filter of a query.
pub open spec fn query_filter(query: QueryExpression) -> EntityPathFilter {
    match query {
        QueryExpression::LatestAt(q) => q.entity_path_filter,
        QueryExpression::Range(q) => q.entity_path_filter,
    }
}

impl QueryExpression {
    /// The entity path filter of this query.
    pub fn entity_path_filter(&self) -> (r: &EntityPathFilter)
        ensures
            *r == query_filter(*self),
    {
        match self {
            QueryExpression::LatestAt(query) => &query.entity_path_filter,
            QueryExpression::Range(query) => &query.entity_path_filter,
        }
    }
}

/// The expressions of a filter's rules joined with `, `.
pub open spec fn filter_text(rules: Seq<(RuleModel, RuleEffect)>) -> Seq<char> {
    join_texts(Seq::new(rules.len(), |i: int| expression_text(rules[i])), ", "@)
}

/// A name between double quotes, as names of timelines are debug-printed.
pub open spec fn quoted(name: Seq<char>) -> Seq<char> {
    "\""@ + name + "\""@
}

/// The description of a latest-at query whose time reads `at_text`.
pub open spec fn latest_at_text(q: LatestAtQueryExpression, at_text: Seq<char>) -> Seq<char> {
    "latest state for '"@ + filter_text(q.entity_path_filter@) + "' at "@ + at_text + " on "@
        + quoted(q.timeline@.name)
}

/// The description of a range query whose range bounds read `min_text` and `max_text`.
pub open spec fn range_text(q: RangeQueryExpression, min_text: Seq<char>, max_text: Seq<char>) -> Seq<
    char,
> {
    filter_text(q.entity_path_filter@) + " ranging "@ + min_text + "..="@ + max_text + " on "@
        + quoted(q.timeline@.name) + " as seen from "@ + component_selector_text(q.pov@)
}

fn describe_filter(filter: &EntityPathFilter) -> (r: String)
    ensures
        r@ == filter_text(filter@),
{
    let expressions = filter.expressions();
    let r = join_strings(&expressions, ", ");
    assert(Seq::new(expressions@.len(), |i: int| expressions@[i]@) =~= Seq::new(
        filter@.len(),
        |i: int| expression_text(filter@[i]),
    ));
    r
}

fn quote(name: &str) -> (r: String)
    ensures
        r@ == quoted(name@),
{
    concat(concat(owned("\""), name), "\"")
}

impl LatestAtQueryExpression {
    /// Describes this query, e.g. `latest state for '+ /world/**' at #18 on "frame"`;
    /// `at_text` is how the query time reads on the query's timeline.
    pub fn describe(&self, at_text: &str) -> (r: String)
        ensures
            r@ == latest_at_text(*self, at_text@),
    {
        let s = owned("latest state for '");
        let s = concat(s, describe_filter(&self.entity_path_filter).as_str());
        let s = concat(s, "' at ");
        let s = concat(s, at_text);
        let s = concat(s, " on ");
        concat(s, quote(self.timeline.name().as_str()).as_str())
    }
}

impl RangeQueryExpression {
    /// Describes this query, e.g.
    /// `+ /world/** ranging #1..=#9 on "frame" as seen from /world@Position3D`;
    /// `min_text` and `max_text` are how the range bounds read on the query's timeline.
    pub fn describe(&self, min_text: &str, max_text: &str) -> (r: String)
        ensures
            r@ == range_text(*self, min_text@, max_text@),
    {
        let s = describe_filter(&self.entity_path_filter);
        let s = concat(s, " ranging ");
        let s = concat(s, min_text);
        let s = concat(s, "..=");
        let s = concat(s, max_text);
        let s = concat(s, " on ");
        let s = concat(s, quote(self.timeline.name().as_str()).as_str());
        let s = concat(s, " as seen from ");
        concat(s, self.pov.to_display_string().as_str())
    }
}

impl QueryExpression {
    /// Describes this query as its variant does: `first_text` is the query time of a
    /// latest-at query or the lower bound of a range query, `second_text` the upper bound
    /// of a range query (a latest-at query does not read it).
    pub fn describe(&self, first_text: &str, second_text: &str) -> (r: String)
        ensures
            r@ == match *self {
                QueryExpression::LatestAt(q) => latest_at_text(q, first_text@),
                QueryExpression::Range(q) => range_text(q, first_text@, second_text@),
            },
    {
        match self {
            QueryExpression::LatestAt(query) => query.describe(first_text),
            QueryExpression::Range(query) => query.describe(first_text, second_text),
        }
    }
}

} // verus!
