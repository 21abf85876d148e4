//! Entity paths, and the filters that select them.
use vstd::prelude::*;

use crate::sorted::{lemma_insert_contains, lemma_insert_sorted, order_laws, sorted_by};
use crate::text::{
    bool_order, chars_order, concat, flip, lemma_chars_order_equal, lemma_chars_order_flip,
    lemma_chars_order_trans, owned, compare_str, then_order, Order,
};

verus! {

/// Lexicographic order on paths, part by part.
pub open spec fn parts_order(a: Seq<Seq<char>>, b: Seq<Seq<char>>) -> Order
    decreases a.len(),
{
    if a.len() == 0 {
        if b.len() == 0 { Order::Equal } else { Order::Less }
    } else if b.len() == 0 {
        Order::Greater
    } else if chars_order(a[0], b[0]) != Order::Equal {
        chars_order(a[0], b[0])
    } else {
        parts_order(a.drop_first(), b.drop_first())
    }
}

/// The laws of [`parts_order`] for three given paths.
pub proof fn lemma_parts_order(a: Seq<Seq<char>>, b: Seq<Seq<char>>, c: Seq<Seq<char>>)
    ensures
        parts_order(b, a) == flip(parts_order(a, b)),
        (parts_order(a, b) == Order::Equal) <==> (a == b),
        parts_order(a, b) == Order::Less && parts_order(b, c) == Order::Less
            ==> parts_order(a, c) == Order::Less,
    decreases a.len(),
{
    if a.len() > 0 && b.len() > 0 {
        lemma_chars_order_flip(a[0], b[0]);
        lemma_chars_order_equal(a[0], b[0]);
        if c.len() > 0 {
            lemma_chars_order_equal(b[0], c[0]);
            lemma_chars_order_equal(a[0], c[0]);
            if chars_order(a[0], b[0]) == Order::Less && chars_order(b[0], c[0]) == Order::Less {
                lemma_chars_order_trans(a[0], b[0], c[0]);
            }
            lemma_parts_order(a.drop_first(), b.drop_first(), c.drop_first());
        } else {
            lemma_parts_order(a.drop_first(), b.drop_first(), b.drop_first());
        }
        if a.drop_first() == b.drop_first() && a[0] == b[0] {
            assert(a =~= seq![a[0]] + a.drop_first());
            assert(b =~= seq![b[0]] + b.drop_first());
        }
        if a == b {
            assert(a.drop_first() =~= b.drop_first());
        }
    } else if a.len() == 0 && b.len() == 0 {
        assert(a =~= b);
    }
}

/// The text of a path: `/` for the root, otherwise each part preceded by `/`.
pub open spec fn path_text(parts: Seq<Seq<char>>) -> Seq<char> {
    if parts.len() == 0 {
        "/"@
    } else {
        parts_text(parts)
    }
}

/// Each part preceded by `/`.
pub open spec fn parts_text(parts: Seq<Seq<char>>) -> Seq<char>
    decreases parts.len(),
{
    if parts.len() == 0 {
        Seq::empty()
    } else {
        parts_text(parts.drop_last()) + "/"@ + parts.last()
    }
}

/// The path of an entity: a sequence of parts, the empty one being the root.
#[derive(Debug, PartialEq, Eq, Hash)]
pub struct EntityPath {
    pub parts: Vec<String>,
}

impl View for EntityPath {
    type V = Seq<Seq<char>>;

    open spec fn view(&self) -> Seq<Seq<char>> {
        Seq::new(self.parts@.len(), |i: int| self.parts@[i]@)
    }
}

impl Clone for EntityPath {
    fn clone(&self) -> (r: Self)
        ensures
            r@ == self@,
    {
        let mut parts: Vec<String> = Vec::new();
        let mut i: usize = 0;
        while i < self.parts.len()
            invariant
                i <= self.parts.len(),
                parts@.len() == i,
                forall|j: int| 0 <= j < i ==> parts@[j]@ == self.parts@[j]@,
            decreases self.parts.len() - i,
        {
            parts.push(self.parts[i].clone());
            i = i + 1;
        }
        let r = EntityPath { parts };
        assert(r@ =~= self@);
        r
    }
}

impl EntityPath {
    /// The path made of the given parts.
    pub fn new(parts: Vec<String>) -> (r: Self)
        ensures
            r@ == Seq::new(parts@.len(), |i: int| parts@[i]@),
    {
        EntityPath { parts }
    }

    /// The root path, with no parts.
    pub fn root() -> (r: Self)
        ensures
            r@ == Seq::<Seq<char>>::empty(),
    {
        let r = EntityPath { parts: Vec::new() };
        assert(r@ =~= Seq::<Seq<char>>::empty());
        r
    }

    /// The path with one more part at its end.
    pub fn join(&self, part: &str) -> (r: Self)
        ensures
            r@ == self@.push(part@),
    {
        let mut r = self.clone();
        r.parts.push(owned(part));
        assert(r@ =~= self@.push(part@));
        r
    }

    pub fn is_root(&self) -> (r: bool)
        ensures
            r == (self@.len() == 0),
    {
        self.parts.len() == 0
    }

    /// The path as text, e.g. `/world/points`.
    pub fn to_display_string(&self) -> (r: String)
        ensures
            r@ == path_text(self@),
    {
        if self.parts.len() == 0 {
            return owned("/");
        }
        let mut out = owned("");
        proof {
            reveal_strlit("");
            assert(self@.subrange(0, 0) =~= Seq::<Seq<char>>::empty());
        }
        let mut i: usize = 0;
        while i < self.parts.len()
            invariant
                i <= self.parts.len(),
                out@ == parts_text(self@.subrange(0, i as int)),
            decreases self.parts.len() - i,
        {
            assert(self@.subrange(0, i + 1).drop_last() =~= self@.subrange(0, i as int));
            out = concat(out, "/");
            out = concat(out, self.parts[i].as_str());
            i = i + 1;
        }
        assert(self@.subrange(0, self@.len() as int) =~= self@);
        out
    }

    /// Whether `prefix` is this path or one of its ancestors.
    pub fn starts_with(&self, prefix: &EntityPath) -> (r: bool)
        ensures
            r == prefix@.is_prefix_of(self@),
    {
        let n = prefix.parts.len();
        if n > self.parts.len() {
            return false;
        }
        let mut i: usize = 0;
        while i < n
            invariant
                n == prefix@.len(),
                n <= self@.len(),
                i <= n,
                forall|j: int| 0 <= j < i ==> self@[j] == prefix@[j],
            decreases n - i,
        {
            if self.parts[i] != prefix.parts[i] {
                assert(self@[i as int] != prefix@[i as int]);
                return false;
            }
            i = i + 1;
        }
        assert(prefix@ =~= self@.subrange(0, prefix@.len() as int));
        true
    }

    /// Whether both paths have the same parts.
    pub fn same_as(&self, other: &EntityPath) -> (r: bool)
        ensures
            r == (self@ == other@),
    {
        if self.parts.len() != other.parts.len() {
            return false;
        }
        let r = self.starts_with(other);
        if r {
            assert(self@ =~= other@);
        }
        r
    }

    /// Orders paths lexicographically, part by part.
    pub fn compare(&self, other: &EntityPath) -> (r: Order)
        ensures
            r == parts_order(self@, other@),
    {
        let la = self.parts.len();
        let lb = other.parts.len();
        let mut i: usize = 0;
        assert(self@.skip(0) =~= self@);
        assert(other@.skip(0) =~= other@);
        while i < la && i < lb
            invariant
                la == self@.len(),
                lb == other@.len(),
                i <= la,
                i <= lb,
                parts_order(self@, other@) == parts_order(self@.skip(i as int), other@.skip(i as int)),
            decreases la - i,
        {
            let c = compare_str(self.parts[i].as_str(), other.parts[i].as_str());
            assert(self@.skip(i as int)[0] == self@[i as int]);
            assert(other@.skip(i as int)[0] == other@[i as int]);
            if c != Order::Equal {
                return c;
            }
            assert(self@.skip(i as int).drop_first() =~= self@.skip(i + 1));
            assert(other@.skip(i as int).drop_first() =~= other@.skip(i + 1));
            i = i + 1;
        }
        if i < lb {
            Order::Less
        } else if i < la {
            Order::Greater
        } else {
            Order::Equal
        }
    }
}

/// Whether a rule covers a path's subtree or only the path itself.
#[derive(Debug, PartialEq, Eq, Hash)]
pub struct EntityPathRule {
    pub path: EntityPath,
    pub include_subtree: bool,
}

/// What a matching rule does to a path.
#[derive(Debug, Clone, Copy, PartialEq, Eq, Hash, Structural)]
pub enum RuleEffect {
    Include,
    Exclude,
}

/// What an [`EntityPathRule`] denotes.
pub struct RuleModel {
    pub path: Seq<Seq<char>>,
    pub include_subtree: bool,
}

impl View for EntityPathRule {
    type V = RuleModel;

    open spec fn view(&self) -> RuleModel {
        RuleModel { path: self.path@, include_subtree: self.include_subtree }
    }
}

/// Rules are ordered from least to most specific: by path, and for one path the
/// subtree rule before the exact one.
pub open spec fn rule_order(a: RuleModel, b: RuleModel) -> Order {
    then_order(parts_order(a.path, b.path), bool_order(b.include_subtree, a.include_subtree))
}

/// The laws of [`rule_order`] for three given rules.
pub proof fn lemma_rule_order(a: RuleModel, b: RuleModel, c: RuleModel)
    ensures
        rule_order(b, a) == flip(rule_order(a, b)),
        (rule_order(a, b) == Order::Equal) <==> (a == b),
        rule_order(a, b) == Order::Less && rule_order(b, c) == Order::Less
            ==> rule_order(a, c) == Order::Less,
{
    lemma_parts_order(a.path, b.path, c.path);
    lemma_parts_order(b.path, c.path, a.path);
    lemma_parts_order(a.path, c.path, b.path);
}

/// Whether a rule covers a path.
pub open spec fn rule_matches(rule: RuleModel, path: Seq<Seq<char>>) -> bool {
    if rule.include_subtree {
        rule.path.is_prefix_of(path)
    } else {
        rule.path == path
    }
}

/// The verdict of a rule sequence on a path: the effect of its last rule that
/// covers the path; excluded when none does.
pub open spec fn filter_verdict(rules: Seq<(RuleModel, RuleEffect)>, path: Seq<Seq<char>>) -> bool
    decreases rules.len(),
{
    if rules.len() == 0 {
        false
    } else if rule_matches(rules.last().0, path) {
        rules.last().1 == RuleEffect::Include
    } else {
        filter_verdict(rules.drop_last(), path)
    }
}

/// [`rule_order`] on (rule, effect) pairs, by their rules, as a function value.
pub open spec fn rule_pair_ord() -> spec_fn((RuleModel, RuleEffect), (RuleModel, RuleEffect)) -> Order {
    |a: (RuleModel, RuleEffect), b: (RuleModel, RuleEffect)| rule_order(a.0, b.0)
}

/// Whether rules are in strictly increasing order.
pub open spec fn rules_sorted(rules: Seq<(RuleModel, RuleEffect)>) -> bool {
    sorted_by(rules, rule_pair_ord())
}

/// Rules are ordered by an order that obeys the order laws.
pub proof fn lemma_rule_order_laws()
    ensures
        order_laws(rule_pair_ord()),
{
    assert forall|a: (RuleModel, RuleEffect), b: (RuleModel, RuleEffect)| #[trigger] rule_pair_ord()(
        a,
        b,
    ) == flip(rule_pair_ord()(b, a)) by {
        lemma_rule_order(b.0, a.0, a.0);
    }
    assert forall|a: (RuleModel, RuleEffect), b: (RuleModel, RuleEffect), c: (RuleModel, RuleEffect)|
        #![trigger rule_pair_ord()(a, b), rule_pair_ord()(b, c)]
        rule_pair_ord()(a, b) == Order::Less && rule_pair_ord()(b, c) == Order::Less
            implies rule_pair_ord()(a, c) == Order::Less by {
        lemma_rule_order(a.0, b.0, c.0);
    }
}

impl Clone for EntityPathRule {
    fn clone(&self) -> (r: Self)
        ensures
            r@ == self@,
    {
        EntityPathRule { path: self.path.clone(), include_subtree: self.include_subtree }
    }
}

impl EntityPathRule {
    /// The rule covering exactly `path`.
    pub fn exact(path: EntityPath) -> (r: Self)
        ensures
            r@ == (RuleModel { path: path@, include_subtree: false }),
    {
        EntityPathRule { path, include_subtree: false }
    }

    /// The rule covering `path` and everything below it.
    pub fn including_subtree(path: EntityPath) -> (r: Self)
        ensures
            r@ == (RuleModel { path: path@, include_subtree: true }),
    {
        EntityPathRule { path, include_subtree: true }
    }

    /// Whether this rule covers `path`.
    pub fn matches(&self, path: &EntityPath) -> (r: bool)
        ensures
            r == rule_matches(self@, path@),
    {
        if self.include_subtree {
            path.starts_with(&self.path)
        } else {
            path.same_as(&self.path)
        }
    }

    /// Orders rules from least to most specific.
    pub fn compare(&self, other: &Self) -> (r: Order)
        ensures
            r == rule_order(self@, other@),
    {
        let by_path = self.path.compare(&other.path);
        match by_path {
            Order::Equal => {
                if self.include_subtree == other.include_subtree {
                    Order::Equal
                } else if other.include_subtree {
                    Order::Greater
                } else {
                    Order::Less
                }
            },
            _ => by_path,
        }
    }
}

/// A set of rules that selects entity paths: a path is selected when the most
/// specific rule covering it includes it.
#[derive(Debug, PartialEq, Eq, Hash)]
pub struct EntityPathFilter {
    rules: Vec<(EntityPathRule, RuleEffect)>,
}

impl EntityPathFilter {
    /// Its rules in increasing order, with their effects.
    pub closed spec fn rules_model(&self) -> Seq<(RuleModel, RuleEffect)> {
        rules_of(self.rules@)
    }

    #[verifier::type_invariant]
    closed spec fn sorted(&self) -> bool {
        rules_sorted(self.rules_model())
    }
}

impl View for EntityPathFilter {
    type V = Seq<(RuleModel, RuleEffect)>;

    open spec fn view(&self) -> Seq<(RuleModel, RuleEffect)> {
        self.rules_model()
    }
}

/// The rules of a filter's storage, as models.
pub open spec fn rules_of(v: Seq<(EntityPathRule, RuleEffect)>) -> Seq<(RuleModel, RuleEffect)> {
    Seq::new(v.len(), |i: int| (v[i].0@, v[i].1))
}

/// The effect a rule sequence gives to `rule`, if it holds it.
pub open spec fn effect_of(rules: Seq<(RuleModel, RuleEffect)>, rule: RuleModel) -> Option<RuleEffect>
    decreases rules.len(),
{
    if rules.len() == 0 {
        None
    } else if rules.last().0 == rule {
        Some(rules.last().1)
    } else {
        effect_of(rules.drop_last(), rule)
    }
}

impl Clone for EntityPathFilter {
    fn clone(&self) -> (r: Self)
        ensures
            r@ == self@,
    {
        proof {
            use_type_invariant(self);
        }
        let mut rules: Vec<(EntityPathRule, RuleEffect)> = Vec::new();
        let mut i: usize = 0;
        while i < self.rules.len()
            invariant
                i <= self.rules.len(),
                rules@.len() == i,
                forall|j: int| 0 <= j < i ==> rules@[j].0@ == self.rules@[j].0@ && rules@[j].1 == self.rules@[j].1,
            decreases self.rules.len() - i,
        {
            let (rule, effect) = &self.rules[i];
            rules.push((rule.clone(), *effect));
            i = i + 1;
        }
        assert(rules_of(rules@) =~= self.rules_model());
        EntityPathFilter { rules }
    }
}

impl EntityPathFilter {
    /// The filter with no rules, which selects nothing.
    pub fn new() -> (r: Self)
        ensures
            r@ == Seq::<(RuleModel, RuleEffect)>::empty(),
    {
        let rules: Vec<(EntityPathRule, RuleEffect)> = Vec::new();
        assert(rules_of(rules@) =~= Seq::<(RuleModel, RuleEffect)>::empty());
        EntityPathFilter { rules }
    }

    /// Whether the filter selects `path`: the most specific rule covering it decides,
    /// and a path no rule covers is not selected.
    pub fn matches(&self, path: &EntityPath) -> (r: bool)
        ensures
            r == filter_verdict(self@, path@),
    {
        let mut i: usize = self.rules.len();
        assert(self@.subrange(0, i as int) =~= self@);
        while i > 0
            invariant
                i <= self.rules.len(),
                filter_verdict(self@, path@) == filter_verdict(self@.subrange(0, i as int), path@),
            decreases i,
        {
            let (rule, effect) = &self.rules[i - 1];
            let ghost sub = self@.subrange(0, i as int);
            assert(sub.last() == self@[i - 1]);
            if rule.matches(path) {
                return *effect == RuleEffect::Include;
            }
            assert(sub.drop_last() =~= self@.subrange(0, i - 1));
            i = i - 1;
        }
        assert(self@.subrange(0, 0) =~= Seq::<(RuleModel, RuleEffect)>::empty());
        false
    }
}

impl EntityPathFilter {
    /// Adds a rule with its effect, replacing the effect of an equal rule already there.
    pub fn insert_rule(&mut self, rule: EntityPathRule, effect: RuleEffect)
        ensures
            rules_sorted(final(self)@),
            forall|x: (RuleModel, RuleEffect)|
                final(self)@.contains(x) <==> (x == (rule@, effect) || (old(self)@.contains(x)
                    && x.0 != rule@)),
    {
        proof {
            use_type_invariant(&*self);
            lemma_rule_order_laws();
        }
        let ghost old_model = self@;
        let mut rules: Vec<(EntityPathRule, RuleEffect)> = Vec::new();
        proof {
            assert(rules_of(rules@) =~= Seq::<(RuleModel, RuleEffect)>::empty());
        }
        std::mem::swap(&mut rules, &mut self.rules);
        assert(rules_of(rules@) == old_model);
        let mut p: usize = 0;
        while p < rules.len() && rules[p].0.compare(&rule) == Order::Less
            invariant
                p <= rules.len(),
                rules_of(rules@) == old_model,
                forall|i: int| 0 <= i < p ==> rule_order(#[trigger] rules@[i].0@, rule@) == Order::Less,
            decreases rules.len() - p,
        {
            p = p + 1;
        }
        let pair = (rule, effect);
        let ghost pm = (pair.0@, pair.1);
        if p < rules.len() && rules[p].0.compare(&pair.0) == Order::Equal {
            proof {
                lemma_rule_order(rules@[p as int].0@, pm.0, pm.0);
            }
            rules.set(p, pair);
            proof {
                let n = rules_of(rules@);
                assert(n =~= old_model.update(p as int, pm));
                assert(rules_sorted(n)) by {
                    assert forall|i: int, j: int| 0 <= i < j < n.len() implies #[trigger] rule_pair_ord()(
                        n[i],
                        n[j],
                    ) == Order::Less by {
                        assert(rule_pair_ord()(old_model[i], old_model[j]) == Order::Less);
                    }
                }
                assert forall|x: (RuleModel, RuleEffect)|
                    n.contains(x) <==> (x == pm || (old_model.contains(x) && x.0 != pm.0)) by {
                    if n.contains(x) {
                        let k = choose|k: int| 0 <= k < n.len() && n[k] == x;
                        if k != p {
                            assert(old_model[k] == x);
                            if x.0 == pm.0 {
                                lemma_rule_order(x.0, pm.0, pm.0);
                                if k < p {
                                    assert(rule_pair_ord()(old_model[k], old_model[p as int])
                                        == Order::Less);
                                } else {
                                    assert(rule_pair_ord()(old_model[p as int], old_model[k])
                                        == Order::Less);
                                }
                            }
                        }
                    }
                    if x == pm {
                        assert(n[p as int] == x);
                    }
                    if old_model.contains(x) && x.0 != pm.0 {
                        let k = choose|k: int| 0 <= k < old_model.len() && old_model[k] == x;
                        assert(k != p);
                        assert(n[k] == x);
                    }
                }
            }
        } else {
            proof {
                if p < rules.len() {
                    lemma_rule_order(rules@[p as int].0@, pm.0, pm.0);
                }
                lemma_insert_sorted(old_model, rule_pair_ord(), p as int, pm);
                lemma_insert_contains(old_model, p as int, pm);
            }
            rules.insert(p, pair);
            proof {
                let n = rules_of(rules@);
                assert(n =~= old_model.insert(p as int, pm));
                assert forall|x: (RuleModel, RuleEffect)|
                    n.contains(x) <==> (x == pm || (old_model.contains(x) && x.0 != pm.0)) by {
                    if old_model.contains(x) && x.0 == pm.0 {
                        let k = choose|k: int| 0 <= k < old_model.len() && old_model[k] == x;
                        lemma_rule_order(x.0, pm.0, pm.0);
                        if k < p {
                            assert(rule_order(old_model[k].0, pm.0) == Order::Less);
                        } else if k == p {
                            assert(rule_order(old_model[k].0, pm.0) == Order::Equal);
                        } else {
                            assert(rule_pair_ord()(old_model[p as int], old_model[k]) == Order::Less);
                            lemma_rule_order(old_model[p as int].0, pm.0, pm.0);
                            assert(rule_order(old_model[p as int].0, pm.0) != Order::Less);
                        }
                        assert(false);
                    }
                }
            }
        }
        self.rules = rules;
    }
}

/// The text of a rule: its path, followed by `/**` when it covers the subtree (`/**`
/// alone for the root).
pub open spec fn rule_text(rule: RuleModel) -> Seq<char> {
    if rule.include_subtree {
        if rule.path.len() == 0 {
            "/**"@
        } else {
            path_text(rule.path) + "/**"@
        }
    } else {
        path_text(rule.path)
    }
}

/// The expression of a rule with its effect: `+ ` or `- ` before the rule's text.
pub open spec fn expression_text(entry: (RuleModel, RuleEffect)) -> Seq<char> {
    (if entry.1 == RuleEffect::Include {
        "+ "@
    } else {
        "- "@
    }) + rule_text(entry.0)
}

/// Texts joined with a separator between each two.
pub open spec fn join_texts(texts: Seq<Seq<char>>, separator: Seq<char>) -> Seq<char>
    decreases texts.len(),
{
    if texts.len() == 0 {
        Seq::empty()
    } else if texts.len() == 1 {
        texts[0]
    } else {
        join_texts(texts.drop_last(), separator) + separator + texts.last()
    }
}

/// Joins texts with a separator between each two.
pub fn join_strings(texts: &Vec<String>, separator: &str) -> (r: String)
    ensures
        r@ == join_texts(Seq::new(texts@.len(), |i: int| texts@[i]@), separator@),
{
    let ghost all = Seq::new(texts@.len(), |i: int| texts@[i]@);
    let mut r = owned("");
    proof {
        reveal_strlit("");
        assert(all.subrange(0, 0) =~= Seq::<Seq<char>>::empty());
    }
    let mut i: usize = 0;
    while i < texts.len()
        invariant
            i <= texts.len(),
            all == Seq::new(texts@.len(), |i: int| texts@[i]@),
            r@ == join_texts(all.subrange(0, i as int), separator@),
        decreases texts.len() - i,
    {
        assert(all.subrange(0, i + 1).drop_last() =~= all.subrange(0, i as int));
        if i > 0 {
            r = concat(r, separator);
        } else {
            assert(r@ =~= Seq::<char>::empty());
        }
        r = concat(r, texts[i].as_str());
        proof {
            if i == 0 {
                assert(all.subrange(0, 1)[0] == texts@[0]@);
                assert(r@ =~= texts@[0]@);
            }
        }
        i = i + 1;
    }
    assert(all.subrange(0, texts@.len() as int) =~= all);
    r
}

impl EntityPathRule {
    /// The text of this rule, e.g. `/world/**`.
    pub fn to_display_string(&self) -> (r: String)
        ensures
            r@ == rule_text(self@),
    {
        if self.include_subtree {
            if self.path.is_root() {
                owned("/**")
            } else {
                concat(self.path.to_display_string(), "/**")
            }
        } else {
            self.path.to_display_string()
        }
    }
}

impl EntityPathFilter {
    /// The expression of each rule, in rule order, e.g. `+ /world/**`.
    pub fn expressions(&self) -> (r: Vec<String>)
        ensures
            r@.len() == self@.len(),
            forall|i: int| 0 <= i < r@.len() ==> #[trigger] r@[i]@ == expression_text(self@[i]),
    {
        let mut r: Vec<String> = Vec::new();
        let mut i: usize = 0;
        while i < self.rules.len()
            invariant
                i <= self.rules.len(),
                r@.len() == i,
                forall|k: int| 0 <= k < i ==> #[trigger] r@[k]@ == expression_text(self@[k]),
            decreases self.rules.len() - i,
        {
            let (rule, effect) = &self.rules[i];
            let prefix = match effect {
                RuleEffect::Include => owned("+ "),
                RuleEffect::Exclude => owned("- "),
            };
            r.push(concat(prefix, rule.to_display_string().as_str()));
            i = i + 1;
        }
        r
    }
}

} // verus!
