//! Strictly increasing sequences under a three-way order.
use vstd::prelude::*;

use crate::text::{flip, Order};

verus! {

/// Every element is `Less` than every later one.
pub open spec fn sorted_by<A>(s: Seq<A>, ord: spec_fn(A, A) -> Order) -> bool {
    forall|i: int, j: int| 0 <= i < j < s.len() ==> #[trigger] ord(s[i], s[j]) == Order::Less
}

/// `ord` is antisymmetric and its `Less` is transitive.
pub open spec fn order_laws<A>(ord: spec_fn(A, A) -> Order) -> bool {
    &&& forall|a: A, b: A| #[trigger] ord(a, b) == flip(ord(b, a))
    &&& forall|a: A, b: A, c: A|
        #![trigger ord(a, b), ord(b, c)]
        ord(a, b) == Order::Less && ord(b, c) == Order::Less ==> ord(a, c) == Order::Less
}

/// Inserting an element where everything before it is smaller and the element
/// after it is larger keeps a sequence sorted.
pub proof fn lemma_insert_sorted<A>(s: Seq<A>, ord: spec_fn(A, A) -> Order, p: int, x: A)
    requires
        sorted_by(s, ord),
        order_laws(ord),
        0 <= p <= s.len(),
        forall|i: int| 0 <= i < p ==> #[trigger] ord(s[i], x) == Order::Less,
        p < s.len() ==> ord(x, s[p]) == Order::Less,
    ensures
        sorted_by(s.insert(p, x), ord),
{
    let t = s.insert(p, x);
    assert forall|i: int, j: int| 0 <= i < j < t.len() implies #[trigger] ord(t[i], t[j])
        == Order::Less by {
        if j < p {
            assert(t[i] == s[i] && t[j] == s[j]);
        } else if j == p {
            assert(t[i] == s[i]);
        } else if i < p {
            assert(t[i] == s[i] && t[j] == s[j - 1]);
            assert(ord(s[i], s[j - 1]) == Order::Less);
        } else if i == p {
            assert(t[j] == s[j - 1]);
            if j - 1 > p {
                assert(ord(s[p], s[j - 1]) == Order::Less);
            }
        } else {
            assert(t[i] == s[i - 1] && t[j] == s[j - 1]);
        }
    }
}

/// Appending an element larger than every element keeps a sequence sorted.
pub proof fn lemma_push_sorted<A>(s: Seq<A>, ord: spec_fn(A, A) -> Order, x: A)
    requires
        sorted_by(s, ord),
        forall|i: int| 0 <= i < s.len() ==> #[trigger] ord(s[i], x) == Order::Less,
    ensures
        sorted_by(s.push(x), ord),
{
    let t = s.push(x);
    assert forall|i: int, j: int| 0 <= i < j < t.len() implies #[trigger] ord(t[i], t[j])
        == Order::Less by {
        assert(t[i] == s[i]);
        if j < s.len() {
            assert(t[j] == s[j]);
        }
    }
}

/// Two sorted sequences holding the same elements are the same sequence.
pub proof fn lemma_sorted_unique<A>(s: Seq<A>, t: Seq<A>, ord: spec_fn(A, A) -> Order)
    requires
        sorted_by(s, ord),
        sorted_by(t, ord),
        order_laws(ord),
        forall|x: A| s.contains(x) <==> t.contains(x),
    ensures
        s == t,
    decreases s.len(),
{
    if s.len() == 0 {
        if t.len() > 0 {
            assert(t.contains(t[0]));
        }
        assert(s =~= t);
    } else if t.len() == 0 {
        assert(s.contains(s[0]));
    } else {
        assert(s.contains(s[0]));
        assert(t.contains(t[0]));
        let i = choose|i: int| 0 <= i < t.len() && t[i] == s[0];
        let j = choose|j: int| 0 <= j < s.len() && s[j] == t[0];
        if i > 0 {
            assert(ord(t[0], t[i]) == Order::Less);
            if j > 0 {
                assert(ord(s[0], s[j]) == Order::Less);
                assert(ord(t[0], s[0]) == Order::Less);
                assert(ord(s[0], t[0]) == flip(ord(t[0], s[0])));
            } else {
                assert(ord(t[0], t[0]) == flip(ord(t[0], t[0])));
            }
        }
        if j > 0 {
            assert(ord(s[0], s[j]) == Order::Less);
            assert(ord(s[0], s[0]) == flip(ord(s[0], s[0])));
        }
        assert(s[0] == t[0]);
        let s1 = s.drop_first();
        let t1 = t.drop_first();
        assert forall|x: A| s1.contains(x) <==> t1.contains(x) by {
            if s1.contains(x) {
                let k = choose|k: int| 0 <= k < s1.len() && s1[k] == x;
                assert(s.contains(x) && s[k + 1] == x);
                assert(ord(s[0], s[k + 1]) == Order::Less);
                assert(x != s[0]) by {
                    assert(ord(x, x) == flip(ord(x, x)));
                }
                let m = choose|m: int| 0 <= m < t.len() && t[m] == x;
                assert(m != 0);
                assert(t1[m - 1] == x);
            }
            if t1.contains(x) {
                let k = choose|k: int| 0 <= k < t1.len() && t1[k] == x;
                assert(t.contains(x) && t[k + 1] == x);
                assert(ord(t[0], t[k + 1]) == Order::Less);
                assert(x != t[0]) by {
                    assert(ord(x, x) == flip(ord(x, x)));
                }
                let m = choose|m: int| 0 <= m < s.len() && s[m] == x;
                assert(m != 0);
                assert(s1[m - 1] == x);
            }
        }
        assert(sorted_by(s1, ord)) by {
            assert forall|a: int, b: int| 0 <= a < b < s1.len() implies #[trigger] ord(s1[a], s1[b])
                == Order::Less by {
                assert(s1[a] == s[a + 1] && s1[b] == s[b + 1]);
            }
        }
        assert(sorted_by(t1, ord)) by {
            assert forall|a: int, b: int| 0 <= a < b < t1.len() implies #[trigger] ord(t1[a], t1[b])
                == Order::Less by {
                assert(t1[a] == t[a + 1] && t1[b] == t[b + 1]);
            }
        }
        lemma_sorted_unique(s1, t1, ord);
        assert(s =~= seq![s[0]] + s1);
        assert(t =~= seq![t[0]] + t1);
    }
}

/// The elements of a sequence with one element inserted are its old elements and
/// that one.
pub proof fn lemma_insert_contains<A>(s: Seq<A>, p: int, x: A)
    requires
        0 <= p <= s.len(),
    ensures
        forall|y: A| s.insert(p, x).contains(y) <==> (s.contains(y) || y == x),
{
    let t = s.insert(p, x);
    assert forall|y: A| t.contains(y) <==> (s.contains(y) || y == x) by {
        if s.contains(y) {
            let k = choose|k: int| 0 <= k < s.len() && s[k] == y;
            if k < p {
                assert(t[k] == y);
            } else {
                assert(t[k + 1] == y);
            }
        }
        if y == x {
            assert(t[p] == y);
        }
        if t.contains(y) {
            let k = choose|k: int| 0 <= k < t.len() && t[k] == y;
            if k < p {
                assert(s[k] == y);
            } else if k > p {
                assert(s[k - 1] == y);
            }
        }
    }
}

/// Appending the next element of a sorted source to a sequence whose elements are all
/// smaller than the rest of the source keeps both properties.
pub proof fn lemma_filter_step<A>(res: Seq<A>, src: Seq<A>, k: int, ord: spec_fn(A, A) -> Order)
    requires
        sorted_by(src, ord),
        sorted_by(res, ord),
        order_laws(ord),
        0 <= k < src.len(),
        forall|a: int, j: int|
            0 <= a < res.len() && k <= j < src.len() ==> #[trigger] ord(res[a], src[j])
                == Order::Less,
    ensures
        sorted_by(res.push(src[k]), ord),
        forall|a: int, j: int|
            0 <= a < res.len() + 1 && k + 1 <= j < src.len() ==> #[trigger] ord(
                res.push(src[k])[a],
                src[j],
            ) == Order::Less,
{
    assert forall|a: int| 0 <= a < res.len() implies #[trigger] ord(res[a], src[k])
        == Order::Less by {}
    lemma_push_sorted(res, ord, src[k]);
    let t = res.push(src[k]);
    assert forall|a: int, j: int| 0 <= a < res.len() + 1 && k + 1 <= j < src.len() implies #[trigger] ord(
        t[a],
        src[j],
    ) == Order::Less by {
        if a < res.len() {
            assert(t[a] == res[a]);
        } else {
            assert(ord(src[k], src[j]) == Order::Less);
        }
    }
}

/// Whether the filter of `s` keeps `x` exactly when `s` holds it and it satisfies the
/// predicate.
spec fn keeps_exactly<A>(s: Seq<A>, pred: spec_fn(A) -> bool, x: A) -> bool {
    s.filter(pred).contains(x) <==> (s.contains(x) && pred(x))
}

/// The elements a filter keeps are elements of the sequence that satisfy the predicate,
/// and every such element is kept.
pub proof fn lemma_filter_members<A>(s: Seq<A>, pred: spec_fn(A) -> bool)
    ensures
        forall|x: A| #[trigger] s.filter(pred).contains(x) <==> (s.contains(x) && pred(x)),
    decreases s.len(),
{
    reveal(Seq::filter);
    if s.len() > 0 {
        let d = s.drop_last();
        lemma_filter_members(d, pred);
        assert forall|x: A| #[trigger] s.filter(pred).contains(x) <==> (s.contains(x) && pred(x)) by {
            let f = s.filter(pred);
            assert(keeps_exactly(d, pred, x));
            let fd = d.filter(pred);
            if pred(s.last()) {
                assert(f == fd.push(s.last()));
            } else {
                assert(f == fd);
            }
            if f.contains(x) {
                let k = choose|k: int| 0 <= k < f.len() && f[k] == x;
                if k < fd.len() {
                    assert(fd[k] == x);
                    assert(fd.contains(x));
                    let q = choose|q: int| 0 <= q < d.len() && d[q] == x;
                    assert(s[q] == x);
                } else {
                    assert(s[s.len() - 1] == x);
                }
            }
            if s.contains(x) && pred(x) {
                let q = choose|q: int| 0 <= q < s.len() && s[q] == x;
                if q < s.len() - 1 {
                    assert(d[q] == x);
                    assert(fd.contains(x));
                    let k = choose|k: int| 0 <= k < fd.len() && fd[k] == x;
                    assert(f[k] == x);
                } else {
                    assert(f[f.len() - 1] == x);
                }
            }
        }
    } else {
        assert(s.filter(pred) == s);
    }
}

/// Filtering a sorted sequence leaves it sorted.
pub proof fn lemma_filter_sorted<A>(s: Seq<A>, pred: spec_fn(A) -> bool, ord: spec_fn(A, A) -> Order)
    requires
        sorted_by(s, ord),
    ensures
        sorted_by(s.filter(pred), ord),
    decreases s.len(),
{
    reveal(Seq::filter);
    if s.len() > 0 {
        let d = s.drop_last();
        assert(sorted_by(d, ord)) by {
            assert forall|i: int, j: int| 0 <= i < j < d.len() implies #[trigger] ord(d[i], d[j])
                == Order::Less by {
                assert(d[i] == s[i] && d[j] == s[j]);
            }
        }
        lemma_filter_sorted(d, pred, ord);
        if pred(s.last()) {
            lemma_filter_members(d, pred);
            let fd = d.filter(pred);
            assert forall|i: int| 0 <= i < fd.len() implies #[trigger] ord(fd[i], s.last())
                == Order::Less by {
                assert(fd.contains(fd[i]));
                let q = choose|q: int| 0 <= q < d.len() && d[q] == fd[i];
                assert(ord(s[q], s[s.len() - 1]) == Order::Less);
            }
            lemma_push_sorted(fd, ord, s.last());
        }
    }
}

} // verus!
