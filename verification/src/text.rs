//! Lexicographic order on character sequences, and the few string operations the
//! column descriptors are built from.
use vstd::prelude::*;
use vstd::string::*;

verus! {

/// Three-way comparison outcome used by every ordering of this crate.
#[derive(Debug, Clone, Copy, PartialEq, Eq, Structural)]
pub enum Order {
    Less,
    Equal,
    Greater,
}

/// Lexicographic comparison of two character sequences, by code point
/// (the order `str` uses: byte order of UTF-8 is code point order).
pub open spec fn chars_order(a: Seq<char>, b: Seq<char>) -> Order
    decreases a.len(),
{
    if a.len() == 0 {
        if b.len() == 0 { Order::Equal } else { Order::Less }
    } else if b.len() == 0 {
        Order::Greater
    } else if a[0] < b[0] {
        Order::Less
    } else if a[0] > b[0] {
        Order::Greater
    } else {
        chars_order(a.drop_first(), b.drop_first())
    }
}

/// Compares two strings lexicographically.
pub fn compare_str(a: &str, b: &str) -> (r: Order)
    ensures
        r == chars_order(a@, b@),
{
    let la = a.unicode_len();
    let lb = b.unicode_len();
    let mut i: usize = 0;
    assert(a@.skip(0) =~= a@);
    assert(b@.skip(0) =~= b@);
    while i < la && i < lb
        invariant
            la == a@.len(),
            lb == b@.len(),
            i <= la,
            i <= lb,
            chars_order(a@, b@) == chars_order(a@.skip(i as int), b@.skip(i as int)),
        decreases la - i,
    {
        let ca = a.get_char(i);
        let cb = b.get_char(i);
        assert(a@.skip(i as int)[0] == ca);
        assert(b@.skip(i as int)[0] == cb);
        if ca < cb {
            return Order::Less;
        } else if ca > cb {
            return Order::Greater;
        }
        assert(a@.skip(i as int).drop_first() =~= a@.skip(i + 1));
        assert(b@.skip(i as int).drop_first() =~= b@.skip(i + 1));
        i = i + 1;
    }
    if i < lb {
        Order::Less
    } else if i < la {
        Order::Greater
    } else {
        Order::Equal
    }
}


/// Lexicographic combination: `second` decides only where `first` ties.
pub open spec fn then_order(first: Order, second: Order) -> Order {
    if first == Order::Equal {
        second
    } else {
        first
    }
}

/// Order on booleans: `false` before `true`.
pub open spec fn bool_order(a: bool, b: bool) -> Order {
    if a == b {
        Order::Equal
    } else if !a {
        Order::Less
    } else {
        Order::Greater
    }
}

/// Order on optional texts: `None` before any `Some`, texts lexicographically.
pub open spec fn opt_chars_order(a: Option<Seq<char>>, b: Option<Seq<char>>) -> Order {
    match (a, b) {
        (None, None) => Order::Equal,
        (None, Some(_)) => Order::Less,
        (Some(_), None) => Order::Greater,
        (Some(x), Some(y)) => chars_order(x, y),
    }
}

/// The laws of [`opt_chars_order`] for three given values.
pub proof fn lemma_opt_chars_order(a: Option<Seq<char>>, b: Option<Seq<char>>, c: Option<Seq<char>>)
    ensures
        opt_chars_order(b, a) == flip(opt_chars_order(a, b)),
        (opt_chars_order(a, b) == Order::Equal) <==> (a == b),
        opt_chars_order(a, b) == Order::Less && opt_chars_order(b, c) == Order::Less
            ==> opt_chars_order(a, c) == Order::Less,
{
    if let (Some(x), Some(y)) = (a, b) {
        lemma_chars_order_flip(x, y);
        lemma_chars_order_equal(x, y);
        if let Some(z) = c {
            if chars_order(x, y) == Order::Less && chars_order(y, z) == Order::Less {
                lemma_chars_order_trans(x, y, z);
            }
        }
    }
}

/// The outcome of comparing the other way round.
pub open spec fn flip(o: Order) -> Order {
    match o {
        Order::Less => Order::Greater,
        Order::Equal => Order::Equal,
        Order::Greater => Order::Less,
    }
}

/// Lexicographic order is antisymmetric.
pub proof fn lemma_chars_order_flip(a: Seq<char>, b: Seq<char>)
    ensures
        chars_order(b, a) == flip(chars_order(a, b)),
    decreases a.len(),
{
    if a.len() > 0 && b.len() > 0 && a[0] == b[0] {
        lemma_chars_order_flip(a.drop_first(), b.drop_first());
    }
}

/// Two sequences compare equal exactly when they are the same sequence.
pub proof fn lemma_chars_order_equal(a: Seq<char>, b: Seq<char>)
    ensures
        (chars_order(a, b) == Order::Equal) <==> (a == b),
    decreases a.len(),
{
    if a.len() > 0 && b.len() > 0 {
        if a[0] == b[0] {
            lemma_chars_order_equal(a.drop_first(), b.drop_first());
            if a.drop_first() == b.drop_first() {
                assert(a =~= seq![a[0]] + a.drop_first());
                assert(b =~= seq![b[0]] + b.drop_first());
            }
            if a == b {
                assert(a.drop_first() =~= b.drop_first());
            }
        }
    } else if a.len() == 0 && b.len() == 0 {
        assert(a =~= b);
    }
}

/// Lexicographic `Less` is transitive.
pub proof fn lemma_chars_order_trans(a: Seq<char>, b: Seq<char>, c: Seq<char>)
    requires
        chars_order(a, b) == Order::Less,
        chars_order(b, c) == Order::Less,
    ensures
        chars_order(a, c) == Order::Less,
    decreases a.len(),
{
    if a.len() > 0 && b.len() > 0 && c.len() > 0 && a[0] == b[0] && b[0] == c[0] {
        lemma_chars_order_trans(a.drop_first(), b.drop_first(), c.drop_first());
    }
}

/// Whether `s` begins with `prefix`.
pub fn starts_with(s: &str, prefix: &str) -> (r: bool)
    ensures
        r == prefix@.is_prefix_of(s@),
{
    let ls = s.unicode_len();
    let lp = prefix.unicode_len();
    if lp > ls {
        return false;
    }
    let mut i: usize = 0;
    while i < lp
        invariant
            ls == s@.len(),
            lp == prefix@.len(),
            lp <= ls,
            i <= lp,
            forall|j: int| 0 <= j < i ==> s@[j] == prefix@[j],
        decreases lp - i,
    {
        if s.get_char(i) != prefix.get_char(i) {
            return false;
        }
        i = i + 1;
    }
    assert(prefix@ =~= s@.subrange(0, prefix@.len() as int));
    true
}

/// `s` without its first `prefix@.len()` characters when it begins with `prefix`.
pub fn strip_prefix(s: &str, prefix: &str) -> (r: Option<String>)
    ensures
        r is Some <==> prefix@.is_prefix_of(s@),
        r matches Some(t) ==> t@ == s@.skip(prefix@.len() as int),
{
    if starts_with(s, prefix) {
        let lp = prefix.unicode_len();
        let ls = s.unicode_len();
        let rest = s.substring_char(lp, ls);
        assert(rest@ =~= s@.skip(prefix@.len() as int));
        Some(String::from_str(rest))
    } else {
        None
    }
}

/// A fresh string holding the characters of `s`.
pub fn owned(s: &str) -> (r: String)
    ensures
        r@ == s@,
{
    String::from_str(s)
}

/// Appends `b` to `a`.
pub fn concat(a: String, b: &str) -> (r: String)
    ensures
        r@ == a@ + b@,
{
    a.concat(b)
}

} // verus!
