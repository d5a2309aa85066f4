//! The order of names and sort keys, and stable sorting by a key.
//!
//! Strings are ordered as the shell's tools and the standard library order
//! them: character by character, by code point, a proper prefix first.

use vstd::prelude::*;

verus! {

/// A sort key: a rank, then a string that breaks ties.
pub type SortKey = (int, Seq<char>);

// ---------------------------------------------------------------------------
// Lexicographic order
// ---------------------------------------------------------------------------

/// Whether `a` comes strictly before `b` in lexicographic order.
pub open spec fn lex_less(a: Seq<char>, b: Seq<char>) -> bool
    decreases a.len(),
{
    if b.len() == 0 {
        false
    } else if a.len() == 0 {
        true
    } else if a[0] != b[0] {
        (a[0] as u32) < (b[0] as u32)
    } else {
        lex_less(a.drop_first(), b.drop_first())
    }
}

/// Whether key `a` comes strictly before key `b`.
pub open spec fn key_less(a: SortKey, b: SortKey) -> bool {
    a.0 < b.0 || (a.0 == b.0 && lex_less(a.1, b.1))
}

/// Nothing comes before itself.
pub proof fn lemma_lex_irreflexive(a: Seq<char>)
    ensures
        !lex_less(a, a),
    decreases a.len(),
{
    if a.len() > 0 {
        lemma_lex_irreflexive(a.drop_first());
    }
}

/// The order is transitive.
pub proof fn lemma_lex_transitive(a: Seq<char>, b: Seq<char>, c: Seq<char>)
    requires
        lex_less(a, b),
        lex_less(b, c),
    ensures
        lex_less(a, c),
    decreases a.len(),
{
    if a.len() > 0 && b.len() > 0 && c.len() > 0 {
        if a[0] == b[0] && b[0] == c[0] {
            lemma_lex_transitive(a.drop_first(), b.drop_first(), c.drop_first());
        }
    }
}

/// Of two different strings one comes before the other.
pub proof fn lemma_lex_total(a: Seq<char>, b: Seq<char>)
    ensures
        lex_less(a, b) || lex_less(b, a) || a == b,
    decreases a.len(),
{
    if a.len() > 0 && b.len() > 0 {
        if a[0] != b[0] {
            vstd::utf8::char_u32_cast(a[0], a[0] as u32);
            vstd::utf8::char_u32_cast(b[0], b[0] as u32);
        } else {
            lemma_lex_total(a.drop_first(), b.drop_first());
            if a.drop_first() == b.drop_first() {
                assert(a =~= seq![a[0]] + a.drop_first());
            }
        }
    }
}

/// No two strings come before each other.
pub proof fn lemma_lex_asymmetric(a: Seq<char>, b: Seq<char>)
    requires
        lex_less(a, b),
    ensures
        !lex_less(b, a),
    decreases a.len(),
{
    if a.len() > 0 && b.len() > 0 && a[0] == b[0] {
        lemma_lex_asymmetric(a.drop_first(), b.drop_first());
    }
}

/// `key_less` is a strict total order on keys.
pub proof fn lemma_key_order(a: SortKey, b: SortKey, c: SortKey)
    ensures
        !key_less(a, a),
        key_less(a, b) ==> !key_less(b, a),
        key_less(a, b) && key_less(b, c) ==> key_less(a, c),
        !key_less(a, b) && !key_less(b, c) ==> !key_less(a, c),
        key_less(a, b) || key_less(b, a) || a == b,
{
    lemma_lex_irreflexive(a.1);
    lemma_lex_total(a.1, b.1);
    lemma_lex_total(b.1, c.1);
    lemma_lex_total(a.1, c.1);
    if lex_less(a.1, b.1) {
        lemma_lex_asymmetric(a.1, b.1);
    }
    if lex_less(a.1, b.1) && lex_less(b.1, c.1) {
        lemma_lex_transitive(a.1, b.1, c.1);
    }
    if lex_less(a.1, c.1) {
        lemma_lex_asymmetric(a.1, c.1);
        if lex_less(c.1, b.1) {
            lemma_lex_transitive(a.1, c.1, b.1);
        }
        if lex_less(b.1, a.1) {
            lemma_lex_transitive(b.1, a.1, c.1);
        }
    }
}

/// Whether `a` comes strictly before `b`.
pub fn chars_less(a: &Vec<char>, b: &Vec<char>) -> (r: bool)
    ensures
        r == lex_less(a@, b@),
{
    let mut i: usize = 0;
    assert(a@.skip(0) == a@ && b@.skip(0) == b@);
    while i < a.len() && i < b.len()
        invariant
            i <= a.len(),
            i <= b.len(),
            lex_less(a@, b@) == lex_less(a@.skip(i as int), b@.skip(i as int)),
        decreases a.len() - i,
    {
        let ghost ra = a@.skip(i as int);
        let ghost rb = b@.skip(i as int);
        if a[i] != b[i] {
            return (a[i] as u32) < (b[i] as u32);
        }
        assert(ra.drop_first() == a@.skip(i + 1));
        assert(rb.drop_first() == b@.skip(i + 1));
        i += 1;
    }
    i < b.len()
}

// ---------------------------------------------------------------------------
// Stable sorting
// ---------------------------------------------------------------------------

/// Whether the keys of `s` never decrease.
pub open spec fn is_sorted<T>(s: Seq<T>, key: spec_fn(T) -> SortKey) -> bool {
    forall|i: int, j: int| 0 <= i < j < s.len() ==> !key_less(#[trigger] key(s[j]), #[trigger] key(s[i]))
}

/// Where an item with key `k` goes in `s`: before the first item whose key is
/// greater, and so behind every item of equal key.
pub open spec fn insertion_point<T>(s: Seq<T>, k: SortKey, key: spec_fn(T) -> SortKey) -> int
    decreases s.len(),
{
    if s.len() > 0 && !key_less(k, key(s[0])) {
        1 + insertion_point(s.drop_first(), k, key)
    } else {
        0
    }
}

/// `s` with `x` put in at its insertion point.
pub open spec fn insert_sorted<T>(s: Seq<T>, x: T, key: spec_fn(T) -> SortKey) -> Seq<T> {
    s.insert(insertion_point(s, key(x), key), x)
}

/// `s` sorted by key, items of equal key keeping their order.
pub open spec fn stable_sort<T>(s: Seq<T>, key: spec_fn(T) -> SortKey) -> Seq<T>
    decreases s.len(),
{
    if s.len() == 0 {
        s
    } else {
        insert_sorted(stable_sort(s.drop_last(), key), s.last(), key)
    }
}

/// The insertion point lies behind items that are not greater and before one
/// that is.
pub proof fn lemma_insertion_point<T>(s: Seq<T>, k: SortKey, key: spec_fn(T) -> SortKey)
    ensures
        0 <= insertion_point(s, k, key) <= s.len(),
        forall|i: int| 0 <= i < insertion_point(s, k, key) ==> !key_less(k, #[trigger] key(s[i])),
        insertion_point(s, k, key) < s.len() ==> key_less(k, key(s[insertion_point(s, k, key)])),
    decreases s.len(),
{
    if s.len() > 0 && !key_less(k, key(s[0])) {
        let t = s.drop_first();
        lemma_insertion_point(t, k, key);
        let p = insertion_point(s, k, key);
        assert forall|i: int| 0 <= i < p implies !key_less(k, #[trigger] key(s[i])) by {
            if i > 0 {
                assert(s[i] == t[i - 1]);
            }
        }
    }
}

/// The converse of [`lemma_insertion_point`].
pub proof fn lemma_insertion_point_is<T>(
    s: Seq<T>,
    k: SortKey,
    key: spec_fn(T) -> SortKey,
    p: int,
)
    requires
        0 <= p <= s.len(),
        forall|i: int| 0 <= i < p ==> !key_less(k, #[trigger] key(s[i])),
        p < s.len() ==> key_less(k, key(s[p])),
    ensures
        insertion_point(s, k, key) == p,
    decreases p,
{
    if p > 0 {
        let t = s.drop_first();
        lemma_insertion_point_is(t, k, key, p - 1);
    }
}

/// Putting an item into a sorted sequence leaves it sorted.
pub proof fn lemma_insert_sorted<T>(s: Seq<T>, x: T, key: spec_fn(T) -> SortKey)
    requires
        is_sorted(s, key),
    ensures
        is_sorted(insert_sorted(s, x, key), key),
        insert_sorted(s, x, key).len() == s.len() + 1,
{
    let p = insertion_point(s, key(x), key);
    lemma_insertion_point(s, key(x), key);
    let r = insert_sorted(s, x, key);
    assert forall|i: int, j: int| 0 <= i < j < r.len() implies !key_less(
        #[trigger] key(r[j]),
        #[trigger] key(r[i]),
    ) by {
        if j == p {
            lemma_key_order(key(x), key(s[i]), key(x));
        } else if j > p && i == p {
            lemma_key_order(key(s[j - 1]), key(x), key(s[p]));
            lemma_key_order(key(x), key(s[p]), key(s[j - 1]));
        }
    }
}

/// What [`stable_sort`] returns is sorted and as long as what it was given.
pub proof fn lemma_sort_sorted<T>(s: Seq<T>, key: spec_fn(T) -> SortKey)
    ensures
        is_sorted(stable_sort(s, key), key),
        stable_sort(s, key).len() == s.len(),
    decreases s.len(),
{
    if s.len() > 0 {
        lemma_sort_sorted(s.drop_last(), key);
        lemma_insert_sorted(stable_sort(s.drop_last(), key), s.last(), key);
    }
}

/// What [`stable_sort`] returns holds the items it was given, each as often.
pub proof fn lemma_sort_permutes<T>(s: Seq<T>, key: spec_fn(T) -> SortKey)
    ensures
        stable_sort(s, key).to_multiset() == s.to_multiset(),
    decreases s.len(),
{
    broadcast use vstd::seq_lib::group_to_multiset_ensures;

    if s.len() > 0 {
        let t = s.drop_last();
        let x = s.last();
        lemma_sort_permutes(t, key);
        let st = stable_sort(t, key);
        lemma_insertion_point(st, key(x), key);
        assert(s =~= t.push(x));
    }
}

/// Sorting a sorted sequence changes nothing.
pub proof fn lemma_sort_of_sorted<T>(s: Seq<T>, key: spec_fn(T) -> SortKey)
    requires
        is_sorted(s, key),
    ensures
        stable_sort(s, key) == s,
    decreases s.len(),
{
    if s.len() > 0 {
        let t = s.drop_last();
        let x = s.last();
        lemma_sort_of_sorted(t, key);
        lemma_insertion_point_is(t, key(x), key, t.len() as int);
    }
}

/// The sum of `f` over the items of `s`.
pub open spec fn sum_by<T>(s: Seq<T>, f: spec_fn(T) -> int) -> int
    decreases s.len(),
{
    if s.len() == 0 {
        0
    } else {
        sum_by(s.drop_last(), f) + f(s.last())
    }
}

/// Putting an item in anywhere adds its share to the sum.
pub proof fn lemma_sum_insert<T>(s: Seq<T>, i: int, x: T, f: spec_fn(T) -> int)
    requires
        0 <= i <= s.len(),
    ensures
        sum_by(s.insert(i, x), f) == sum_by(s, f) + f(x),
    decreases s.len(),
{
    let r = s.insert(i, x);
    if i == s.len() {
        assert(r.drop_last() =~= s);
    } else {
        lemma_sum_insert(s.drop_last(), i, x, f);
        assert(r.drop_last() =~= s.drop_last().insert(i, x));
    }
}

/// Sorting leaves every sum over the items as it was.
pub proof fn lemma_sort_keeps_sum<T>(s: Seq<T>, key: spec_fn(T) -> SortKey, f: spec_fn(T) -> int)
    ensures
        sum_by(stable_sort(s, key), f) == sum_by(s, f),
    decreases s.len(),
{
    if s.len() > 0 {
        let st = stable_sort(s.drop_last(), key);
        lemma_sort_keeps_sum(s.drop_last(), key, f);
        lemma_insertion_point(st, key(s.last()), key);
        lemma_sum_insert(st, insertion_point(st, key(s.last()), key), s.last(), f);
    }
}

/// Whether no two items of `s` have the same key.
pub open spec fn keys_differ<T>(s: Seq<T>, key: spec_fn(T) -> SortKey) -> bool {
    forall|i: int, j: int|
        0 <= i < s.len() && 0 <= j < s.len() && i != j ==> #[trigger] key(s[i]) != #[trigger] key(
            s[j],
        )
}

/// Whether the keys of `s` strictly increase.
pub open spec fn is_strictly_sorted<T>(s: Seq<T>, key: spec_fn(T) -> SortKey) -> bool {
    forall|i: int, j: int|
        0 <= i < j < s.len() ==> key_less(#[trigger] key(s[i]), #[trigger] key(s[j]))
}

/// Every item of what [`stable_sort`] returns is an item of what it was given.
pub proof fn lemma_sort_keeps_items<T>(s: Seq<T>, key: spec_fn(T) -> SortKey, i: int)
    requires
        0 <= i < stable_sort(s, key).len(),
    ensures
        s.contains(stable_sort(s, key)[i]),
    decreases s.len(),
{
    if s.len() > 0 {
        let t = s.drop_last();
        let st = stable_sort(t, key);
        lemma_insertion_point(st, key(s.last()), key);
        let at = insertion_point(st, key(s.last()), key);
        if i != at {
            // The item stood in the sorted rest, before or behind the new one.
            let k = if i < at {
                i
            } else {
                i - 1
            };
            lemma_sort_sorted(t, key);
            lemma_sort_keeps_items(t, key, k);
            let m = choose|m: int| 0 <= m < t.len() && t[m] == st[k];
            assert(s[m] == st[k]);
        }
    }
}

/// Sorting items of which no two have the same key gives strictly increasing
/// keys.
pub proof fn lemma_sort_is_strict<T>(s: Seq<T>, key: spec_fn(T) -> SortKey)
    requires
        keys_differ(s, key),
    ensures
        keys_differ(stable_sort(s, key), key),
        is_strictly_sorted(stable_sort(s, key), key),
    decreases s.len(),
{
    let r = stable_sort(s, key);
    lemma_sort_sorted(s, key);
    if s.len() > 0 {
        let t = s.drop_last();
        let x = s.last();
        assert(keys_differ(t, key));
        lemma_sort_is_strict(t, key);
        let st = stable_sort(t, key);
        lemma_sort_sorted(t, key);
        lemma_insertion_point(st, key(x), key);
        // No item of the sorted rest has the key of the new item.
        assert forall|k: int| 0 <= k < st.len() implies key(#[trigger] st[k]) != key(x) by {
            lemma_sort_keeps_items(t, key, k);
            let m = choose|m: int| 0 <= m < t.len() && t[m] == st[k];
            assert(s[m] == st[k] && s[s.len() - 1] == x);
        }
    }
    assert forall|i: int, j: int| 0 <= i < j < r.len() implies key_less(
        #[trigger] key(r[i]),
        #[trigger] key(r[j]),
    ) by {
        lemma_key_order(key(r[i]), key(r[j]), key(r[i]));
    }
}

} // verus!
