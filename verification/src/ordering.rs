//! The order of text as `Ord` on strings gives it: character by character,
//! a proper prefix first.

use vstd::prelude::*;

verus! {

/// `a` comes before `b`: at the first position where they differ `a` has
/// the smaller character, or `a` is a proper prefix of `b`.
pub open spec fn text_less(a: Seq<char>, b: Seq<char>) -> bool
    decreases a.len(),
{
    if a.len() == 0 {
        b.len() > 0
    } else if b.len() == 0 {
        false
    } else if a[0] != b[0] {
        (a[0] as int) < (b[0] as int)
    } else {
        text_less(a.drop_first(), b.drop_first())
    }
}

/// Nothing comes before itself.
pub proof fn lemma_text_less_irreflexive(a: Seq<char>)
    ensures
        !text_less(a, a),
    decreases a.len(),
{
    if a.len() > 0 {
        lemma_text_less_irreflexive(a.drop_first());
    }
}

/// Of two different texts one comes first, and never both.
pub proof fn lemma_text_less_total(a: Seq<char>, b: Seq<char>)
    ensures
        a != b ==> (text_less(a, b) || text_less(b, a)),
        !(text_less(a, b) && text_less(b, a)),
    decreases a.len(),
{
    if a.len() > 0 && b.len() > 0 {
        if a[0] == b[0] {
            lemma_text_less_total(a.drop_first(), b.drop_first());
            if a != b {
                assert(a =~= seq![a[0]] + a.drop_first());
                assert(b =~= seq![b[0]] + b.drop_first());
            }
        } else {
        }
    } else if a.len() == 0 && b.len() == 0 {
        assert(a =~= b);
    }
}

/// The order is transitive.
pub proof fn lemma_text_less_transitive(a: Seq<char>, b: Seq<char>, c: Seq<char>)
    requires
        text_less(a, b),
        text_less(b, c),
    ensures
        text_less(a, c),
    decreases a.len(),
{
    if a.len() > 0 && b.len() > 0 && c.len() > 0 && a[0] == b[0] && b[0] == c[0] {
        lemma_text_less_transitive(a.drop_first(), b.drop_first(), c.drop_first());
    }
}

/// Dropping a common prefix of length `k` keeps the order.
proof fn lemma_text_less_skip(a: Seq<char>, b: Seq<char>, k: int)
    requires
        0 <= k <= a.len(),
        k <= b.len(),
        a.take(k) == b.take(k),
    ensures
        text_less(a, b) == text_less(a.skip(k), b.skip(k)),
    decreases k,
{
    if k > 0 {
        assert(a[0] == a.take(k)[0]);
        assert(b[0] == b.take(k)[0]);
        assert(a.drop_first().take(k - 1) =~= a.take(k).drop_first());
        assert(b.drop_first().take(k - 1) =~= b.take(k).drop_first());
        lemma_text_less_skip(a.drop_first(), b.drop_first(), k - 1);
        assert(a.drop_first().skip(k - 1) =~= a.skip(k));
        assert(b.drop_first().skip(k - 1) =~= b.skip(k));
    } else {
        assert(a.skip(0) =~= a);
        assert(b.skip(0) =~= b);
    }
}

/// Whether `a` comes before `b`.
pub fn chars_less(a: &[char], b: &[char]) -> (less: bool)
    ensures
        less == text_less(a@, b@),
{
    let mut i: usize = 0;
    while i < a.len() && i < b.len() && a[i] == b[i]
        invariant
            i <= a@.len(),
            i <= b@.len(),
            a@.take(i as int) == b@.take(i as int),
        decreases a@.len() - i,
    {
        assert(a@.take(i as int + 1) =~= a@.take(i as int).push(a@[i as int]));
        assert(b@.take(i as int + 1) =~= b@.take(i as int).push(b@[i as int]));
        i = i + 1;
    }
    proof {
        lemma_text_less_skip(a@, b@, i as int);
    }
    if i == a.len() {
        i < b.len()
    } else if i == b.len() {
        false
    } else {
        assert(a@.skip(i as int)[0] == a@[i as int]);
        assert(b@.skip(i as int)[0] == b@[i as int]);
        let x = a[i];
        let y = b[i];
        assert(x == a@.skip(i as int)[0]);
        assert(y == b@.skip(i as int)[0]);
        x < y
    }
}

/// Order on pairs of texts: by the first, then by the second.
pub open spec fn pair_less(a: (Seq<char>, Seq<char>), b: (Seq<char>, Seq<char>)) -> bool {
    text_less(a.0, b.0) || (a.0 == b.0 && text_less(a.1, b.1))
}

/// The pair order is a strict total order.
pub proof fn lemma_pair_less_order(
    a: (Seq<char>, Seq<char>),
    b: (Seq<char>, Seq<char>),
    c: (Seq<char>, Seq<char>),
)
    ensures
        !pair_less(a, a),
        a != b ==> (pair_less(a, b) || pair_less(b, a)),
        !(pair_less(a, b) && pair_less(b, a)),
        pair_less(a, b) && pair_less(b, c) ==> pair_less(a, c),
{
    lemma_text_less_irreflexive(a.0);
    lemma_text_less_irreflexive(a.1);
    lemma_text_less_total(a.0, b.0);
    lemma_text_less_total(a.1, b.1);
    lemma_text_less_irreflexive(b.0);
    if text_less(a.0, b.0) && text_less(b.0, c.0) {
        lemma_text_less_transitive(a.0, b.0, c.0);
    }
    if text_less(a.1, b.1) && text_less(b.1, c.1) {
        lemma_text_less_transitive(a.1, b.1, c.1);
    }
}

/// `s` is listed in key order: no element has a key before an earlier one's.
pub open spec fn sorted_by_key<T>(s: Seq<T>, key: spec_fn(T) -> (Seq<char>, Seq<char>)) -> bool {
    forall|i: int, j: int| 0 <= i < j < s.len() ==> !pair_less(#[trigger] key(s[j]), #[trigger] key(s[i]))
}

/// The view of a key held as two character vectors.
pub open spec fn key_view(k: (Vec<char>, Vec<char>)) -> (Seq<char>, Seq<char>) {
    (k.0@, k.1@)
}

/// Whether key `a` comes before key `b`.
fn pair_less_exec(a: &(Vec<char>, Vec<char>), b: &(Vec<char>, Vec<char>)) -> (less: bool)
    ensures
        less == pair_less(key_view(*a), key_view(*b)),
{
    chars_less(a.0.as_slice(), b.0.as_slice()) || (crate::text::chars_equal(a.0.as_slice(), b.0.as_slice())
        && chars_less(a.1.as_slice(), b.1.as_slice()))
}

/// Inserts `item`, whose key is `k`, into `sorted` after every element whose
/// key is not after `k`; `keys` holds the elements' keys alongside.
pub(crate) fn insert_by_key<T>(
    sorted: &mut Vec<T>,
    keys: &mut Vec<(Vec<char>, Vec<char>)>,
    item: T,
    k: (Vec<char>, Vec<char>),
    Ghost(key): Ghost<spec_fn(T) -> (Seq<char>, Seq<char>)>,
)
    requires
        old(sorted)@.len() == old(keys)@.len(),
        forall|i: int| 0 <= i < old(keys)@.len() ==> key_view(#[trigger] old(keys)@[i]) == key(old(sorted)@[i]),
        sorted_by_key(old(sorted)@, key),
        key_view(k) == key(item),
    ensures
        final(sorted)@.len() == final(keys)@.len(),
        forall|i: int| 0 <= i < final(keys)@.len() ==> key_view(#[trigger] final(keys)@[i]) == key(final(sorted)@[i]),
        sorted_by_key(final(sorted)@, key),
        final(sorted)@.to_multiset() == old(sorted)@.to_multiset().insert(item),
{
    let ghost before = sorted@;
    let mut p: usize = 0;
    while p < keys.len() && !pair_less_exec(&k, &keys[p])
        invariant
            p <= keys@.len(),
            sorted@ == before,
            sorted@.len() == keys@.len(),
            forall|i: int| 0 <= i < keys@.len() ==> key_view(#[trigger] keys@[i]) == key(sorted@[i]),
            forall|i: int| 0 <= i < p ==> !pair_less(key_view(k), #[trigger] key(sorted@[i])),
        decreases keys@.len() - p,
    {
        p = p + 1;
    }
    proof {
        broadcast use vstd::seq_lib::to_multiset_insert;
        let after = before.insert(p as int, item);
        assert forall|i: int, j: int| 0 <= i < j < after.len() implies !pair_less(
            #[trigger] key(after[j]),
            #[trigger] key(after[i]),
        ) by {
            if i < p && j < p {
                assert(after[i] == before[i] && after[j] == before[j]);
            } else if i > p && j > p {
                assert(after[i] == before[i - 1] && after[j] == before[j - 1]);
            } else if i < p && j == p {
                assert(after[i] == before[i]);
                lemma_pair_less_order(key(item), key(before[i]), key(before[i]));
            } else if i < p && j > p {
                assert(after[i] == before[i] && after[j] == before[j - 1]);
            } else {
                assert(i == p && j > p);
                assert(after[j] == before[j - 1]);
                assert(pair_less(key(item), key(before[p as int])));
                lemma_pair_less_order(key(item), key(before[p as int]), key(before[j - 1]));
                lemma_pair_less_order(key(before[p as int]), key(before[j - 1]), key(before[j - 1]));
                lemma_pair_less_order(key(item), key(before[j - 1]), key(before[j - 1]));
            }
        }
    }
    sorted.insert(p, item);
    keys.insert(p, k);
    proof {
        assert forall|i: int| 0 <= i < keys@.len() implies key_view(#[trigger] keys@[i]) == key(sorted@[i]) by {
            if i < p {
            } else if i > p {
                assert(keys@[i] == old(keys)@[i - 1]);
            }
        }
    }
}

/// A listing in key order is determined by what it holds: two listings of
/// the same elements in key order are equal, provided no two different
/// elements share a key.
pub proof fn lemma_listing_unique<T>(
    x: Seq<T>,
    y: Seq<T>,
    key: spec_fn(T) -> (Seq<char>, Seq<char>),
)
    requires
        sorted_by_key(x, key),
        sorted_by_key(y, key),
        x.to_multiset() == y.to_multiset(),
        forall|a: T, b: T|
            x.to_multiset().contains(a) && x.to_multiset().contains(b) && key(a) == key(b) ==> a == b,
    ensures
        x == y,
    decreases x.len(),
{
    broadcast use vstd::multiset::group_multiset_axioms;
    broadcast use vstd::seq_lib::group_to_multiset_ensures;

    if x.len() == 0 || y.len() == 0 {
        vstd::seq_lib::to_multiset_len(x);
        vstd::seq_lib::to_multiset_len(y);
        assert(x =~= y);
    } else {
        assert(x.to_multiset().contains(x[0]));
        assert(y.to_multiset().contains(y[0]));
        assert(x.contains(y[0]));
        assert(y.contains(x[0]));
        let i = choose|i: int| 0 <= i < x.len() && x[i] == y[0];
        let j = choose|j: int| 0 <= j < y.len() && y[j] == x[0];
        if i > 0 {
            assert(!pair_less(key(x[i]), key(x[0])));
        }
        if j > 0 {
            assert(!pair_less(key(y[j]), key(y[0])));
        }
        lemma_pair_less_order(key(x[0]), key(y[0]), key(y[0]));
        assert(key(x[0]) == key(y[0]));
        assert(x[0] == y[0]);
        assert(x.remove(0) =~= x.drop_first());
        assert(y.remove(0) =~= y.drop_first());
        vstd::seq_lib::to_multiset_remove(x, 0);
        vstd::seq_lib::to_multiset_remove(y, 0);
        assert forall|a: T, b: T|
            x.drop_first().to_multiset().contains(a) && x.drop_first().to_multiset().contains(b) && key(a)
                == key(b) implies a == b by {
            assert(x.to_multiset().contains(a));
            assert(x.to_multiset().contains(b));
        }
        assert(sorted_by_key(x.drop_first(), key)) by {
            assert forall|p: int, q: int| 0 <= p < q < x.drop_first().len() implies !pair_less(
                #[trigger] key(x.drop_first()[q]),
                #[trigger] key(x.drop_first()[p]),
            ) by {
                assert(x.drop_first()[q] == x[q + 1]);
                assert(x.drop_first()[p] == x[p + 1]);
            }
        }
        assert(sorted_by_key(y.drop_first(), key)) by {
            assert forall|p: int, q: int| 0 <= p < q < y.drop_first().len() implies !pair_less(
                #[trigger] key(y.drop_first()[q]),
                #[trigger] key(y.drop_first()[p]),
            ) by {
                assert(y.drop_first()[q] == y[q + 1]);
                assert(y.drop_first()[p] == y[p + 1]);
            }
        }
        lemma_listing_unique(x.drop_first(), y.drop_first(), key);
        assert(x =~= seq![x[0]] + x.drop_first());
        assert(y =~= seq![y[0]] + y.drop_first());
    }
}

} // verus!
