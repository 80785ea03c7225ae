//! First-match lookup and upsert-by-key over sequences: the model of the
//! keyed reference tables.

use vstd::prelude::*;

verus! {

/// The index of the first element of `s` satisfying `p`, or -1 where none
/// does.
pub open spec fn first_index_where<T>(s: Seq<T>, p: spec_fn(T) -> bool) -> int
    decreases s.len(),
{
    if s.len() == 0 {
        -1
    } else if p(s[0]) {
        0
    } else {
        let r = first_index_where(s.drop_first(), p);
        if r == -1 {
            -1
        } else {
            r + 1
        }
    }
}

/// The first element of `s` satisfying `p`, if any.
pub open spec fn first_match<T>(s: Seq<T>, p: spec_fn(T) -> bool) -> Option<T> {
    let i = first_index_where(s, p);
    if i == -1 {
        Option::None
    } else {
        Option::Some(s[i])
    }
}

/// `s` with `x` replacing the first element satisfying `p`, or appended
/// where none does: insert-or-update-by-key.
pub open spec fn upserted<T>(s: Seq<T>, p: spec_fn(T) -> bool, x: T) -> Seq<T> {
    let i = first_index_where(s, p);
    if i == -1 {
        s.push(x)
    } else {
        s.update(i, x)
    }
}

/// No two elements of `s` share a key.
pub open spec fn unique_keys<T, K>(s: Seq<T>, key: spec_fn(T) -> K) -> bool {
    forall|i: int, j: int| 0 <= i < j < s.len() ==> key(s[i]) != key(s[j])
}

pub proof fn lemma_first_index_where_props<T>(s: Seq<T>, p: spec_fn(T) -> bool)
    ensures
        -1 <= first_index_where(s, p) < s.len(),
        first_index_where(s, p) >= 0 ==> p(s[first_index_where(s, p)]) && (forall|m: int|
            0 <= m < first_index_where(s, p) ==> !p(s[m])),
        first_index_where(s, p) == -1 ==> forall|m: int| 0 <= m < s.len() ==> !p(s[m]),
    decreases s.len(),
{
    if s.len() > 0 && !p(s[0]) {
        let df = s.drop_first();
        lemma_first_index_where_props(df, p);
        let r = first_index_where(df, p);
        assert(forall|m: int| 0 <= m < df.len() ==> df[m] == s[m + 1]);
        if r >= 0 {
            assert(p(s[r + 1]));
            assert forall|m: int| 0 <= m < r + 1 implies !p(s[m]) by {
                if m > 0 {
                    assert(df[m - 1] == s[m]);
                    assert(!p(df[m - 1]));
                }
            }
        } else {
            assert forall|m: int| 0 <= m < s.len() implies !p(s[m]) by {
                if m > 0 {
                    assert(df[m - 1] == s[m]);
                    assert(!p(df[m - 1]));
                }
            }
        }
    }
}

pub proof fn lemma_first_index_where_at<T>(s: Seq<T>, p: spec_fn(T) -> bool, j: int)
    requires
        0 <= j < s.len(),
        p(s[j]),
        forall|m: int| 0 <= m < j ==> !p(s[m]),
    ensures
        first_index_where(s, p) == j,
{
    lemma_first_index_where_props(s, p);
}

/// Upserting by a key keeps the keys of a sequence pairwise distinct.
pub proof fn lemma_upsert_keeps_unique<T, K>(
    s: Seq<T>,
    p: spec_fn(T) -> bool,
    x: T,
    key: spec_fn(T) -> K,
)
    requires
        unique_keys(s, key),
        forall|y: T| #[trigger] p(y) <==> key(y) == key(x),
    ensures
        unique_keys(upserted(s, p, x), key),
{
    lemma_first_index_where_props(s, p);
    let i = first_index_where(s, p);
    let t = upserted(s, p, x);
    if i == -1 {
        assert forall|a: int, b: int| 0 <= a < b < t.len() implies key(t[a]) != key(t[b]) by {
            if b == s.len() {
                assert(!p(s[a]));
            }
        }
    } else {
        assert(key(s[i]) == key(x));
        assert forall|a: int, b: int| 0 <= a < b < t.len() implies key(t[a]) != key(t[b]) by {
            if a == i {
                assert(key(t[a]) == key(s[i]));
            } else if b == i {
                assert(key(t[b]) == key(s[i]));
            }
        }
    }
}

/// Two predicates that agree on every element find the same first index.
pub proof fn lemma_first_index_where_equiv<T>(s: Seq<T>, p: spec_fn(T) -> bool, q: spec_fn(T) -> bool)
    requires
        forall|m: int| 0 <= m < s.len() ==> p(s[m]) == q(s[m]),
    ensures
        first_index_where(s, p) == first_index_where(s, q),
    decreases s.len(),
{
    if s.len() > 0 && !p(s[0]) {
        let df = s.drop_first();
        assert(forall|m: int| 0 <= m < df.len() ==> df[m] == s[m + 1]);
        lemma_first_index_where_equiv(df, p, q);
    }
}

/// Reading by a key right after upserting under that key finds the new
/// element.
pub proof fn lemma_upsert_then_find<T, K>(s: Seq<T>, x: T, key: spec_fn(T) -> K)
    ensures
        first_match(upserted_by_key(s, x, key), key_pred(key, key(x))) == Some(x),
{
    let p = key_pred(key, key(x));
    lemma_first_index_where_props(s, p);
    let i = first_index_where(s, p);
    let t = upserted_by_key(s, x, key);
    if i == -1 {
        assert(forall|m: int| 0 <= m < s.len() ==> t[m] == s[m]);
        lemma_first_index_where_at(t, p, s.len() as int);
    } else {
        assert(forall|m: int| 0 <= m < i ==> t[m] == s[m]);
        lemma_first_index_where_at(t, p, i);
    }
}

/// A sequence none of whose elements satisfies `p` filters to nothing.
pub proof fn lemma_filter_all_false<T>(s: Seq<T>, p: spec_fn(T) -> bool)
    requires
        forall|i: int| 0 <= i < s.len() ==> !p(s[i]),
    ensures
        s.filter(p) == Seq::<T>::empty(),
    decreases s.len(),
{
    reveal(Seq::filter);
    if s.len() > 0 {
        lemma_filter_all_false(s.drop_last(), p);
        assert(forall|i: int| 0 <= i < s.drop_last().len() ==> s.drop_last()[i] == s[i]);
    }
    assert(s.filter(p) =~= Seq::<T>::empty());
}

/// Filtering distributes over a trailing push.
pub proof fn lemma_filter_push<T>(s: Seq<T>, p: spec_fn(T) -> bool, x: T)
    ensures
        s.push(x).filter(p) == if p(x) {
            s.filter(p).push(x)
        } else {
            s.filter(p)
        },
{
    reveal(Seq::filter);
    assert(s.push(x).drop_last() =~= s);
}

/// The predicate selecting elements whose key equals `k`.
pub open spec fn key_pred<T, K>(key: spec_fn(T) -> K, k: K) -> spec_fn(T) -> bool {
    |y: T| key(y) == k
}

/// `s` with `x` upserted under its own key.
pub open spec fn upserted_by_key<T, K>(s: Seq<T>, x: T, key: spec_fn(T) -> K) -> Seq<T> {
    upserted(s, key_pred(key, key(x)), x)
}

/// `s` with every element of `items` upserted in order.
pub open spec fn upserted_all<T, K>(s: Seq<T>, items: Seq<T>, key: spec_fn(T) -> K) -> Seq<T>
    decreases items.len(),
{
    if items.len() == 0 {
        s
    } else {
        upserted_all(upserted_by_key(s, items[0], key), items.drop_first(), key)
    }
}

/// Upserting one more item extends a fold over a prefix of `items`.
pub proof fn lemma_upserted_all_step<T, K>(s: Seq<T>, items: Seq<T>, k: int, key: spec_fn(T) -> K)
    requires
        0 <= k < items.len(),
    ensures
        upserted_all(s, items.take(k + 1), key) == upserted_by_key(
            upserted_all(s, items.take(k), key),
            items[k],
            key,
        ),
    decreases k,
{
    let s1 = upserted_by_key(s, items[0], key);
    if k == 0 {
        assert(items.take(0) =~= Seq::<T>::empty());
        assert(items.take(1)[0] == items[0]);
        assert(items.take(1).drop_first() =~= Seq::<T>::empty());
        assert(upserted_all(s, items.take(1), key) == upserted_all(
            s1,
            items.take(1).drop_first(),
            key,
        ));
        assert(upserted_all(s1, Seq::<T>::empty(), key) == s1);
        assert(upserted_all(s, items.take(0), key) == s);
    } else {
        lemma_upserted_all_step(s1, items.drop_first(), k - 1, key);
        assert(items.take(k + 1)[0] == items[0]);
        assert(items.take(k)[0] == items[0]);
        assert(items.take(k + 1).drop_first() =~= items.drop_first().take(k));
        assert(items.take(k).drop_first() =~= items.drop_first().take(k - 1));
        assert(items.drop_first()[k - 1] == items[k]);
        assert(upserted_all(s, items.take(k + 1), key) == upserted_all(
            s1,
            items.drop_first().take(k),
            key,
        ));
        assert(upserted_all(s, items.take(k), key) == upserted_all(
            s1,
            items.drop_first().take(k - 1),
            key,
        ));
    }
}

/// Upserting every item of a list keeps keys pairwise distinct.
pub proof fn lemma_upserted_all_keeps_unique<T, K>(s: Seq<T>, items: Seq<T>, key: spec_fn(T) -> K)
    requires
        unique_keys(s, key),
    ensures
        unique_keys(upserted_all(s, items, key), key),
    decreases items.len(),
{
    if items.len() > 0 {
        lemma_upsert_keeps_unique(s, key_pred(key, key(items[0])), items[0], key);
        lemma_upserted_all_keeps_unique(upserted_by_key(s, items[0], key), items.drop_first(), key);
    }
}

} // verus!
