//! Sequences of rows that are identified by a key: what it means that a key
//! occurs, that no key occurs twice, and how both fare under the three ways in
//! which a table changes (a row is appended, rows are rewritten in place,
//! rows are filtered out).

use vstd::prelude::*;

verus! {

/// Some row of `s` has the key `k`.
pub open spec fn has_key<A, K>(s: Seq<A>, key: spec_fn(A) -> K, k: K) -> bool {
    exists|i: int| 0 <= i < s.len() && #[trigger] key(s[i]) == k
}

/// A row of `s` with the key `k` (the only one, where no key occurs twice).
pub open spec fn row_of<A, K>(s: Seq<A>, key: spec_fn(A) -> K, k: K) -> A {
    s[choose|i: int| 0 <= i < s.len() && #[trigger] key(s[i]) == k]
}

/// No two rows of `s` share a key.
pub open spec fn distinct_by<A, K>(s: Seq<A>, key: spec_fn(A) -> K) -> bool {
    forall|i: int, j: int| 0 <= i < j < s.len() ==> #[trigger] key(s[i]) != #[trigger] key(s[j])
}

/// Where no key occurs twice, the row at an index is the row of its key.
pub proof fn lemma_row_of_index<A, K>(s: Seq<A>, key: spec_fn(A) -> K, i: int)
    requires
        distinct_by(s, key),
        0 <= i < s.len(),
    ensures
        has_key(s, key, key(s[i])),
        row_of(s, key, key(s[i])) == s[i],
{
    let k = key(s[i]);
    let j = choose|j: int| 0 <= j < s.len() && #[trigger] key(s[j]) == k;
    if j < i {
        assert(key(s[j]) != key(s[i]));
    } else if i < j {
        assert(key(s[i]) != key(s[j]));
    }
}

/// Every row of a filtered sequence is a row of the sequence it came from,
/// and the rows keep their order.
pub proof fn lemma_filter_embeds<A>(s: Seq<A>, p: spec_fn(A) -> bool) -> (at: Seq<int>)
    ensures
        at.len() == s.filter(p).len(),
        forall|k: int|
            0 <= k < at.len() ==> 0 <= #[trigger] at[k] < s.len() && s[at[k]] == s.filter(p)[k],
        forall|k: int, l: int| 0 <= k < l < at.len() ==> #[trigger] at[k] < #[trigger] at[l],
    decreases s.len(),
{
    reveal(Seq::filter);
    if s.len() == 0 {
        Seq::<int>::empty()
    } else {
        let front = lemma_filter_embeds(s.drop_last(), p);
        if p(s.last()) {
            let at = front.push(s.len() - 1);
            assert forall|k: int| 0 <= k < at.len() implies 0 <= #[trigger] at[k] < s.len()
                && s[at[k]] == s.filter(p)[k] by {
                if k < front.len() {
                    assert(s.drop_last()[front[k]] == s[front[k]]);
                }
            }
            assert forall|k: int, l: int| 0 <= k < l < at.len() implies #[trigger] at[k]
                < #[trigger] at[l] by {
                if l < front.len() {
                } else {
                    assert(0 <= front[k] < s.drop_last().len());
                }
            }
            at
        } else {
            assert forall|k: int| 0 <= k < front.len() implies 0 <= #[trigger] front[k] < s.len()
                && s[front[k]] == s.filter(p)[k] by {
                assert(s.drop_last()[front[k]] == s[front[k]]);
            }
            front
        }
    }
}

/// Filtering rows out keeps the remaining keys apart.
pub proof fn lemma_filter_distinct<A, K>(s: Seq<A>, key: spec_fn(A) -> K, p: spec_fn(A) -> bool)
    requires
        distinct_by(s, key),
    ensures
        distinct_by(s.filter(p), key),
{
    let at = lemma_filter_embeds(s, p);
    let f = s.filter(p);
    assert forall|i: int, j: int| 0 <= i < j < f.len() implies #[trigger] key(f[i])
        != #[trigger] key(f[j]) by {
        assert(at[i] < at[j]);
        assert(key(s[at[i]]) != key(s[at[j]]));
    }
}

/// A key occurs after filtering exactly if some row with that key was kept.
pub proof fn lemma_filter_has_key<A, K>(
    s: Seq<A>,
    key: spec_fn(A) -> K,
    p: spec_fn(A) -> bool,
    k: K,
)
    ensures
        has_key(s.filter(p), key, k) <==> exists|i: int|
            0 <= i < s.len() && #[trigger] key(s[i]) == k && p(s[i]),
{
    let f = s.filter(p);
    let at = lemma_filter_embeds(s, p);
    if has_key(f, key, k) {
        let j = choose|j: int| 0 <= j < f.len() && #[trigger] key(f[j]) == k;
        s.lemma_filter_pred(p, j);
        assert(key(s[at[j]]) == k && p(s[at[j]]));
    }
    if exists|i: int| 0 <= i < s.len() && #[trigger] key(s[i]) == k && p(s[i]) {
        let i = choose|i: int| 0 <= i < s.len() && #[trigger] key(s[i]) == k && p(s[i]);
        s.lemma_filter_contains(p, i);
        let j = choose|j: int| 0 <= j < f.len() && f[j] == s[i];
        assert(key(f[j]) == k);
    }
}

/// Where keys are distinct and the row of `k` was kept, it is still the row
/// of `k` after filtering.
pub proof fn lemma_filter_row_of<A, K>(
    s: Seq<A>,
    key: spec_fn(A) -> K,
    p: spec_fn(A) -> bool,
    k: K,
)
    requires
        distinct_by(s, key),
        has_key(s, key, k),
        p(row_of(s, key, k)),
    ensures
        has_key(s.filter(p), key, k),
        row_of(s.filter(p), key, k) == row_of(s, key, k),
{
    let f = s.filter(p);
    let at = lemma_filter_embeds(s, p);
    let i = choose|i: int| 0 <= i < s.len() && #[trigger] key(s[i]) == k;
    lemma_filter_has_key(s, key, p, k);
    assert(key(s[i]) == k && p(s[i]));
    let j = choose|j: int| 0 <= j < f.len() && #[trigger] key(f[j]) == k;
    lemma_row_of_index(s, key, at[j]);
}

/// Appending a row with a fresh key keeps the keys apart.
pub proof fn lemma_push_distinct<A, K>(s: Seq<A>, key: spec_fn(A) -> K, x: A)
    requires
        distinct_by(s, key),
        !has_key(s, key, key(x)),
    ensures
        distinct_by(s.push(x), key),
{
    let t = s.push(x);
    assert forall|i: int, j: int| 0 <= i < j < t.len() implies #[trigger] key(t[i])
        != #[trigger] key(t[j]) by {
        if j < s.len() {
            assert(key(s[i]) != key(s[j]));
        } else {
            assert(key(s[i]) != key(x));
        }
    }
}

/// After appending `x`, a key occurs if it occurred before or is that of `x`.
pub proof fn lemma_push_has_key<A, K>(s: Seq<A>, key: spec_fn(A) -> K, x: A, k: K)
    ensures
        has_key(s.push(x), key, k) <==> has_key(s, key, k) || key(x) == k,
{
    let t = s.push(x);
    if has_key(t, key, k) {
        let i = choose|i: int| 0 <= i < t.len() && #[trigger] key(t[i]) == k;
        if i < s.len() {
            assert(key(s[i]) == k);
        }
    }
    if has_key(s, key, k) {
        let i = choose|i: int| 0 <= i < s.len() && #[trigger] key(s[i]) == k;
        assert(key(t[i]) == k);
    }
    if key(x) == k {
        assert(key(t[s.len() as int]) == k);
    }
}

/// Rewriting rows in place, each under its old key, keeps the keys that
/// occur and keeps them apart.
pub proof fn lemma_rewrite_keys<A, K>(s: Seq<A>, key: spec_fn(A) -> K, f: spec_fn(A) -> A)
    requires
        forall|x: A| #[trigger] key(f(x)) == key(x),
    ensures
        distinct_by(s, key) ==> distinct_by(s.map_values(f), key),
        forall|k: K| has_key(s.map_values(f), key, k) <==> has_key(s, key, k),
{
    let t = s.map_values(f);
    if distinct_by(s, key) {
        assert forall|i: int, j: int| 0 <= i < j < t.len() implies #[trigger] key(t[i])
            != #[trigger] key(t[j]) by {
            assert(key(s[i]) != key(s[j]));
        }
    }
    assert forall|k: K| has_key(t, key, k) <==> has_key(s, key, k) by {
        if has_key(t, key, k) {
            let i = choose|i: int| 0 <= i < t.len() && #[trigger] key(t[i]) == k;
            assert(key(s[i]) == k);
        }
        if has_key(s, key, k) {
            let i = choose|i: int| 0 <= i < s.len() && #[trigger] key(s[i]) == k;
            assert(key(t[i]) == k);
        }
    }
}

/// Where keys are distinct, the row of `k` after rewriting is the rewritten
/// row of `k`.
pub proof fn lemma_rewrite_row_of<A, K>(
    s: Seq<A>,
    key: spec_fn(A) -> K,
    f: spec_fn(A) -> A,
    k: K,
)
    requires
        forall|x: A| #[trigger] key(f(x)) == key(x),
        distinct_by(s, key),
        has_key(s, key, k),
    ensures
        row_of(s.map_values(f), key, k) == f(row_of(s, key, k)),
{
    let t = s.map_values(f);
    lemma_rewrite_keys(s, key, f);
    let i = choose|i: int| 0 <= i < s.len() && #[trigger] key(s[i]) == k;
    assert(key(t[i]) == k);
    lemma_row_of_index(t, key, i);
}

/// Where keys are distinct and a rewrite touches only the rows of one key,
/// rewriting every row is replacing the one row of that key.
pub proof fn lemma_rewrite_one<A, K>(s: Seq<A>, key: spec_fn(A) -> K, f: spec_fn(A) -> A, i: int)
    requires
        distinct_by(s, key),
        0 <= i < s.len(),
        forall|x: A| key(x) != key(s[i]) ==> #[trigger] f(x) == x,
    ensures
        s.map_values(f) == s.update(i, f(s[i])),
{
    assert forall|j: int| 0 <= j < s.len() implies #[trigger] s.map_values(f)[j] == s.update(
        i,
        f(s[i]),
    )[j] by {
        if j < i {
            assert(key(s[j]) != key(s[i]));
        } else if i < j {
            assert(key(s[i]) != key(s[j]));
        }
    }
    assert(s.map_values(f) =~= s.update(i, f(s[i])));
}

/// A rewrite that touches only the rows of a key that does not occur
/// changes nothing.
pub proof fn lemma_rewrite_none<A, K>(s: Seq<A>, key: spec_fn(A) -> K, f: spec_fn(A) -> A, k: K)
    requires
        !has_key(s, key, k),
        forall|x: A| key(x) != k ==> #[trigger] f(x) == x,
    ensures
        s.map_values(f) == s,
{
    assert forall|j: int| 0 <= j < s.len() implies #[trigger] s.map_values(f)[j] == s[j] by {
        assert(key(s[j]) != k);
    }
    assert(s.map_values(f) =~= s);
}

/// A filter that every row passes keeps the sequence as it is.
pub proof fn lemma_filter_keeps_all<A>(s: Seq<A>, p: spec_fn(A) -> bool)
    requires
        forall|i: int| 0 <= i < s.len() ==> p(#[trigger] s[i]),
    ensures
        s.filter(p) == s,
    decreases s.len(),
{
    reveal(Seq::filter);
    if s.len() > 0 {
        assert forall|i: int| 0 <= i < s.drop_last().len() implies p(#[trigger] s.drop_last()[i]) by {
            assert(s.drop_last()[i] == s[i]);
        }
        lemma_filter_keeps_all(s.drop_last(), p);
        assert(p(s[s.len() - 1]));
        assert(s.drop_last().push(s.last()) =~= s);
    }
}

/// A filter keeps something exactly if some row passes it.
pub proof fn lemma_filter_nonempty<A>(s: Seq<A>, p: spec_fn(A) -> bool)
    ensures
        s.filter(p).len() > 0 <==> exists|i: int| 0 <= i < s.len() && p(#[trigger] s[i]),
{
    let at = lemma_filter_embeds(s, p);
    if s.filter(p).len() > 0 {
        s.lemma_filter_pred(p, 0);
        assert(p(s[at[0]]));
    }
    if exists|i: int| 0 <= i < s.len() && p(#[trigger] s[i]) {
        let i = choose|i: int| 0 <= i < s.len() && p(#[trigger] s[i]);
        s.lemma_filter_contains(p, i);
    }
}

/// Where no key occurs twice, at most one row has a given key, and exactly
/// one where the key occurs.
pub proof fn lemma_filter_single<A, K>(s: Seq<A>, key: spec_fn(A) -> K, p: spec_fn(A) -> bool, k: K)
    requires
        distinct_by(s, key),
        forall|x: A| #[trigger] p(x) <==> key(x) == k,
    ensures
        s.filter(p).len() == if has_key(s, key, k) {
            1nat
        } else {
            0nat
        },
{
    let at = lemma_filter_embeds(s, p);
    if s.filter(p).len() > 1 {
        s.lemma_filter_pred(p, 0);
        s.lemma_filter_pred(p, 1);
        assert(at[0] < at[1]);
        assert(key(s[at[0]]) == k && key(s[at[1]]) == k);
    }
    if s.filter(p).len() > 0 {
        s.lemma_filter_pred(p, 0);
        assert(key(s[at[0]]) == k);
    }
    if has_key(s, key, k) {
        let i = choose|i: int| 0 <= i < s.len() && #[trigger] key(s[i]) == k;
        s.lemma_filter_contains(p, i);
    }
}

/// The first `n + 1` rows are the first `n` rows and the row at `n`.
pub proof fn lemma_take_next<A>(s: Seq<A>, n: int)
    requires
        0 <= n < s.len(),
    ensures
        s.take(n + 1) == s.take(n).push(s[n]),
{
    assert(s.take(n + 1) =~= s.take(n).push(s[n]));
}

/// All rows are the first `len` rows; no rows are the first none.
pub proof fn lemma_take_next_all<A>(s: Seq<A>)
    ensures
        s.take(s.len() as int) == s,
        s.take(0) == Seq::<A>::empty(),
{
    assert(s.take(s.len() as int) =~= s);
    assert(s.take(0) =~= Seq::<A>::empty());
}

} // verus!
