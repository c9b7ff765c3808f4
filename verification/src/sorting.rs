//! Stable ordering of operator entries by a key of two numbers and a byte
//! string, and removal of adjacent entries with equal keys.
use vstd::prelude::*;
use vstd::multiset::Multiset;

verus! {

broadcast use {vstd::seq_lib::group_seq_properties, vstd::multiset::group_multiset_axioms};

/// Lexicographic order on byte strings, as `Ord` for `str` and `[u8]` defines it.
pub open spec fn bytes_lt(a: Seq<u8>, b: Seq<u8>) -> bool
    decreases a.len(),
{
    if a.len() == 0 {
        b.len() > 0
    } else if b.len() == 0 {
        false
    } else if a[0] != b[0] {
        a[0] < b[0]
    } else {
        bytes_lt(a.drop_first(), b.drop_first())
    }
}

/// A sort key: compared by `rank`, then `order`, then `text`.
#[derive(Clone, Debug)]
pub struct SortKey {
    pub rank: u64,
    pub order: u64,
    pub text: Vec<u8>,
}

/// The contents of a sort key.
pub open spec fn key_view(k: SortKey) -> KeyView {
    (k.rank, k.order, k.text@)
}

/// The strict order on key contents.
pub open spec fn key_lt(a: KeyView, b: KeyView) -> bool {
    ||| a.0 < b.0
    ||| (a.0 == b.0 && a.1 < b.1)
    ||| (a.0 == b.0 && a.1 == b.1 && bytes_lt(a.2, b.2))
}

/// The contents of a sort key.
pub type KeyView = (u64, u64, Seq<u8>);

/// Whether entry `a` sorts strictly before entry `b`.
pub open spec fn entry_lt<V>(a: (KeyView, V), b: (KeyView, V)) -> bool {
    key_lt(a.0, b.0)
}

/// The contents of keyed entries.
pub open spec fn entry_views<T: DeepView>(s: Seq<(SortKey, T)>) -> Seq<(KeyView, T::V)> {
    s.map_values(|e: (SortKey, T)| (key_view(e.0), e.1.deep_view()))
}

/// Inserts `x` after every entry that does not sort strictly after it.
pub open spec fn insert_sorted<V>(s: Seq<(KeyView, V)>, x: (KeyView, V)) -> Seq<(KeyView, V)>
    decreases s.len(),
{
    if s.len() == 0 {
        seq![x]
    } else if entry_lt(x, s.last()) {
        insert_sorted(s.drop_last(), x).push(s.last())
    } else {
        s.push(x)
    }
}

/// Stable insertion sort by key.
pub open spec fn sort_entries<V>(s: Seq<(KeyView, V)>) -> Seq<(KeyView, V)>
    decreases s.len(),
{
    if s.len() == 0 {
        s
    } else {
        insert_sorted(sort_entries(s.drop_last()), s.last())
    }
}

/// Compares byte strings lexicographically.
pub fn bytes_less(a: &[u8], b: &[u8]) -> (r: bool)
    ensures
        r == bytes_lt(a@, b@),
{
    let mut i: usize = 0;
    assert(a@.subrange(0, a@.len() as int) =~= a@);
    assert(b@.subrange(0, b@.len() as int) =~= b@);
    while i < a.len() && i < b.len()
        invariant
            i <= a@.len(),
            i <= b@.len(),
            bytes_lt(a@, b@) == bytes_lt(a@.subrange(i as int, a@.len() as int), b@.subrange(
                i as int,
                b@.len() as int,
            )),
        decreases a@.len() - i,
    {
        let ghost sa = a@.subrange(i as int, a@.len() as int);
        let ghost sb = b@.subrange(i as int, b@.len() as int);
        assert(sa[0] == a@[i as int]);
        assert(sb[0] == b@[i as int]);
        if a[i] != b[i] {
            return a[i] < b[i];
        }
        assert(sa.drop_first() =~= a@.subrange(i + 1, a@.len() as int));
        assert(sb.drop_first() =~= b@.subrange(i + 1, b@.len() as int));
        i = i + 1;
    }
    i < b.len()
}

/// Whether key `a` sorts strictly before key `b`.
pub fn key_less(a: &SortKey, b: &SortKey) -> (r: bool)
    ensures
        r == key_lt(key_view(*a), key_view(*b)),
{
    if a.rank != b.rank {
        a.rank < b.rank
    } else if a.order != b.order {
        a.order < b.order
    } else {
        bytes_less(a.text.as_slice(), b.text.as_slice())
    }
}

proof fn lemma_insert_sorted_at<V>(s: Seq<(KeyView, V)>, x: (KeyView, V), j: int)
    requires
        0 <= j <= s.len(),
        forall|k: int| j <= k < s.len() ==> entry_lt(x, #[trigger] s[k]),
        j == 0 || !entry_lt(x, s[j - 1]),
    ensures
        insert_sorted(s, x) == s.insert(j, x),
    decreases s.len(),
{
    if s.len() == 0 {
        assert(s.insert(j, x) =~= seq![x]);
    } else if j < s.len() {
        assert(entry_lt(x, s[s.len() - 1]));
        let prev = s.drop_last();
        assert forall|k: int| j <= k < prev.len() implies entry_lt(x, #[trigger] prev[k]) by {
            assert(prev[k] == s[k]);
        }
        if j > 0 {
            assert(prev[j - 1] == s[j - 1]);
        }
        lemma_insert_sorted_at(prev, x, j);
        assert(prev.insert(j, x).push(s.last()) =~= s.insert(j, x));
    } else {
        assert(!entry_lt(x, s.last()));
        assert(s.push(x) =~= s.insert(j, x));
    }
}

/// Sorts entries by key, keeping entries with equal keys in their original order.
pub fn sort_by_key<T: DeepView>(entries: Vec<(SortKey, T)>) -> (r: Vec<(SortKey, T)>)
    ensures
        entry_views(r@) == sort_entries(entry_views(entries@)),
{
    let ghost input = entry_views(entries@);
    let mut rest = entries;
    let mut out: Vec<(SortKey, T)> = Vec::new();
    let mut taken: usize = 0;
    let total = rest.len();
    assert(input.subrange(0, 0) =~= Seq::<(KeyView, T::V)>::empty());
    assert(entry_views(out@) =~= Seq::<(KeyView, T::V)>::empty());
    while rest.len() > 0
        invariant
            total == input.len(),
            taken + rest@.len() == input.len(),
            entry_views(rest@) == input.subrange(taken as int, input.len() as int),
            entry_views(out@) == sort_entries(input.subrange(0, taken as int)),
        decreases rest@.len(),
    {
        let ghost before_rest = rest@;
        let x = rest.remove(0);
        let ghost xv = (key_view(x.0), x.1.deep_view());
        assert(entry_views(before_rest)[0] == xv);
        assert(xv == input[taken as int]);
        let mut j = out.len();
        while j > 0 && key_less(&x.0, &out[j - 1].0)
            invariant
                j <= out@.len(),
                xv == (key_view(x.0), x.1.deep_view()),
                forall|k: int| j <= k < out@.len() ==> entry_lt(xv, #[trigger] entry_views(out@)[k]),
            decreases j,
        {
            assert(entry_views(out@)[j - 1] == (key_view(out@[j - 1].0), out@[j - 1].1.deep_view()));
            j = j - 1;
        }
        let ghost before_out = out@;
        proof {
            if j > 0 {
                assert(entry_views(out@)[j - 1] == (key_view(out@[j - 1].0), out@[j - 1].1.deep_view()));
            }
            lemma_insert_sorted_at(entry_views(out@), xv, j as int);
            let prefix = input.subrange(0, taken + 1);
            assert(prefix.drop_last() =~= input.subrange(0, taken as int));
            assert(prefix.last() == xv);
        }
        out.insert(j, x);
        assert(entry_views(out@) =~= entry_views(before_out).insert(j as int, xv));
        proof {
            assert forall|k: int| 0 <= k < rest@.len() implies #[trigger] entry_views(rest@)[k]
                == input[taken + 1 + k] by {
                assert(rest@[k] == before_rest[k + 1]);
                assert(entry_views(before_rest)[k + 1] == input[taken + k + 1]);
            }
        }
        taken = taken + 1;
        assert(entry_views(rest@) =~= input.subrange(taken as int, input.len() as int));
    }
    assert(input.subrange(0, taken as int) =~= input);
    out
}

/// Removes each entry whose key equals that of the entry kept before it.
pub open spec fn dedup_entries<V>(s: Seq<(KeyView, V)>) -> Seq<(KeyView, V)>
    decreases s.len(),
{
    if s.len() <= 1 {
        s
    } else {
        let kept = dedup_entries(s.drop_last());
        if kept.last().0 == s.last().0 {
            kept
        } else {
            kept.push(s.last())
        }
    }
}

proof fn lemma_dedup_nonempty<V>(s: Seq<(KeyView, V)>)
    ensures
        s.len() > 0 ==> dedup_entries(s).len() > 0,
    decreases s.len(),
{
    if s.len() > 1 {
        lemma_dedup_nonempty(s.drop_last());
    }
}

/// Keeps the first of each run of adjacent entries with equal keys.
pub fn dedup_by_key<T: DeepView>(entries: Vec<(SortKey, T)>) -> (r: Vec<(SortKey, T)>)
    ensures
        entry_views(r@) == dedup_entries(entry_views(entries@)),
{
    let ghost input = entry_views(entries@);
    let mut rest = entries;
    let mut out: Vec<(SortKey, T)> = Vec::new();
    let mut taken: usize = 0;
    let total = rest.len();
    assert(input.subrange(0, 0) =~= Seq::<(KeyView, T::V)>::empty());
    assert(entry_views(out@) =~= Seq::<(KeyView, T::V)>::empty());
    while rest.len() > 0
        invariant
            total == input.len(),
            taken + rest@.len() == input.len(),
            entry_views(rest@) == input.subrange(taken as int, input.len() as int),
            entry_views(out@) == dedup_entries(input.subrange(0, taken as int)),
        decreases rest@.len(),
    {
        let ghost before_rest = rest@;
        let x = rest.remove(0);
        let ghost xv = (key_view(x.0), x.1.deep_view());
        assert(entry_views(before_rest)[0] == xv);
        assert(xv == input[taken as int]);
        let ghost prefix = input.subrange(0, taken + 1);
        assert(prefix.drop_last() =~= input.subrange(0, taken as int));
        proof {
            lemma_dedup_nonempty(input.subrange(0, taken as int));
        }
        let ghost before_out = out@;
        if out.len() == 0 {
            assert(taken == 0);
            assert(prefix =~= seq![xv]);
            out.push(x);
            assert(entry_views(out@) =~= seq![xv]);
        } else {
            let last = out.len() - 1;
            let same = key_equal(&out[last].0, &x.0);
            assert(entry_views(before_out)[last as int].0 == key_view(out@[last as int].0));
            if !same {
                out.push(x);
                assert(entry_views(out@) =~= entry_views(before_out).push(xv));
            }
        }
        proof {
            assert forall|k: int| 0 <= k < rest@.len() implies #[trigger] entry_views(rest@)[k]
                == input[taken + 1 + k] by {
                assert(rest@[k] == before_rest[k + 1]);
                assert(entry_views(before_rest)[k + 1] == input[taken + k + 1]);
            }
        }
        taken = taken + 1;
        assert(entry_views(rest@) =~= input.subrange(taken as int, input.len() as int));
    }
    assert(input.subrange(0, taken as int) =~= input);
    out
}

/// Whether two keys hold the same contents.
pub fn key_equal(a: &SortKey, b: &SortKey) -> (r: bool)
    ensures
        r == (key_view(*a) == key_view(*b)),
{
    a.rank == b.rank && a.order == b.order && crate::text::bytes_equal(
        a.text.as_slice(),
        b.text.as_slice(),
    )
}

// ----- order laws -----

/// Byte order is irreflexive.
pub proof fn lemma_bytes_lt_irreflexive(a: Seq<u8>)
    ensures
        !bytes_lt(a, a),
    decreases a.len(),
{
    if a.len() > 0 {
        lemma_bytes_lt_irreflexive(a.drop_first());
    }
}

/// Byte order is transitive.
pub proof fn lemma_bytes_lt_transitive(a: Seq<u8>, b: Seq<u8>, c: Seq<u8>)
    requires
        bytes_lt(a, b),
        bytes_lt(b, c),
    ensures
        bytes_lt(a, c),
    decreases a.len(),
{
    if a.len() > 0 && b.len() > 0 && c.len() > 0 && a[0] == b[0] && b[0] == c[0] {
        lemma_bytes_lt_transitive(a.drop_first(), b.drop_first(), c.drop_first());
    }
}

/// Byte order is total.
pub proof fn lemma_bytes_lt_total(a: Seq<u8>, b: Seq<u8>)
    ensures
        bytes_lt(a, b) || bytes_lt(b, a) || a == b,
    decreases a.len(),
{
    if a.len() > 0 && b.len() > 0 && a[0] == b[0] {
        lemma_bytes_lt_total(a.drop_first(), b.drop_first());
        if a.drop_first() == b.drop_first() {
            assert(a =~= seq![a[0]] + a.drop_first());
            assert(b =~= seq![b[0]] + b.drop_first());
        }
    } else if a.len() == 0 && b.len() == 0 {
        assert(a =~= b);
    }
}

/// Key order is a strict total order on key contents.
pub proof fn lemma_key_order(a: KeyView, b: KeyView, c: KeyView)
    ensures
        !key_lt(a, a),
        key_lt(a, b) && key_lt(b, c) ==> key_lt(a, c),
        key_lt(a, b) || key_lt(b, a) || a == b,
{
    lemma_bytes_lt_irreflexive(a.2);
    if key_lt(a, b) && key_lt(b, c) && a.0 == b.0 && b.0 == c.0 && a.1 == b.1 && b.1 == c.1 {
        lemma_bytes_lt_transitive(a.2, b.2, c.2);
    }
    lemma_bytes_lt_total(a.2, b.2);
}

/// Entries whose keys never decrease.
pub open spec fn keys_nondecreasing<V>(s: Seq<(KeyView, V)>) -> bool {
    forall|i: int, j: int| 0 <= i < j < s.len() ==> !entry_lt(#[trigger] s[j], #[trigger] s[i])
}

/// Entries whose keys strictly increase.
pub open spec fn keys_increasing<V>(s: Seq<(KeyView, V)>) -> bool {
    forall|i: int, j: int| 0 <= i < j < s.len() ==> entry_lt(#[trigger] s[i], #[trigger] s[j])
}

proof fn lemma_insert_sorted_props<V>(s: Seq<(KeyView, V)>, x: (KeyView, V))
    requires
        keys_nondecreasing(s),
    ensures
        keys_nondecreasing(insert_sorted(s, x)),
        insert_sorted(s, x).to_multiset() == s.to_multiset().insert(x),
        insert_sorted(s, x).len() == s.len() + 1,
        forall|k: int|
            0 <= k < insert_sorted(s, x).len() ==> #[trigger] insert_sorted(s, x)[k] == x
                || s.contains(insert_sorted(s, x)[k]),
    decreases s.len(),
{
    if s.len() == 0 {
        assert(seq![x] =~= Seq::<(KeyView, V)>::empty().push(x));
    } else {
        let prev = s.drop_last();
        let last = s.last();
        assert forall|i: int, j: int| 0 <= i < j < prev.len() implies !entry_lt(
            #[trigger] prev[j],
            #[trigger] prev[i],
        ) by {
            assert(prev[i] == s[i] && prev[j] == s[j]);
        }
        assert(s =~= prev.push(last));
        if entry_lt(x, last) {
            lemma_insert_sorted_props(prev, x);
            let ins = insert_sorted(prev, x);
            let res = ins.push(last);
            assert forall|k: int| 0 <= k < res.len() implies #[trigger] res[k] == x || s.contains(
                res[k],
            ) by {
                if k < ins.len() {
                    assert(res[k] == ins[k]);
                    if ins[k] != x {
                        let m = choose|m: int| 0 <= m < prev.len() && prev[m] == ins[k];
                        assert(s[m] == prev[m]);
                    }
                } else {
                    assert(s[s.len() - 1] == last);
                }
            }
            assert forall|i: int, j: int| 0 <= i < j < res.len() implies !entry_lt(
                #[trigger] res[j],
                #[trigger] res[i],
            ) by {
                if j == res.len() - 1 {
                    let e = ins[i];
                    assert(res[i] == e);
                    assert(res[j] == last);
                    if e == x {
                        lemma_key_order(x.0, last.0, x.0);
                    } else {
                        let m = choose|m: int| 0 <= m < prev.len() && prev[m] == e;
                        assert(s[m] == e);
                        assert(m < s.len() - 1);
                        assert(!entry_lt(s[s.len() - 1], s[m]));
                    }
                } else {
                    assert(res[i] == ins[i] && res[j] == ins[j]);
                }
            }
            ins.to_multiset_ensures();
            prev.to_multiset_ensures();
        } else {
            let res = s.push(x);
            assert forall|k: int| 0 <= k < res.len() implies #[trigger] res[k] == x || s.contains(
                res[k],
            ) by {
                if k < s.len() {
                    assert(res[k] == s[k]);
                }
            }
            assert forall|i: int, j: int| 0 <= i < j < res.len() implies !entry_lt(
                #[trigger] res[j],
                #[trigger] res[i],
            ) by {
                if j == res.len() - 1 {
                    assert(res[j] == x);
                    assert(res[i] == s[i]);
                    if i < s.len() - 1 {
                        assert(!entry_lt(s[s.len() - 1], s[i]));
                        lemma_key_order(x.0, s[i].0, last.0);
                        lemma_key_order(last.0, s[i].0, x.0);
                        lemma_key_order(x.0, last.0, s[i].0);
                    }
                } else {
                    assert(res[i] == s[i] && res[j] == s[j]);
                }
            }
            s.to_multiset_ensures();
        }
    }
}

/// Sorting yields entries in key order holding exactly the given entries.
pub proof fn lemma_sort_entries<V>(s: Seq<(KeyView, V)>)
    ensures
        keys_nondecreasing(sort_entries(s)),
        sort_entries(s).to_multiset() == s.to_multiset(),
        sort_entries(s).len() == s.len(),
    decreases s.len(),
{
    if s.len() > 0 {
        lemma_sort_entries(s.drop_last());
        lemma_insert_sorted_props(sort_entries(s.drop_last()), s.last());
        assert(s =~= s.drop_last().push(s.last()));
        s.drop_last().to_multiset_ensures();
    } else {
        assert(s.to_multiset() =~= Multiset::empty());
    }
}

/// The values of keyed entries, in order.
pub open spec fn entry_values<V>(s: Seq<(KeyView, V)>) -> Seq<V> {
    s.map_values(|e: (KeyView, V)| e.1)
}

/// Drops the keys of keyed entries, keeping their values in order.
pub fn strip_keys<T: DeepView>(entries: Vec<(SortKey, T)>) -> (r: Vec<T>)
    ensures
        r.deep_view() == entry_values(entry_views(entries@)),
{
    let ghost u = entry_views(entries@);
    let mut rest = entries;
    let mut out: Vec<T> = Vec::new();
    let mut done: usize = 0;
    let count = rest.len();
    assert(entry_values(u.subrange(0, 0)) =~= out.deep_view());
    while rest.len() > 0
        invariant
            count == u.len(),
            done + rest@.len() == u.len(),
            entry_views(rest@) == u.subrange(done as int, u.len() as int),
            out.deep_view() == entry_values(u.subrange(0, done as int)),
        decreases rest@.len(),
    {
        let ghost before_rest = rest@;
        let e = rest.remove(0);
        assert(entry_views(before_rest)[0] == u[done as int]);
        crate::values::push_value(&mut out, e.1);
        assert(out.deep_view() =~= entry_values(u.subrange(0, done + 1)));
        proof {
            assert forall|k: int| 0 <= k < rest@.len() implies #[trigger] entry_views(rest@)[k]
                == u[done + 1 + k] by {
                assert(rest@[k] == before_rest[k + 1]);
                assert(entry_views(before_rest)[k + 1] == u[done + 1 + k]);
            }
        }
        done = done + 1;
        assert(entry_views(rest@) =~= u.subrange(done as int, u.len() as int));
    }
    assert(u.subrange(0, done as int) =~= u);
    out
}

/// Whether some entry has key `k`.
pub open spec fn has_key<V>(s: Seq<(KeyView, V)>, k: KeyView) -> bool {
    exists|j: int| 0 <= j < s.len() && (#[trigger] s[j]).0 == k
}

/// Keeping the first of each run of equal keys in entries whose keys never
/// decrease leaves entries whose keys strictly increase, drawn from the
/// input, with every key of the input still present.
pub proof fn lemma_dedup_entries<V>(s: Seq<(KeyView, V)>)
    requires
        keys_nondecreasing(s),
    ensures
        keys_increasing(dedup_entries(s)),
        forall|x: (KeyView, V)| #[trigger] dedup_entries(s).contains(x) ==> s.contains(x),
        forall|i: int| 0 <= i < s.len() ==> has_key(dedup_entries(s), (#[trigger] s[i]).0),
    decreases s.len(),
{
    if s.len() == 0 {
    } else if s.len() == 1 {
        assert(dedup_entries(s) == s);
        assert forall|i: int| 0 <= i < s.len() implies has_key(dedup_entries(s), (#[trigger] s[i]).0) by {
            assert(dedup_entries(s)[i].0 == s[i].0);
        }
    } else if s.len() > 1 {
        let prev = s.drop_last();
        let last = s.last();
        assert forall|i: int, j: int| 0 <= i < j < prev.len() implies !entry_lt(
            #[trigger] prev[j],
            #[trigger] prev[i],
        ) by {
            assert(prev[i] == s[i] && prev[j] == s[j]);
        }
        lemma_dedup_entries(prev);
        lemma_dedup_nonempty(prev);
        let kept = dedup_entries(prev);
        let top = kept.last();
        assert(kept.contains(top)) by {
            assert(kept[kept.len() - 1] == top);
        }
        assert(prev.contains(top));
        let m = choose|m: int| 0 <= m < prev.len() && prev[m] == top;
        assert(s[m] == top);
        assert(!entry_lt(s[s.len() - 1], s[m]));
        assert(s[s.len() - 1] == last);
        assert forall|x: (KeyView, V)| #[trigger] dedup_entries(s).contains(x) implies s.contains(
            x,
        ) by {
            let k = choose|k: int| 0 <= k < dedup_entries(s).len() && dedup_entries(s)[k] == x;
            if k < kept.len() && dedup_entries(s)[k] == kept[k] {
                assert(kept.contains(x));
                assert(prev.contains(x));
                let n = choose|n: int| 0 <= n < prev.len() && prev[n] == x;
                assert(s[n] == x);
            } else {
                assert(x == last);
                assert(s[s.len() - 1] == x);
            }
        }
        if kept.last().0 == last.0 {
            assert forall|i: int| 0 <= i < s.len() implies has_key(dedup_entries(s), (#[trigger] s[i]).0) by {
                if i < prev.len() {
                    assert(prev[i] == s[i]);
                    assert(has_key(kept, prev[i].0));
                    let j = choose|j: int| 0 <= j < kept.len() && (#[trigger] kept[j]).0 == prev[i].0;
                    assert(dedup_entries(s)[j] == kept[j]);
                } else {
                    assert(dedup_entries(s)[kept.len() - 1] == top);
                }
            }
            assert(dedup_entries(s) == kept);
        } else {
            let res = kept.push(last);
            assert(dedup_entries(s) == res);
            lemma_key_order(top.0, last.0, top.0);
            assert(entry_lt(top, last));
            assert forall|i: int, j: int| 0 <= i < j < res.len() implies entry_lt(
                #[trigger] res[i],
                #[trigger] res[j],
            ) by {
                if j == res.len() - 1 {
                    assert(res[j] == last);
                    assert(res[i] == kept[i]);
                    if i < kept.len() - 1 {
                        assert(entry_lt(kept[i], kept[kept.len() - 1]));
                        lemma_key_order(kept[i].0, top.0, last.0);
                    }
                } else {
                    assert(res[i] == kept[i] && res[j] == kept[j]);
                }
            }
            assert forall|i: int| 0 <= i < s.len() implies has_key(dedup_entries(s), (#[trigger] s[i]).0) by {
                if i < prev.len() {
                    assert(prev[i] == s[i]);
                    assert(has_key(kept, prev[i].0));
                    let j = choose|j: int| 0 <= j < kept.len() && (#[trigger] kept[j]).0 == prev[i].0;
                    assert(res[j] == kept[j]);
                } else {
                    assert(res[kept.len() as int] == last);
                }
            }
        }
    }
}

/// Sorting then keeping the first of each run of equal keys leaves entries
/// with strictly increasing keys, each drawn from the input, with every key
/// of the input present.
pub proof fn lemma_sorted_unique_entries<V>(s: Seq<(KeyView, V)>)
    ensures
        keys_increasing(dedup_entries(sort_entries(s))),
        forall|x: (KeyView, V)| #[trigger] dedup_entries(sort_entries(s)).contains(x) ==> s.contains(x),
        forall|i: int| 0 <= i < s.len() ==> has_key(dedup_entries(sort_entries(s)), (#[trigger] s[i]).0),
{
    let sorted = sort_entries(s);
    lemma_sort_entries(s);
    lemma_dedup_entries(sorted);
    assert forall|x: (KeyView, V)| #[trigger] dedup_entries(sorted).contains(x) implies s.contains(x) by {
        assert(sorted.contains(x));
        sorted.to_multiset_ensures();
        s.to_multiset_ensures();
        assert(sorted.to_multiset().count(x) > 0);
        assert(s.to_multiset().count(x) > 0);
    }
    assert forall|i: int| 0 <= i < s.len() implies has_key(dedup_entries(sorted), (#[trigger] s[i]).0) by {
        s.to_multiset_ensures();
        sorted.to_multiset_ensures();
        assert(s.contains(s[i]));
        assert(s.to_multiset().count(s[i]) > 0);
        assert(sorted.to_multiset().count(s[i]) > 0);
        assert(sorted.contains(s[i]));
        let k = choose|k: int| 0 <= k < sorted.len() && sorted[k] == s[i];
        assert(sorted[k].0 == s[i].0);
        assert(has_key(dedup_entries(sorted), sorted[k].0));
    }
}

} // verus!
