//! Copying and comparing operator values by what they hold, and the
//! duplicate-free merges that the operator views are assembled with.
use vstd::prelude::*;

use crate::text::str_equal;

verus! {

/// Values that can be copied and compared by their contents.
pub trait OperatorValue: Sized + DeepView {
    /// A copy holding the same contents.
    fn duplicate(&self) -> (r: Self)
        ensures
            r.deep_view() == self.deep_view(),
    ;

    /// Whether both values hold the same contents.
    fn same_value(&self, other: &Self) -> (r: bool)
        ensures
            r == (self.deep_view() == other.deep_view()),
    ;
}

impl OperatorValue for String {
    fn duplicate(&self) -> (r: Self) {
        self.clone()
    }

    fn same_value(&self, other: &Self) -> (r: bool) {
        str_equal(self.as_str(), other.as_str())
    }
}

impl<T: OperatorValue> OperatorValue for Option<T> {
    fn duplicate(&self) -> (r: Self) {
        match self {
            Some(v) => Some(v.duplicate()),
            None => None,
        }
    }

    fn same_value(&self, other: &Self) -> (r: bool) {
        match (self, other) {
            (Some(a), Some(b)) => a.same_value(b),
            (None, None) => true,
            _ => false,
        }
    }
}

impl<T: OperatorValue> OperatorValue for Vec<T> {
    fn duplicate(&self) -> (r: Self) {
        duplicate_all(self)
    }

    fn same_value(&self, other: &Self) -> (r: bool) {
        if self.len() != other.len() {
            assert(self.deep_view().len() != other.deep_view().len());
            return false;
        }
        let mut i: usize = 0;
        while i < self.len()
            invariant
                self@.len() == other@.len(),
                i <= self@.len(),
                forall|j: int| 0 <= j < i ==> self@[j].deep_view() == other@[j].deep_view(),
            decreases self@.len() - i,
        {
            if !self[i].same_value(&other[i]) {
                assert(self.deep_view()[i as int] != other.deep_view()[i as int]);
                return false;
            }
            i = i + 1;
        }
        assert(self.deep_view() =~= other.deep_view());
        true
    }
}

/// Copies every element.
pub fn duplicate_all<T: OperatorValue>(values: &Vec<T>) -> (r: Vec<T>)
    ensures
        r.deep_view() == values.deep_view(),
{
    let mut out: Vec<T> = Vec::new();
    let mut i: usize = 0;
    while i < values.len()
        invariant
            i <= values@.len(),
            out@.len() == i,
            out.deep_view() == values.deep_view().subrange(0, i as int),
        decreases values@.len() - i,
    {
        let v = values[i].duplicate();
        let ghost before = out@;
        let ghost before_deep = out.deep_view();
        out.push(v);
        assert forall|j: int| 0 <= j < i + 1 implies #[trigger] out.deep_view()[j]
            == values.deep_view()[j] by {
            if j < i {
                assert(out@[j] == before[j]);
                assert(before_deep[j] == before[j].deep_view());
            }
        }
        assert(out.deep_view() =~= values.deep_view().subrange(0, i + 1));
        i = i + 1;
    }
    assert(values.deep_view().subrange(0, i as int) =~= values.deep_view());
    out
}

/// Whether `values` holds an element with the same contents as `needle`.
pub fn contains_value<T: OperatorValue>(values: &Vec<T>, needle: &T) -> (r: bool)
    ensures
        r == values.deep_view().contains(needle.deep_view()),
{
    let mut i: usize = 0;
    while i < values.len()
        invariant
            i <= values@.len(),
            forall|j: int| 0 <= j < i ==> values.deep_view()[j] != needle.deep_view(),
        decreases values@.len() - i,
    {
        if values[i].same_value(needle) {
            assert(values.deep_view()[i as int] == needle.deep_view());
            return true;
        }
        i = i + 1;
    }
    false
}

/// `base` extended by the elements of `extra` it does not hold yet, in order,
/// each added once.
pub open spec fn merge_unique<V>(base: Seq<V>, extra: Seq<V>) -> Seq<V>
    decreases extra.len(),
{
    if extra.len() == 0 {
        base
    } else {
        let merged = merge_unique(base, extra.drop_last());
        if merged.contains(extra.last()) {
            merged
        } else {
            merged.push(extra.last())
        }
    }
}

/// Appends `value` unless an element with the same contents is present.
pub fn push_unique_value<T: OperatorValue>(target: &mut Vec<T>, value: T)
    ensures
        final(target).deep_view() == (if old(target).deep_view().contains(value.deep_view()) {
            old(target).deep_view()
        } else {
            old(target).deep_view().push(value.deep_view())
        }),
{
    if !contains_value(target, &value) {
        target.push(value);
        assert(target.deep_view() =~= old(target).deep_view().push(value.deep_view()));
    }
}

/// Appends copies of the elements of `extra` that `target` does not hold yet.
pub fn extend_unique<T: OperatorValue>(target: &mut Vec<T>, extra: &Vec<T>)
    ensures
        final(target).deep_view() == merge_unique(old(target).deep_view(), extra.deep_view()),
{
    let ghost base = target.deep_view();
    let mut i: usize = 0;
    while i < extra.len()
        invariant
            i <= extra@.len(),
            base == old(target).deep_view(),
            target.deep_view() == merge_unique(base, extra.deep_view().subrange(0, i as int)),
        decreases extra@.len() - i,
    {
        let v = extra[i].duplicate();
        let ghost prefix = extra.deep_view().subrange(0, i + 1);
        assert(prefix.drop_last() =~= extra.deep_view().subrange(0, i as int));
        assert(prefix.last() == extra.deep_view()[i as int]);
        push_unique_value(target, v);
        i = i + 1;
    }
    assert(extra.deep_view().subrange(0, i as int) =~= extra.deep_view());
}

/// Merging keeps the base as a prefix and adds nothing twice that was not
/// already repeated in the base.
pub proof fn lemma_merge_unique_properties<V>(base: Seq<V>, extra: Seq<V>)
    ensures
        base.is_prefix_of(merge_unique(base, extra)),
        forall|x: V| #[trigger] merge_unique(base, extra).contains(x) <==> (base.contains(x)
            || extra.contains(x)),
        base.no_duplicates() ==> merge_unique(base, extra).no_duplicates(),
    decreases extra.len(),
{
    if extra.len() > 0 {
        let prev = extra.drop_last();
        lemma_merge_unique_properties(base, prev);
        let merged = merge_unique(base, prev);
        let x = extra.last();
        assert forall|y: V| #[trigger] merge_unique(base, extra).contains(y) <==> (base.contains(y)
            || extra.contains(y)) by {
            if extra.contains(y) && !prev.contains(y) {
                let k = choose|k: int| 0 <= k < extra.len() && extra[k] == y;
                if k < extra.len() - 1 {
                    assert(prev[k] == y);
                }
            }
            if prev.contains(y) {
                let k = choose|k: int| 0 <= k < prev.len() && prev[k] == y;
                assert(extra[k] == y);
            }
            if !merged.contains(x) {
                assert(merged.push(x)[merged.len() as int] == x);
                if merged.push(x).contains(y) && y != x {
                    let k = choose|k: int| 0 <= k < merged.push(x).len() && merged.push(x)[k] == y;
                    assert(merged[k] == y);
                }
                if merged.contains(y) {
                    let k = choose|k: int| 0 <= k < merged.len() && merged[k] == y;
                    assert(merged.push(x)[k] == y);
                }
            }
        }
        if !merged.contains(x) {
            assert(base.is_prefix_of(merged.push(x))) by {
                assert forall|i: int| 0 <= i < base.len() implies base[i] == merged.push(x)[i] by {
                    assert(base[i] == merged[i]);
                }
            }
        }
    }
}

/// Appends `x`, keeping track of the contents.
pub fn push_value<T: DeepView>(target: &mut Vec<T>, x: T)
    ensures
        final(target)@ == old(target)@.push(x),
        final(target).deep_view() == old(target).deep_view().push(x.deep_view()),
{
    let ghost before = target@;
    let ghost before_deep = target.deep_view();
    target.push(x);
    assert forall|j: int| 0 <= j < target@.len() implies #[trigger] target.deep_view()[j]
        == before_deep.push(x.deep_view())[j] by {
        if j < before.len() {
            assert(target@[j] == before[j]);
        }
    }
    assert(target.deep_view() =~= before_deep.push(x.deep_view()));
}

/// Mapping commutes with appending.
pub proof fn lemma_map_push<A, B>(s: Seq<A>, x: A, f: spec_fn(A) -> B)
    ensures
        s.push(x).map_values(f) == s.map_values(f).push(f(x)),
{
    assert(s.push(x).map_values(f) =~= s.map_values(f).push(f(x)));
}

/// Mapping a prefix one longer appends the mapped next element.
pub proof fn lemma_map_prefix_push<A, B>(s: Seq<A>, i: int, f: spec_fn(A) -> B)
    requires
        0 <= i < s.len(),
    ensures
        s.subrange(0, i + 1).map_values(f) == s.subrange(0, i).map_values(f).push(f(s[i])),
{
    assert(s.subrange(0, i + 1) =~= s.subrange(0, i).push(s[i]));
    lemma_map_push(s.subrange(0, i), s[i], f);
}

/// Values that carry a text identifier.
pub trait Identified: DeepView + Sized {
    /// The identifier held by a value's contents.
    spec fn id_of(v: Self::V) -> Seq<char>;

    /// The identifier of this value.
    fn id_text(&self) -> (r: &str)
        ensures
            r@ == Self::id_of(self.deep_view()),
    ;
}

/// The first of `s` whose identifier is `id`.
pub open spec fn find_by_id<T: Identified>(s: Seq<T::V>, id: Seq<char>) -> Option<T::V>
    decreases s.len(),
{
    if s.len() == 0 {
        None
    } else if T::id_of(s[0]) == id {
        Some(s[0])
    } else {
        find_by_id::<T>(s.drop_first(), id)
    }
}

/// Position of the first of `items` whose identifier is `id`.
pub fn position_by_id<T: Identified>(items: &Vec<T>, id: &str) -> (r: Option<usize>)
    ensures
        match r {
            Some(i) => i < items@.len() && find_by_id::<T>(items.deep_view(), id@) == Some(
                items.deep_view()[i as int],
            ),
            None => find_by_id::<T>(items.deep_view(), id@) is None,
        },
{
    let ghost s = items.deep_view();
    let mut i: usize = 0;
    assert(s.subrange(0, s.len() as int) =~= s);
    while i < items.len()
        invariant
            i <= s.len(),
            s == items.deep_view(),
            s.len() == items@.len(),
            find_by_id::<T>(s, id@) == find_by_id::<T>(s.subrange(i as int, s.len() as int), id@),
        decreases items@.len() - i,
    {
        let ghost rest = s.subrange(i as int, s.len() as int);
        assert(rest[0] == s[i as int]);
        assert(rest.drop_first() =~= s.subrange(i + 1, s.len() as int));
        assert(s[i as int] == items@[i as int].deep_view());
        if crate::text::str_equal(items[i].id_text(), id) {
            return Some(i);
        }
        i = i + 1;
    }
    None
}

/// The last of `s` whose identifier is `id`: what a map keyed by identifier,
/// filled in order, holds for it.
pub open spec fn find_last_by_id<T: Identified>(s: Seq<T::V>, id: Seq<char>) -> Option<T::V>
    decreases s.len(),
{
    if s.len() == 0 {
        None
    } else if T::id_of(s.last()) == id {
        Some(s.last())
    } else {
        find_last_by_id::<T>(s.drop_last(), id)
    }
}

/// Position of the last of `items` whose identifier is `id`.
pub fn last_position_by_id<T: Identified>(items: &Vec<T>, id: &str) -> (r: Option<usize>)
    ensures
        match r {
            Some(i) => i < items@.len() && find_last_by_id::<T>(items.deep_view(), id@) == Some(
                items.deep_view()[i as int],
            ),
            None => find_last_by_id::<T>(items.deep_view(), id@) is None,
        },
{
    let ghost s = items.deep_view();
    let mut i: usize = items.len();
    assert(s.subrange(0, s.len() as int) =~= s);
    while i > 0
        invariant
            i <= s.len(),
            s == items.deep_view(),
            s.len() == items@.len(),
            find_last_by_id::<T>(s, id@) == find_last_by_id::<T>(s.subrange(0, i as int), id@),
        decreases i,
    {
        let ghost prefix = s.subrange(0, i as int);
        assert(prefix.last() == s[i - 1]);
        assert(prefix.drop_last() =~= s.subrange(0, i - 1));
        assert(s[i - 1] == items@[i - 1].deep_view());
        if crate::text::str_equal(items[i - 1].id_text(), id) {
            return Some(i - 1);
        }
        i = i - 1;
    }
    None
}

/// A copy of the first of `items` whose identifier is `id`, if any.
pub fn copy_by_id<T: Identified + OperatorValue>(items: &Vec<T>, id: &str) -> (r: Option<T>)
    ensures
        r.deep_view() == find_by_id::<T>(items.deep_view(), id@),
{
    match position_by_id(items, id) {
        Some(k) => {
            assert(items.deep_view()[k as int] == items@[k as int].deep_view());
            Some(items[k].duplicate())
        },
        None => None,
    }
}


/// What `find_by_id` finds carries the identifier and is among the items; it
/// finds nothing exactly when no item carries the identifier.
pub proof fn lemma_find_by_id<T: Identified>(s: Seq<T::V>, id: Seq<char>)
    ensures
        find_by_id::<T>(s, id) matches Some(v) ==> T::id_of(v) == id && s.contains(v),
        find_by_id::<T>(s, id) is None <==> forall|i: int| 0 <= i < s.len() ==> T::id_of(#[trigger] s[i]) != id,
    decreases s.len(),
{
    if s.len() > 0 {
        lemma_find_by_id::<T>(s.drop_first(), id);
        if T::id_of(s[0]) != id {
            if let Some(v) = find_by_id::<T>(s.drop_first(), id) {
                let k = choose|k: int| 0 <= k < s.drop_first().len() && s.drop_first()[k] == v;
                assert(s[k + 1] == v);
            }
            assert forall|i: int| 0 <= i < s.len() && find_by_id::<T>(s, id) is None implies T::id_of(
                #[trigger] s[i],
            ) != id by {
                if i > 0 {
                    assert(s[i] == s.drop_first()[i - 1]);
                }
            }
            if find_by_id::<T>(s, id) is Some {
                let v = find_by_id::<T>(s, id)->0;
                let k = choose|k: int| 0 <= k < s.len() && s[k] == v;
                assert(T::id_of(s[k]) == id);
            }
        } else {
            assert(s.contains(s[0]));
        }
    }
}

} // verus!
