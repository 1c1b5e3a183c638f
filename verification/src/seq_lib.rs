//! Facts about sequences: first matches and stable insertion sort.

use vstd::prelude::*;

verus! {

/// The first element of `s` that satisfies `p`, if any.
pub open spec fn first_match<T>(s: Seq<T>, p: spec_fn(T) -> bool) -> Option<T>
    decreases s.len(),
{
    if s.len() == 0 {
        None
    } else if p(s[0]) {
        Some(s[0])
    } else {
        first_match(s.drop_first(), p)
    }
}

/// The first match is the element at the first index that satisfies `p`.
pub proof fn lemma_first_match_at<T>(s: Seq<T>, p: spec_fn(T) -> bool, i: int)
    requires
        0 <= i < s.len(),
        p(s[i]),
        forall|j: int| 0 <= j < i ==> !p(#[trigger] s[j]),
    ensures
        first_match(s, p) == Some(s[i]),
    decreases i,
{
    if i > 0 {
        assert(!p(s[0]));
        let t = s.drop_first();
        assert forall|j: int| 0 <= j < i - 1 implies !p(#[trigger] t[j]) by {
            assert(t[j] == s[j + 1]);
        }
        lemma_first_match_at(t, p, i - 1);
    }
}

/// With no element satisfying `p`, there is no first match.
pub proof fn lemma_first_match_none<T>(s: Seq<T>, p: spec_fn(T) -> bool)
    requires
        forall|j: int| 0 <= j < s.len() ==> !p(#[trigger] s[j]),
    ensures
        first_match(s, p).is_none(),
    decreases s.len(),
{
    if s.len() > 0 {
        let t = s.drop_first();
        assert forall|j: int| 0 <= j < t.len() implies !p(#[trigger] t[j]) by {
            assert(t[j] == s[j + 1]);
        }
        lemma_first_match_none(t, p);
    }
}

/// Some element satisfies `p` only if there is a first match.
pub proof fn lemma_first_match_exists<T>(s: Seq<T>, p: spec_fn(T) -> bool, i: int)
    requires
        0 <= i < s.len(),
        p(s[i]),
    ensures
        first_match(s, p).is_some(),
    decreases i,
{
    if i > 0 && !p(s[0]) {
        assert(s.drop_first()[i - 1] == s[i]);
        lemma_first_match_exists(s.drop_first(), p, i - 1);
    }
}

/// A first match satisfies `p` and is an element of `s`.
pub proof fn lemma_first_match_some<T>(s: Seq<T>, p: spec_fn(T) -> bool)
    requires
        first_match(s, p).is_some(),
    ensures
        p(first_match(s, p).unwrap()),
        s.contains(first_match(s, p).unwrap()),
    decreases s.len(),
{
    if !p(s[0]) {
        lemma_first_match_some(s.drop_first(), p);
        let x = first_match(s, p).unwrap();
        let k = choose|k: int| 0 <= k < s.drop_first().len() && s.drop_first()[k] == x;
        assert(s[k + 1] == x);
    } else {
        assert(s[0] == first_match(s, p).unwrap());
    }
}

/// Puts `x` into `sorted` right after the last element that `x` does not go before.
pub open spec fn insert_sorted<T>(sorted: Seq<T>, x: T, before: spec_fn(T, T) -> bool) -> Seq<T>
    decreases sorted.len(),
{
    if sorted.len() == 0 {
        seq![x]
    } else if before(x, sorted.last()) {
        insert_sorted(sorted.drop_last(), x, before).push(sorted.last())
    } else {
        sorted.push(x)
    }
}

/// The stable sort of `s`: an element moves ahead of an earlier one only if it goes
/// `before` it.
pub open spec fn insertion_sorted<T>(s: Seq<T>, before: spec_fn(T, T) -> bool) -> Seq<T>
    decreases s.len(),
{
    if s.len() == 0 {
        s
    } else {
        insert_sorted(insertion_sorted(s.drop_last(), before), s.last(), before)
    }
}

/// Inserting at index `k` agrees with `insert_sorted` when `x` goes before every element
/// from `k` on and not before the one at `k - 1`.
pub proof fn lemma_insert_sorted_at<T>(sorted: Seq<T>, x: T, before: spec_fn(T, T) -> bool, k: int)
    requires
        0 <= k <= sorted.len(),
        forall|j: int| k <= j < sorted.len() ==> before(x, #[trigger] sorted[j]),
        k > 0 ==> !before(x, sorted[k - 1]),
    ensures
        insert_sorted(sorted, x, before) == sorted.insert(k, x),
    decreases sorted.len(),
{
    if sorted.len() == 0 {
        assert(sorted.insert(k, x) =~= seq![x]);
    } else if k == sorted.len() {
        assert(sorted.insert(k, x) =~= sorted.push(x));
    } else {
        let t = sorted.drop_last();
        assert(before(x, sorted[sorted.len() - 1]));
        assert forall|j: int| k <= j < t.len() implies before(x, #[trigger] t[j]) by {
            assert(t[j] == sorted[j]);
        }
        if k > 0 {
            assert(t[k - 1] == sorted[k - 1]);
        }
        lemma_insert_sorted_at(t, x, before, k);
        assert(sorted.insert(k, x) =~= t.insert(k, x).push(sorted.last()));
    }
}

/// Inserting keeps every element: the result holds `x` once more than `sorted` does.
pub proof fn lemma_insert_sorted_multiset<T>(sorted: Seq<T>, x: T, before: spec_fn(T, T) -> bool)
    ensures
        insert_sorted(sorted, x, before).to_multiset() == sorted.to_multiset().insert(x),
    decreases sorted.len(),
{
    broadcast use vstd::seq_lib::group_to_multiset_ensures;
    if sorted.len() == 0 {
        assert(seq![x] =~= Seq::<T>::empty().push(x));
    } else if before(x, sorted.last()) {
        lemma_insert_sorted_multiset(sorted.drop_last(), x, before);
        assert(sorted =~= sorted.drop_last().push(sorted.last()));
    } else {
    }
}

/// A stable sort keeps every element, as often as it occurs.
pub proof fn lemma_insertion_sorted_multiset<T>(s: Seq<T>, before: spec_fn(T, T) -> bool)
    ensures
        insertion_sorted(s, before).to_multiset() == s.to_multiset(),
    decreases s.len(),
{
    broadcast use vstd::seq_lib::group_to_multiset_ensures;
    if s.len() > 0 {
        lemma_insertion_sorted_multiset(s.drop_last(), before);
        lemma_insert_sorted_multiset(insertion_sorted(s.drop_last(), before), s.last(), before);
        assert(s =~= s.drop_last().push(s.last()));
    }
}

/// The results of `f` on the elements of `s` that give one, in order.
pub open spec fn filter_map_seq<A, B>(s: Seq<A>, f: spec_fn(A) -> Option<B>) -> Seq<B>
    decreases s.len(),
{
    if s.len() == 0 {
        Seq::empty()
    } else {
        let rest = filter_map_seq(s.drop_last(), f);
        match f(s.last()) {
            Some(b) => rest.push(b),
            None => rest,
        }
    }
}

/// `before` is a strict weak order: never both ways, and not going before is transitive.
pub open spec fn strict_weak_order<T>(before: spec_fn(T, T) -> bool) -> bool {
    &&& forall|a: T, b: T| #[trigger] before(a, b) ==> !before(b, a)
    &&& forall|a: T, b: T, c: T|
        #![trigger before(a, b), before(b, c)]
        !before(a, b) && !before(b, c) ==> !before(a, c)
}

/// No element of `s` goes before an earlier one.
pub open spec fn ordered_by<T>(s: Seq<T>, before: spec_fn(T, T) -> bool) -> bool {
    forall|i: int, j: int| 0 <= i < j < s.len() ==> !before(#[trigger] s[j], #[trigger] s[i])
}

/// Inserting into an ordered sequence keeps it ordered.
pub proof fn lemma_insert_sorted_ordered<T>(sorted: Seq<T>, x: T, before: spec_fn(T, T) -> bool)
    requires
        strict_weak_order(before),
        ordered_by(sorted, before),
    ensures
        ordered_by(insert_sorted(sorted, x, before), before),
    decreases sorted.len(),
{
    let r = insert_sorted(sorted, x, before);
    if sorted.len() == 0 {
    } else if before(x, sorted.last()) {
        let t = sorted.drop_last();
        assert(ordered_by(t, before)) by {
            assert forall|i: int, j: int| 0 <= i < j < t.len() implies !before(
                #[trigger] t[j],
                #[trigger] t[i],
            ) by {
                assert(t[i] == sorted[i] && t[j] == sorted[j]);
            }
        }
        lemma_insert_sorted_ordered(t, x, before);
        let rt = insert_sorted(t, x, before);
        lemma_insert_sorted_multiset(t, x, before);
        assert forall|i: int, j: int| 0 <= i < j < r.len() implies !before(
            #[trigger] r[j],
            #[trigger] r[i],
        ) by {
            if j == r.len() - 1 {
                assert(r[j] == sorted.last());
                assert(r[i] == rt[i]);
                assert(rt.to_multiset().count(rt[i]) > 0) by {
                    vstd::seq_lib::lemma_seq_contains_after_push(rt, sorted.last(), rt[i]);
                    assert(rt.contains(rt[i]));
                    rt.to_multiset_ensures();
                }
                assert(t.to_multiset().insert(x).count(rt[i]) > 0);
                if rt[i] == x {
                } else {
                    assert(t.to_multiset().count(rt[i]) > 0);
                    t.to_multiset_ensures();
                    let k = choose|k: int| 0 <= k < t.len() && t[k] == rt[i];
                    assert(sorted[k] == t[k]);
                    assert(!before(sorted[sorted.len() - 1], sorted[k]));
                }
            } else {
                assert(r[i] == rt[i] && r[j] == rt[j]);
            }
        }
    } else {
        assert forall|i: int, j: int| 0 <= i < j < r.len() implies !before(
            #[trigger] r[j],
            #[trigger] r[i],
        ) by {
            if j == r.len() - 1 {
                assert(r[j] == x);
                assert(r[i] == sorted[i]);
                if i < sorted.len() - 1 {
                    assert(!before(sorted[sorted.len() - 1], sorted[i]));
                }
            } else {
                assert(r[i] == sorted[i] && r[j] == sorted[j]);
            }
        }
    }
}

/// A stable sort by a strict weak order leaves no element before an earlier one that it
/// should go before.
pub proof fn lemma_insertion_sorted_ordered<T>(s: Seq<T>, before: spec_fn(T, T) -> bool)
    requires
        strict_weak_order(before),
    ensures
        ordered_by(insertion_sorted(s, before), before),
    decreases s.len(),
{
    if s.len() > 0 {
        lemma_insertion_sorted_ordered(s.drop_last(), before);
        lemma_insert_sorted_ordered(insertion_sorted(s.drop_last(), before), s.last(), before);
    }
}

/// `x` and `e` are equivalent under `before`: neither goes before the other.
pub open spec fn equivalent<T>(before: spec_fn(T, T) -> bool, x: T, e: T) -> bool {
    !before(x, e) && !before(e, x)
}

/// Inserting `x` keeps the elements equivalent to `e` in their order, with `x` last among
/// them when it is one of them.
pub proof fn lemma_insert_sorted_stable<T>(sorted: Seq<T>, x: T, before: spec_fn(T, T) -> bool, e: T)
    requires
        strict_weak_order(before),
    ensures
        insert_sorted(sorted, x, before).filter(|y: T| equivalent(before, y, e)) == if equivalent(
            before,
            x,
            e,
        ) {
            sorted.filter(|y: T| equivalent(before, y, e)).push(x)
        } else {
            sorted.filter(|y: T| equivalent(before, y, e))
        },
    decreases sorted.len(),
{
    let p = |y: T| equivalent(before, y, e);
    if sorted.len() == 0 {
        Seq::<T>::empty().lemma_filter_push(x, p);
        assert(seq![x] =~= Seq::<T>::empty().push(x));
        reveal(Seq::filter);
        assert(Seq::<T>::empty().filter(p) =~= Seq::<T>::empty());
    } else {
        let t = sorted.drop_last();
        let last = sorted.last();
        assert(t.push(last) =~= sorted);
        t.lemma_filter_push(last, p);
        if before(x, last) {
            lemma_insert_sorted_stable(t, x, before, e);
            insert_sorted(t, x, before).lemma_filter_push(last, p);
            if equivalent(before, x, e) {
                // `last` cannot be equivalent to `e`: `x` goes before it.
                assert(!before(x, e) && !before(e, last) ==> !before(x, last));
            }
        } else {
            sorted.lemma_filter_push(x, p);
        }
    }
}

/// A stable sort keeps the elements equivalent to `e` in their order.
pub proof fn lemma_insertion_sorted_stable<T>(s: Seq<T>, before: spec_fn(T, T) -> bool, e: T)
    requires
        strict_weak_order(before),
    ensures
        insertion_sorted(s, before).filter(|y: T| equivalent(before, y, e)) == s.filter(
            |y: T| equivalent(before, y, e),
        ),
    decreases s.len(),
{
    let p = |y: T| equivalent(before, y, e);
    if s.len() == 0 {
    } else {
        let t = s.drop_last();
        lemma_insertion_sorted_stable(t, before, e);
        lemma_insert_sorted_stable(insertion_sorted(t, before), s.last(), before, e);
        assert(t.push(s.last()) =~= s);
        t.lemma_filter_push(s.last(), p);
    }
}

} // verus!
