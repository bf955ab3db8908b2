//! What it means to sort a sequence by an integer key without disturbing the
//! order of elements that share a key, and the facts that follow from it.

use vstd::prelude::*;

verus! {

/// The test for the elements whose key is `k`.
pub open spec fn keyed<T>(key: spec_fn(T) -> int, k: int) -> spec_fn(T) -> bool {
    |x: T| key(x) == k
}

/// The keys never decrease from one element to the next.
pub open spec fn ascending<T>(s: Seq<T>, key: spec_fn(T) -> int) -> bool {
    forall|i: int, j: int| 0 <= i < j < s.len() ==> key(s[i]) <= key(s[j])
}

/// For every key, the elements with that key are the same in `a` and in `b`,
/// and stand in the same order.
pub open spec fn same_classes<T>(a: Seq<T>, b: Seq<T>, key: spec_fn(T) -> int) -> bool {
    forall|k: int| #[trigger] a.filter(keyed(key, k)) == b.filter(keyed(key, k))
}

/// `sorted` holds the elements of `given` by ascending key, and elements with
/// equal keys in the order in which `given` has them.
pub open spec fn stably_sorted<T>(sorted: Seq<T>, given: Seq<T>, key: spec_fn(T) -> int) -> bool {
    ascending(sorted, key) && same_classes(sorted, given, key)
}

/// A filter keeps nothing of a sequence in which no element passes.
pub proof fn filter_of_none<T>(s: Seq<T>, keep: spec_fn(T) -> bool)
    requires
        forall|i: int| 0 <= i < s.len() ==> !keep(#[trigger] s[i]),
    ensures
        s.filter(keep) == Seq::<T>::empty(),
    decreases s.len(),
{
    reveal(Seq::filter);
    if s.len() > 0 {
        filter_of_none(s.drop_last(), keep);
    }
}

/// What a filter keeps of a sequence with one more element at its end.
pub proof fn filter_of_push<T>(s: Seq<T>, x: T, keep: spec_fn(T) -> bool)
    ensures
        s.push(x).filter(keep) == if keep(x) {
            s.filter(keep).push(x)
        } else {
            s.filter(keep)
        },
{
    reveal(Seq::filter);
    assert(s.push(x).drop_last() =~= s);
}

/// Every element that a filter keeps passes the test and comes from the
/// sequence.
pub proof fn filter_keeps_members<T>(s: Seq<T>, keep: spec_fn(T) -> bool, i: int)
    requires
        0 <= i < s.filter(keep).len(),
    ensures
        keep(s.filter(keep)[i]),
        s.contains(s.filter(keep)[i]),
    decreases s.len(),
{
    reveal(Seq::filter);
    if s.len() > 0 {
        let rest = s.drop_last();
        if keep(s.last()) && i == rest.filter(keep).len() {
            assert(s[s.len() - 1] == s.last());
        } else {
            filter_keeps_members(rest, keep, i);
            let x = rest.filter(keep)[i];
            let at = choose|at: int| 0 <= at < rest.len() && rest[at] == x;
            assert(s[at] == x);
        }
    }
}

/// An element that passes the test is among what the filter keeps.
pub proof fn filter_has_member<T>(s: Seq<T>, keep: spec_fn(T) -> bool, i: int)
    requires
        0 <= i < s.len(),
        keep(s[i]),
    ensures
        s.filter(keep).contains(s[i]),
    decreases s.len(),
{
    reveal(Seq::filter);
    let rest = s.drop_last();
    if i == s.len() - 1 {
        let kept = rest.filter(keep).push(s.last());
        assert(kept[kept.len() - 1] == s[i]);
    } else {
        filter_has_member(rest, keep, i);
        let at = choose|at: int| 0 <= at < rest.filter(keep).len() && rest.filter(keep)[at] == s[i];
        if keep(s.last()) {
            assert(rest.filter(keep).push(s.last())[at] == s[i]);
        }
    }
}

/// Putting `x` into an ascending sequence, behind every element whose key is
/// not greater and before every element whose key is greater, gives the stable
/// sort of the sequence that was sorted so far with `x` added at its end.
pub proof fn insert_keeps_stable_sort<T>(
    sorted: Seq<T>,
    given: Seq<T>,
    x: T,
    at: int,
    key: spec_fn(T) -> int,
)
    requires
        stably_sorted(sorted, given, key),
        0 <= at <= sorted.len(),
        forall|i: int| 0 <= i < at ==> key(#[trigger] sorted[i]) <= key(x),
        forall|i: int| at <= i < sorted.len() ==> key(#[trigger] sorted[i]) > key(x),
    ensures
        stably_sorted(sorted.insert(at, x), given.push(x), key),
{
    let front = sorted.subrange(0, at);
    let back = sorted.subrange(at, sorted.len() as int);
    let grown = sorted.insert(at, x);
    assert(grown =~= front.push(x) + back);
    assert(sorted =~= front + back);
    assert(ascending(grown, key)) by {
        assert forall|i: int, j: int| 0 <= i < j < grown.len() implies key(grown[i]) <= key(
            grown[j],
        ) by {
            if i < at && j > at {
                assert(grown[i] == sorted[i]);
                assert(grown[j] == sorted[j - 1]);
            } else if i < at && j == at {
                assert(grown[i] == sorted[i]);
            } else if i == at {
                assert(grown[j] == sorted[j - 1]);
            } else if j < at {
                assert(grown[i] == sorted[i]);
                assert(grown[j] == sorted[j]);
            } else {
                assert(grown[i] == sorted[i - 1]);
                assert(grown[j] == sorted[j - 1]);
            }
        }
    }
    assert forall|k: int| #[trigger]
        grown.filter(keyed(key, k)) == given.push(x).filter(keyed(key, k)) by {
        let class = keyed(key, k);
        Seq::filter_distributes_over_add(front.push(x), back, class);
        Seq::filter_distributes_over_add(front, back, class);
        filter_of_push(front, x, class);
        filter_of_push(given, x, class);
        assert(sorted.filter(class) == given.filter(class));
        if key(x) == k {
            assert forall|i: int| 0 <= i < back.len() implies !class(#[trigger] back[i]) by {
                assert(back[i] == sorted[at + i]);
            }
            filter_of_none(back, class);
            assert(front.filter(class) + Seq::<T>::empty() =~= front.filter(class));
            assert(front.filter(class).push(x) + Seq::<T>::empty() =~= front.filter(class).push(
                x,
            ));
        }
    }
}

/// Every element of a stable sort is an element of what was sorted.
pub proof fn sorted_holds_only_given<T>(
    sorted: Seq<T>,
    given: Seq<T>,
    key: spec_fn(T) -> int,
    i: int,
)
    requires
        stably_sorted(sorted, given, key),
        0 <= i < sorted.len(),
    ensures
        given.contains(sorted[i]),
{
    let class = keyed(key, key(sorted[i]));
    filter_has_member(sorted, class, i);
    assert(sorted.filter(class) == given.filter(class));
    let at = choose|at: int| 0 <= at < sorted.filter(class).len() && sorted.filter(class)[at] == sorted[i];
    filter_keeps_members(given, class, at);
}

/// Every element of what was sorted is an element of its stable sort.
pub proof fn sorted_holds_all_given<T>(
    sorted: Seq<T>,
    given: Seq<T>,
    key: spec_fn(T) -> int,
    i: int,
)
    requires
        stably_sorted(sorted, given, key),
        0 <= i < given.len(),
    ensures
        sorted.contains(given[i]),
{
    let class = keyed(key, key(given[i]));
    filter_has_member(given, class, i);
    assert(sorted.filter(class) == given.filter(class));
    let at = choose|at: int| 0 <= at < given.filter(class).len() && given.filter(class)[at] == given[i];
    filter_keeps_members(sorted, class, at);
}

/// Two ascending sequences with the same classes are the same sequence.
pub proof fn ascending_classes_decide<T>(a: Seq<T>, b: Seq<T>, key: spec_fn(T) -> int)
    requires
        ascending(a, key),
        ascending(b, key),
        same_classes(a, b, key),
    ensures
        a == b,
    decreases a.len(),
{
    if a.len() == 0 {
        if b.len() > 0 {
            let class = keyed(key, key(b[0]));
            filter_has_member(b, class, 0);
            assert(a.filter(class) == b.filter(class));
            a.lemma_filter_len(class);
        }
        assert(a =~= b);
    } else {
        let x = a.last();
        let top = keyed(key, key(x));
        filter_has_member(a, top, a.len() - 1);
        assert(a.filter(top) == b.filter(top));
        b.lemma_filter_len(top);
        let y = b.last();
        if key(y) != key(x) {
            if key(y) > key(x) {
                let class = keyed(key, key(y));
                filter_has_member(b, class, b.len() - 1);
                assert(a.filter(class) == b.filter(class));
                let at = choose|at: int| 0 <= at < b.filter(class).len() && b.filter(class)[at] == y;
                filter_keeps_members(a, class, at);
                let i = choose|i: int| 0 <= i < a.len() && a[i] == y;
                assert(key(a[i]) <= key(a[a.len() - 1]));
            } else {
                let at = choose|at: int| 0 <= at < a.filter(top).len() && a.filter(top)[at] == x;
                filter_keeps_members(b, top, at);
                let i = choose|i: int| 0 <= i < b.len() && b[i] == x;
                assert(key(b[i]) <= key(b[b.len() - 1]));
            }
            assert(false);
        }
        let a0 = a.drop_last();
        let b0 = b.drop_last();
        assert(a0.push(x) =~= a);
        assert(b0.push(y) =~= b);
        assert forall|k: int| #[trigger] a0.filter(keyed(key, k)) == b0.filter(keyed(key, k)) by {
            let class = keyed(key, k);
            filter_of_push(a0, x, class);
            filter_of_push(b0, y, class);
            assert(a.filter(class) == b.filter(class));
            if k == key(x) {
                let fa = a0.filter(class);
                let fb = b0.filter(class);
                assert(fa.push(x) == fb.push(y));
                assert(fa.push(x).drop_last() =~= fa);
                assert(fb.push(y).drop_last() =~= fb);
            }
        }
        filter_of_push(a0, x, top);
        filter_of_push(b0, y, top);
        assert(a0.filter(top).push(x).last() == x);
        assert(b0.filter(top).push(y).last() == y);
        assert(x == y);
        assert(ascending(a0, key)) by {
            assert forall|i: int, j: int| 0 <= i < j < a0.len() implies key(a0[i]) <= key(a0[j]) by {
                assert(a0[i] == a[i] && a0[j] == a[j]);
            }
        }
        assert(ascending(b0, key)) by {
            assert forall|i: int, j: int| 0 <= i < j < b0.len() implies key(b0[i]) <= key(b0[j]) by {
                assert(b0[i] == b[i] && b0[j] == b[j]);
            }
        }
        ascending_classes_decide(a0, b0, key);
    }
}

/// A sequence has one stable sort by a key, and no other.
pub proof fn stable_sort_is_unique<T>(a: Seq<T>, b: Seq<T>, given: Seq<T>, key: spec_fn(T) -> int)
    requires
        stably_sorted(a, given, key),
        stably_sorted(b, given, key),
    ensures
        a == b,
{
    assert forall|k: int| #[trigger] a.filter(keyed(key, k)) == b.filter(keyed(key, k)) by {
        assert(a.filter(keyed(key, k)) == given.filter(keyed(key, k)));
        assert(b.filter(keyed(key, k)) == given.filter(keyed(key, k)));
    }
    ascending_classes_decide(a, b, key);
}

/// Sorting what is sorted changes nothing: the stable sort of a stable sort
/// is that same sequence.
pub proof fn sorting_again_changes_nothing<T>(
    again: Seq<T>,
    sorted: Seq<T>,
    given: Seq<T>,
    key: spec_fn(T) -> int,
)
    requires
        stably_sorted(sorted, given, key),
        stably_sorted(again, sorted, key),
    ensures
        again == sorted,
{
    assert(stably_sorted(sorted, sorted, key));
    stable_sort_is_unique(again, sorted, sorted, key);
}

/// `filter_map` keeps what it makes of an element that it maps to something.
pub proof fn filter_map_holds<A, B>(s: Seq<A>, f: spec_fn(A) -> Option<B>, j: int)
    requires
        0 <= j < s.len(),
        f(s[j]) is Some,
    ensures
        s.filter_map(f).contains(f(s[j])->Some_0),
    decreases s.len(),
{
    let kept = s.filter_map(f);
    let rest = s.drop_last().filter_map(f);
    if j == s.len() - 1 {
        assert(kept[kept.len() - 1] == f(s[j])->Some_0);
    } else {
        filter_map_holds(s.drop_last(), f, j);
        let at = choose|at: int| 0 <= at < rest.len() && rest[at] == f(s[j])->Some_0;
        assert(kept[at] == rest[at]);
    }
}

/// `filter_map` keeps what it makes of two elements in the order in which the
/// two stand.
pub proof fn filter_map_keeps_order<A, B>(s: Seq<A>, f: spec_fn(A) -> Option<B>, i: int, j: int)
    requires
        0 <= i < j < s.len(),
        f(s[i]) is Some,
        f(s[j]) is Some,
    ensures
        exists|a: int, b: int|
            0 <= a < b < s.filter_map(f).len() && #[trigger] s.filter_map(f)[a] == f(
                s[i],
            )->Some_0 && #[trigger] s.filter_map(f)[b] == f(s[j])->Some_0,
    decreases s.len(),
{
    let kept = s.filter_map(f);
    let rest = s.drop_last().filter_map(f);
    if j == s.len() - 1 {
        filter_map_holds(s.drop_last(), f, i);
        let a = choose|a: int| 0 <= a < rest.len() && rest[a] == f(s[i])->Some_0;
        let b = rest.len() as int;
        assert(kept[a] == f(s[i])->Some_0 && kept[b] == f(s[j])->Some_0);
    } else {
        filter_map_keeps_order(s.drop_last(), f, i, j);
        let (a, b) = choose|a: int, b: int|
            0 <= a < b < rest.len() && #[trigger] rest[a] == f(s.drop_last()[i])->Some_0
                && #[trigger] rest[b] == f(s.drop_last()[j])->Some_0;
        assert(kept[a] == rest[a] && kept[b] == rest[b]);
    }
}

/// A filter keeps two elements that pass in the order in which they stand.
proof fn filter_keeps_order<T>(s: Seq<T>, keep: spec_fn(T) -> bool, i: int, j: int)
    requires
        0 <= i < j < s.len(),
        keep(s[i]),
        keep(s[j]),
    ensures
        exists|a: int, b: int|
            0 <= a < b < s.filter(keep).len() && #[trigger] s.filter(keep)[a] == s[i]
                && #[trigger] s.filter(keep)[b] == s[j],
    decreases s.len(),
{
    reveal(Seq::filter);
    let rest = s.drop_last();
    let kept = s.filter(keep);
    if j == s.len() - 1 {
        filter_has_member(rest, keep, i);
        let a = choose|a: int| 0 <= a < rest.filter(keep).len() && rest.filter(keep)[a] == s[i];
        let b = rest.filter(keep).len() as int;
        assert(kept[a] == s[i] && kept[b] == s[j]);
    } else {
        filter_keeps_order(rest, keep, i, j);
        let (a, b) = choose|a: int, b: int|
            0 <= a < b < rest.filter(keep).len() && #[trigger] rest.filter(keep)[a] == rest[i]
                && #[trigger] rest.filter(keep)[b] == rest[j];
        assert(kept[a] == s[i] && kept[b] == s[j]);
    }
}

/// Two elements that a filter keeps stand in the sequence in the order in
/// which the filter has them.
proof fn filter_reflects_order<T>(s: Seq<T>, keep: spec_fn(T) -> bool, a: int, b: int)
    requires
        0 <= a < b < s.filter(keep).len(),
    ensures
        exists|p: int, q: int|
            0 <= p < q < s.len() && #[trigger] s[p] == s.filter(keep)[a] && #[trigger] s[q]
                == s.filter(keep)[b],
    decreases s.len(),
{
    reveal(Seq::filter);
    if s.len() > 0 {
        let rest = s.drop_last();
        let kept = s.filter(keep);
        if keep(s.last()) && b == rest.filter(keep).len() {
            filter_keeps_members(rest, keep, a);
            let p = choose|p: int| 0 <= p < rest.len() && rest[p] == rest.filter(keep)[a];
            let q = s.len() - 1;
            assert(s[p] == kept[a] && s[q] == kept[b]);
        } else {
            filter_reflects_order(rest, keep, a, b);
            let (p, q) = choose|p: int, q: int|
                0 <= p < q < rest.len() && #[trigger] rest[p] == rest.filter(keep)[a]
                    && #[trigger] rest[q] == rest.filter(keep)[b];
            assert(s[p] == kept[a] && s[q] == kept[b]);
        }
    }
}

/// Two elements with the same key come out of a stable sort in the order in
/// which they went in.
pub proof fn ties_keep_their_order<T>(
    sorted: Seq<T>,
    given: Seq<T>,
    key: spec_fn(T) -> int,
    i: int,
    j: int,
)
    requires
        stably_sorted(sorted, given, key),
        0 <= i < j < given.len(),
        key(given[i]) == key(given[j]),
    ensures
        exists|p: int, q: int|
            0 <= p < q < sorted.len() && #[trigger] sorted[p] == given[i] && #[trigger] sorted[q]
                == given[j],
{
    let class = keyed(key, key(given[i]));
    filter_keeps_order(given, class, i, j);
    let (a, b) = choose|a: int, b: int|
        0 <= a < b < given.filter(class).len() && #[trigger] given.filter(class)[a] == given[i]
            && #[trigger] given.filter(class)[b] == given[j];
    assert(sorted.filter(class) == given.filter(class));
    filter_reflects_order(sorted, class, a, b);
}

} // verus!
