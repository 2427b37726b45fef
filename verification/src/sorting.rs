//! A stable sort for lists whose items a ranking puts in order.
use vstd::prelude::*;

verus! {

/// Items with a ranking: a total preorder that tells which of two items may
/// stand first.
pub trait Ranked: Sized {
    /// Tells whether `self` may stand before `other`.
    spec fn precedes(&self, other: &Self) -> bool;

    fn may_precede(&self, other: &Self) -> (r: bool)
        ensures
            r == self.precedes(other),
    ;

    /// Of two items one may stand before the other.
    proof fn lemma_total(a: &Self, b: &Self)
        ensures
            a.precedes(b) || b.precedes(a),
    ;

    /// What may stand before an item may stand before all that this item may
    /// stand before.
    proof fn lemma_transitive(a: &Self, b: &Self, c: &Self)
        requires
            a.precedes(b),
            b.precedes(c),
        ensures
            a.precedes(c),
    ;
}

/// Tells whether the first `count` items of a list are in order.
pub open spec fn is_sorted<T: Ranked>(list: Seq<T>, count: int) -> bool {
    forall|i: int, j: int|
        #![trigger list[i], list[j]]
        0 <= i < j < count ==> list[i].precedes(&list[j])
}

/// Tells whether `output` is `input` put in the order `le` stably, where
/// `origin[k]` is the place in `input` of the item that stands at `k` in
/// `output`: every item of the input stands at one place of the output, the
/// output is in order, and items that rank equal stand as they stood in the
/// input.
pub open spec fn is_stable_arrangement<V>(
    input: Seq<V>,
    output: Seq<V>,
    origin: Seq<int>,
    le: spec_fn(V, V) -> bool,
) -> bool {
    &&& output.len() == input.len()
    &&& origin.len() == input.len()
    &&& forall|k: int|
        0 <= k < output.len() ==> 0 <= #[trigger] origin[k] < input.len() && output[k]
            == input[origin[k]]
    &&& forall|i: int, j: int|
        0 <= i < j < output.len() ==> #[trigger] origin[i] != #[trigger] origin[j]
    &&& forall|i: int, j: int|
        #![trigger output[i], output[j]]
        0 <= i < j < output.len() ==> le(output[i], output[j])
    &&& forall|i: int, j: int|
        #![trigger output[i], output[j]]
        0 <= i < j < output.len() && le(output[j], output[i]) ==> origin[i] < origin[j]
}

/// The ranking of a type as a relation.
pub open spec fn ranking<T: Ranked>() -> spec_fn(T, T) -> bool {
    |a: T, b: T| a.precedes(&b)
}

/// Sorts a list by its ranking and keeps items of equal rank in the order in
/// which they stood.
pub fn stable_sort<T: Ranked>(list: &mut Vec<T>)
    ensures
        exists|origin: Seq<int>|
            is_stable_arrangement(old(list)@, final(list)@, origin, ranking::<T>()),
        final(list)@.to_multiset() == old(list)@.to_multiset(),
{
    let n: usize = list.len();
    let ghost input = list@;
    let ghost mut origin: Seq<int> = Seq::new(n as nat, |k: int| k);
    let mut i: usize = 0;
    while i < n
        invariant
            n == input.len(),
            list@.len() == n,
            origin.len() == n,
            i <= n,
            list@.to_multiset() == input.to_multiset(),
            forall|k: int|
                0 <= k < n ==> 0 <= #[trigger] origin[k] < n && list@[k] == input[origin[k]],
            forall|k: int| 0 <= k < i ==> #[trigger] origin[k] < i,
            forall|k: int| i <= k < n ==> #[trigger] origin[k] == k,
            forall|a: int, b: int| 0 <= a < b < n ==> #[trigger] origin[a] != #[trigger] origin[b],
            is_sorted(list@, i as int),
            forall|a: int, b: int|
                #![trigger list@[a], list@[b]]
                0 <= a < b < i && list@[b].precedes(&list@[a]) ==> origin[a] < origin[b],
        decreases n - i,
    {
        let ghost before = list@;
        let ghost before_origin = origin;
        let item = list.remove(i);
        let ghost rest = list@;
        let ghost rest_origin = before_origin.remove(i as int);
        let mut p: usize = i;
        while p > 0 && !list[p - 1].may_precede(&item)
            invariant
                p <= i,
                i < n,
                list@ == rest,
                rest.len() == n - 1,
                forall|k: int| p <= k < i ==> !(#[trigger] rest[k]).precedes(&item),
            decreases p,
        {
            p = p - 1;
        }
        list.insert(p, item);
        proof {
            origin = rest_origin.insert(p as int, i as int);
            let after = list@;
            assert(rest =~= before.remove(i as int));
            assert(after =~= rest.insert(p as int, item));
            assert(item == before[i as int]);
            assert(after.to_multiset() =~= before.to_multiset()) by {
                broadcast use vstd::multiset::group_multiset_axioms;

                vstd::seq_lib::to_multiset_remove(before, i as int);
                vstd::seq_lib::to_multiset_insert(rest, p as int, item);
                vstd::seq_lib::to_multiset_contains(before, item);
                assert(before.contains(item));
            }
            assert(forall|k: int| 0 <= k < i ==> rest[k] == before[k]);
            assert(forall|k: int| 0 <= k < i ==> rest_origin[k] == before_origin[k]);
            assert(forall|k: int| i <= k < n - 1 ==> rest[k] == before[k + 1]);
            assert(forall|k: int| i <= k < n - 1 ==> rest_origin[k] == before_origin[k + 1]);
            assert forall|k: int| 0 <= k < n implies 0 <= #[trigger] origin[k] < n && after[k]
                == input[origin[k]] by {
                if k < p {
                    assert(origin[k] == rest_origin[k]);
                    assert(origin[k] == before_origin[k]);
                    assert(after[k] == rest[k]);
                    assert(after[k] == before[k]);
                } else if k == p {
                    assert(origin[k] == i);
                    assert(after[k] == item);
                    assert(before_origin[i as int] == i);
                } else {
                    assert(origin[k] == rest_origin[k - 1]);
                    assert(after[k] == rest[k - 1]);
                    if k - 1 < i {
                        assert(rest_origin[k - 1] == before_origin[k - 1]);
                    } else {
                        assert(rest_origin[k - 1] == before_origin[k]);
                    }
                }
            }
            assert forall|k: int| 0 <= k < i + 1 implies #[trigger] origin[k] < i + 1 by {
                if k < p {
                    assert(origin[k] == before_origin[k]);
                } else if k > p {
                    assert(origin[k] == before_origin[k - 1]);
                }
            }
            assert forall|k: int| i + 1 <= k < n implies #[trigger] origin[k] == k by {
                assert(origin[k] == rest_origin[k - 1]);
                assert(rest_origin[k - 1] == before_origin[k]);
            }
            assert forall|a: int, b: int| 0 <= a < b < n implies #[trigger] origin[a]
                != #[trigger] origin[b] by {
                let oa = if a < p {
                    a
                } else if a == p {
                    i as int
                } else if a - 1 < i {
                    a - 1
                } else {
                    a
                };
                let ob = if b < p {
                    b
                } else if b == p {
                    i as int
                } else if b - 1 < i {
                    b - 1
                } else {
                    b
                };
                assert(origin[a] == before_origin[oa]);
                assert(origin[b] == before_origin[ob]);
                assert(oa != ob);
                if oa < ob {
                    assert(before_origin[oa] != before_origin[ob]);
                } else {
                    assert(before_origin[ob] != before_origin[oa]);
                }
            }
            assert forall|a: int, b: int|
                #![trigger after[a], after[b]]
                0 <= a < b < i + 1 implies after[a].precedes(&after[b]) && (after[b].precedes(
                &after[a],
            ) ==> origin[a] < origin[b]) by {
                if b == p {
                    // the item taken out stands behind `a`
                    assert(after[a] == before[a]);
                    assert(before[p - 1].precedes(&item));
                    if a < p - 1 {
                        assert(before[a].precedes(&before[p - 1]));
                        T::lemma_transitive(&before[a], &before[p - 1], &item);
                    }
                    assert(origin[a] == before_origin[a]);
                } else if a == p {
                    // the item taken out stands before `b`
                    assert(after[b] == rest[b - 1]);
                    assert(!rest[b - 1].precedes(&item));
                    T::lemma_total(&item, &rest[b - 1]);
                } else {
                    let oa = if a < p {
                        a
                    } else {
                        a - 1
                    };
                    let ob = if b < p {
                        b
                    } else {
                        b - 1
                    };
                    assert(after[a] == before[oa]);
                    assert(after[b] == before[ob]);
                    assert(origin[a] == before_origin[oa]);
                    assert(origin[b] == before_origin[ob]);
                    assert(before[oa].precedes(&before[ob]));
                }
            }
        }
        i = i + 1;
    }
    proof {
        assert(is_stable_arrangement(input, list@, origin, ranking::<T>()));
    }
}

/// In a stable arrangement every place of the input is the origin of a place
/// of the output.
pub proof fn lemma_arrangement_onto<V>(
    input: Seq<V>,
    output: Seq<V>,
    origin: Seq<int>,
    le: spec_fn(V, V) -> bool,
    target: int,
)
    requires
        is_stable_arrangement(input, output, origin, le),
        0 <= target < input.len(),
    ensures
        exists|k: int| 0 <= k < output.len() && #[trigger] origin[k] == target,
{
    let n = input.len() as int;
    let image = Set::new(|v: int| exists|k: int| 0 <= k < n && #[trigger] origin[k] == v);
    let all = Set::new(|v: int| 0 <= v < n);
    vstd::set_lib::lemma_int_range(0, n);
    assert(all =~= vstd::set_lib::set_int_range(0, n));
    assert(image.subset_of(all));
    lemma_injective_image_len(origin, n);
    assert(origin.take(n) =~= origin);
    vstd::set_lib::lemma_subset_equality(image, all);
    assert(all.contains(target));
    assert(image.contains(target));
}

/// The first `count` values of a list without repetition are `count`
/// different values.
proof fn lemma_injective_image_len(origin: Seq<int>, count: int)
    requires
        0 <= count <= origin.len(),
        forall|i: int, j: int|
            0 <= i < j < origin.len() ==> #[trigger] origin[i] != #[trigger] origin[j],
    ensures
        Set::new(|v: int| exists|k: int| 0 <= k < count && #[trigger] origin[k] == v).finite(),
        Set::new(|v: int| exists|k: int| 0 <= k < count && #[trigger] origin[k] == v).len()
            == count,
    decreases count,
{
    let image = Set::new(|v: int| exists|k: int| 0 <= k < count && #[trigger] origin[k] == v);
    if count == 0 {
        assert(image =~= Set::<int>::empty());
    } else {
        lemma_injective_image_len(origin, count - 1);
        let smaller = Set::new(
            |v: int| exists|k: int| 0 <= k < count - 1 && #[trigger] origin[k] == v,
        );
        let added = origin[count - 1];
        assert(!smaller.contains(added)) by {
            if smaller.contains(added) {
                let k = choose|k: int| 0 <= k < count - 1 && #[trigger] origin[k] == added;
                assert(origin[k] != origin[count - 1]);
            }
        }
        assert(image =~= smaller.insert(added)) by {
            assert forall|v: int| image.contains(v) implies smaller.insert(added).contains(v) by {
                let k = choose|k: int| 0 <= k < count && #[trigger] origin[k] == v;
                if k < count - 1 {
                    assert(smaller.contains(v));
                }
            }
            assert forall|v: int| smaller.insert(added).contains(v) implies image.contains(v) by {
                if v == added {
                    assert(origin[count - 1] == v);
                } else {
                    let k = choose|k: int| 0 <= k < count - 1 && #[trigger] origin[k] == v;
                    assert(0 <= k < count && origin[k] == v);
                }
            }
        }
    }
}

/// Tells whether of any two values one may stand before the other.
pub open spec fn is_total<V>(le: spec_fn(V, V) -> bool) -> bool {
    forall|a: V, b: V| #[trigger] le(a, b) || #[trigger] le(b, a)
}

/// The first origins of two stable arrangements of one list are the same.
proof fn lemma_origins_agree<V>(
    input: Seq<V>,
    first: Seq<V>,
    first_origin: Seq<int>,
    second: Seq<V>,
    second_origin: Seq<int>,
    le: spec_fn(V, V) -> bool,
    upto: int,
)
    requires
        is_stable_arrangement(input, first, first_origin, le),
        is_stable_arrangement(input, second, second_origin, le),
        is_total(le),
        0 <= upto <= input.len(),
    ensures
        forall|k: int| 0 <= k < upto ==> first_origin[k] == second_origin[k],
    decreases upto,
{
    if upto > 0 {
        lemma_origins_agree(input, first, first_origin, second, second_origin, le, upto - 1);
        let k = upto - 1;
        let x = first_origin[k];
        let y = second_origin[k];
        if x != y {
            // where the other arrangement puts the origin of this one
            lemma_arrangement_onto(input, second, second_origin, le, x);
            let m = choose|m: int| 0 <= m < second.len() && #[trigger] second_origin[m] == x;
            lemma_arrangement_onto(input, first, first_origin, le, y);
            let n = choose|n: int| 0 <= n < first.len() && #[trigger] first_origin[n] == y;
            if m < k {
                assert(first_origin[m] == second_origin[m]);
                assert(first_origin[m] != first_origin[k]);
            }
            if n < k {
                assert(second_origin[n] == first_origin[n]);
                assert(second_origin[n] != second_origin[k]);
            }
            // both stand behind `k` in the other arrangement: each of the two
            // items would have to stand before the other
            assert(m > k && n > k);
            assert(second[k] == input[y] && second[m] == input[x]);
            assert(first[k] == input[x] && first[n] == input[y]);
            assert(le(second[k], second[m]));
            assert(le(first[k], first[n]));
            assert(le(second[m], second[k]) ==> second_origin[k] < second_origin[m]);
            assert(le(first[n], first[k]) ==> first_origin[k] < first_origin[n]);
        }
    }
}

/// A list has one stable arrangement. Where the order is total, two lists
/// that both are stable arrangements of one list are the same list, with the
/// same origins: to sort stably is to give one result and no other.
pub proof fn lemma_stable_arrangement_unique<V>(
    input: Seq<V>,
    first: Seq<V>,
    first_origin: Seq<int>,
    second: Seq<V>,
    second_origin: Seq<int>,
    le: spec_fn(V, V) -> bool,
)
    requires
        is_stable_arrangement(input, first, first_origin, le),
        is_stable_arrangement(input, second, second_origin, le),
        is_total(le),
    ensures
        first == second,
        first_origin == second_origin,
{
    lemma_origins_agree(
        input,
        first,
        first_origin,
        second,
        second_origin,
        le,
        input.len() as int,
    );
    assert(first_origin =~= second_origin);
    assert forall|k: int| 0 <= k < first.len() implies first[k] == second[k] by {
        assert(first[k] == input[first_origin[k]]);
        assert(second[k] == input[second_origin[k]]);
    }
    assert(first =~= second);
}

} // verus!
