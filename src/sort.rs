use vstd::prelude::*;

verus! {

/// On the values of `s`, `lt` is a strict weak order: no value comes before
/// itself, it is transitive, and whenever `x` comes before `z`, any `y` comes
/// after `x` or before `z`.
pub open spec fn strict_weak<T>(lt: spec_fn(T, T) -> bool, s: Seq<T>) -> bool {
    &&& forall|i: int| 0 <= i < s.len() ==> !lt(#[trigger] s[i], s[i])
    &&& forall|i: int, j: int, k: int|
        0 <= i < s.len() && 0 <= j < s.len() && 0 <= k < s.len() && #[trigger] lt(s[i], s[j])
            && #[trigger] lt(s[j], s[k]) ==> lt(s[i], s[k])
    &&& forall|i: int, j: int, k: int|
        0 <= i < s.len() && 0 <= j < s.len() && 0 <= k < s.len() && #[trigger] lt(s[i], s[k])
            ==> lt(s[i], #[trigger] s[j]) || lt(s[j], s[k])
}

/// No value of `s` comes strictly before one to its left.
pub open spec fn sorted_by<T>(lt: spec_fn(T, T) -> bool, s: Seq<T>) -> bool {
    forall|i: int, j: int| 0 <= i < j < s.len() ==> !lt(#[trigger] s[j], #[trigger] s[i])
}

/// `less` answers, for every pair, what the relation `lt` says of it.
pub open spec fn decides<T, F: Fn(T, T) -> bool>(less: F, lt: spec_fn(T, T) -> bool) -> bool {
    forall|x: T, y: T, b: bool| #[trigger] less.ensures((x, y), b) ==> b == lt(x, y)
}

/// Sorts five values with a fixed network of comparisons and swaps.
/// Whatever `less` answers, the values are only moved around; where it
/// decides a relation that is a strict weak order on them, they come out
/// sorted by that relation.
pub fn sort5<T: Copy, F: Fn(T, T) -> bool>(a: &mut [T; 5], less: &F)
    requires
        forall|x: T, y: T| less.requires((x, y)),
    ensures
        final(a)@.to_multiset() == old(a)@.to_multiset(),
        forall|lt: spec_fn(T, T) -> bool|
            #![trigger sorted_by(lt, final(a)@)]
            decides(*less, lt) && strict_weak(lt, old(a)@) ==> sorted_by(lt, final(a)@),
{
    // order the first pair and the second pair
    if less(a[1], a[0]) {
        swap(a, 0, 1);
    }
    if less(a[3], a[2]) {
        swap(a, 2, 3);
    }
    // order the first three by their smaller ends
    if less(a[0], a[2]) {
        swap(a, 1, 2);
        swap(a, 2, 3);
    } else {
        swap(a, 1, 2);
        swap(a, 0, 1);
    }
    // insert the fifth value among the first three
    if less(a[4], a[1]) {
        if less(a[4], a[0]) {
            swap(a, 4, 3);
            swap(a, 3, 2);
            swap(a, 2, 1);
            swap(a, 1, 0);
        } else {
            swap(a, 4, 3);
            swap(a, 3, 2);
            swap(a, 2, 1);
        }
    } else {
        if less(a[4], a[2]) {
            swap(a, 4, 3);
            swap(a, 3, 2);
        } else {
            swap(a, 4, 3);
        }
    }
    // insert the value now last among the second, third and fourth
    if less(a[4], a[2]) {
        if less(a[4], a[1]) {
            swap(a, 4, 3);
            swap(a, 3, 2);
            swap(a, 2, 1);
        } else {
            swap(a, 4, 3);
            swap(a, 3, 2);
        }
    } else {
        if less(a[4], a[3]) {
            swap(a, 4, 3);
        }
    }
}

/// Exchanges two of the five values.
fn swap<T: Copy>(a: &mut [T; 5], i: usize, j: usize)
    requires
        i < 5,
        j < 5,
    ensures
        final(a)@ == old(a)@.update(i as int, old(a)@[j as int]).update(j as int, old(a)@[i as int]),
        final(a)@.to_multiset() == old(a)@.to_multiset(),
{
    let x = a[i];
    let y = a[j];
    a[i] = y;
    a[j] = x;
    proof {
        let s = old(a)@;
        assert(s.len() == 5);
        if i == j {
            assert(final(a)@ =~= s);
        } else {
            let s1 = s.update(i as int, s[j as int]);
            assert(s1[j as int] == s[j as int]);
            vstd::seq_lib::to_multiset_update(s, i as int, s[j as int]);
            vstd::seq_lib::to_multiset_update(s1, j as int, s[i as int]);
            vstd::seq_lib::to_multiset_contains(s, s[i as int]);
            vstd::seq_lib::to_multiset_contains(s, s[j as int]);
            assert(s.contains(s[i as int]));
            assert(s.contains(s[j as int]));
            broadcast use vstd::multiset::group_multiset_axioms;
            assert(final(a)@ =~= s1.update(j as int, s[i as int]));
            assert(final(a)@.to_multiset() =~= s.to_multiset());
        }
    }
}

} // verus!
