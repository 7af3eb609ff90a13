//! Helpers for the insertion-ordered element lists (tags, parents,
//! children, dependencies) that the entities carry.
//!
//! The mutators of every entity follow two shapes: guarded appends (add an
//! element when a guard on the current list admits it) and first-occurrence
//! removals. The spec-level folds here describe both shapes once, so each
//! entity's contracts can reuse them.

use vstd::prelude::*;
use vstd::std_specs::cmp::PartialEqSpec;

verus! {

/// The executable `==` of `T` agrees with mathematical equality.
pub open spec fn eq_is_spec_eq<T: PartialEqSpec>() -> bool {
    &&& T::obeys_eq_spec()
    &&& forall|a: T, b: T| #[trigger] a.eq_spec(&b) <==> a == b
}

/// One guarded append: push `x` when the guard admits it on the current
/// list, else leave the list alone.
pub open spec fn add_step<T>(s: Seq<T>, x: T, keep: spec_fn(Seq<T>, T) -> bool) -> Seq<T> {
    if keep(s, x) {
        s.push(x)
    } else {
        s
    }
}

/// Guarded appends of all of `xs`, in order.
pub open spec fn fold_add<T>(s: Seq<T>, xs: Seq<T>, keep: spec_fn(Seq<T>, T) -> bool) -> Seq<T>
    decreases xs.len(),
{
    if xs.len() == 0 {
        s
    } else {
        fold_add(add_step(s, xs[0], keep), xs.drop_first(), keep)
    }
}

/// The guard that admits an element only when it is not yet present.
pub open spec fn absent_guard<T>() -> spec_fn(Seq<T>, T) -> bool {
    |s: Seq<T>, x: T| !s.contains(x)
}

/// The guard that admits every element except one fixed value.
pub open spec fn not_self_guard<T>(own: T) -> spec_fn(Seq<T>, T) -> bool {
    |s: Seq<T>, x: T| x != own
}

/// A guarded fold over `i + 1` elements is a guarded fold over `i`
/// elements followed by one guarded append.
pub proof fn lemma_fold_add_snoc<T>(
    s: Seq<T>,
    xs: Seq<T>,
    keep: spec_fn(Seq<T>, T) -> bool,
    i: int,
)
    requires
        0 <= i < xs.len(),
    ensures
        fold_add(s, xs.take(i + 1), keep) == add_step(fold_add(s, xs.take(i), keep), xs[i], keep),
    decreases i,
{
    reveal_with_fuel(fold_add, 3);
    if i == 0 {
        assert(xs.take(0) =~= Seq::<T>::empty());
        assert(xs.take(1)[0] == xs[0]);
        assert(xs.take(1).drop_first() =~= Seq::<T>::empty());
    } else {
        let s1 = add_step(s, xs[0], keep);
        lemma_fold_add_snoc(s1, xs.drop_first(), keep, i - 1);
        assert(xs.take(i + 1)[0] == xs[0]);
        assert(xs.take(i)[0] == xs[0]);
        assert(xs.take(i + 1).drop_first() =~= xs.drop_first().take(i));
        assert(xs.take(i).drop_first() =~= xs.drop_first().take(i - 1));
        assert(xs.drop_first()[i - 1] == xs[i]);
    }
}

/// Removing the first occurrence of `x`: the list with the element at the
/// first index holding `x` taken out, or the list itself when `x` is
/// absent.
pub open spec fn remove_first<T>(s: Seq<T>, x: T) -> Seq<T> {
    match s.index_of_first(x) {
        Some(i) => s.remove(i),
        None => s,
    }
}

/// First-occurrence removals of all of `xs`, in order.
pub open spec fn fold_remove<T>(s: Seq<T>, xs: Seq<T>) -> Seq<T>
    decreases xs.len(),
{
    if xs.len() == 0 {
        s
    } else {
        fold_remove(remove_first(s, xs[0]), xs.drop_first())
    }
}

/// Every element of `xs` is present when its turn to be removed comes.
pub open spec fn all_removable<T>(s: Seq<T>, xs: Seq<T>) -> bool
    decreases xs.len(),
{
    if xs.len() == 0 {
        true
    } else {
        s.contains(xs[0]) && all_removable(remove_first(s, xs[0]), xs.drop_first())
    }
}

/// A removal fold over `i + 1` elements is a removal fold over `i`
/// elements followed by one first-occurrence removal; removability of a
/// prefix carries over the same way.
pub proof fn lemma_fold_remove_snoc<T>(s: Seq<T>, xs: Seq<T>, i: int)
    requires
        0 <= i < xs.len(),
    ensures
        fold_remove(s, xs.take(i + 1)) == remove_first(fold_remove(s, xs.take(i)), xs[i]),
        all_removable(s, xs.take(i + 1)) == (all_removable(s, xs.take(i)) && fold_remove(
            s,
            xs.take(i),
        ).contains(xs[i])),
    decreases i,
{
    reveal_with_fuel(fold_remove, 3);
    reveal_with_fuel(all_removable, 3);
    if i == 0 {
        assert(xs.take(0) =~= Seq::<T>::empty());
        assert(xs.take(1)[0] == xs[0]);
        assert(xs.take(1).drop_first() =~= Seq::<T>::empty());
    } else {
        let s1 = remove_first(s, xs[0]);
        lemma_fold_remove_snoc(s1, xs.drop_first(), i - 1);
        assert(xs.take(i + 1)[0] == xs[0]);
        assert(xs.take(i)[0] == xs[0]);
        assert(xs.take(i + 1).drop_first() =~= xs.drop_first().take(i));
        assert(xs.take(i).drop_first() =~= xs.drop_first().take(i - 1));
        assert(xs.drop_first()[i - 1] == xs[i]);
    }
}

/// A fold of `xs` into `s`, one arbitrary step per element. This covers
/// the mixed-type mutators, where the elements folded in are not of the
/// list's own element type.
pub open spec fn fold_step<T, U>(s: Seq<T>, xs: Seq<U>, step: spec_fn(Seq<T>, U) -> Seq<T>) -> Seq<
    T,
>
    decreases xs.len(),
{
    if xs.len() == 0 {
        s
    } else {
        fold_step(step(s, xs[0]), xs.drop_first(), step)
    }
}

/// Every element of `xs` satisfies its guard at the moment its step runs.
pub open spec fn fold_ok<T, U>(
    s: Seq<T>,
    xs: Seq<U>,
    step: spec_fn(Seq<T>, U) -> Seq<T>,
    ok: spec_fn(Seq<T>, U) -> bool,
) -> bool
    decreases xs.len(),
{
    if xs.len() == 0 {
        true
    } else {
        ok(s, xs[0]) && fold_ok(step(s, xs[0]), xs.drop_first(), step, ok)
    }
}

/// A step fold over `i + 1` elements is a step fold over `i` elements
/// followed by one step.
pub proof fn lemma_fold_step_snoc<T, U>(
    s: Seq<T>,
    xs: Seq<U>,
    step: spec_fn(Seq<T>, U) -> Seq<T>,
    i: int,
)
    requires
        0 <= i < xs.len(),
    ensures
        fold_step(s, xs.take(i + 1), step) == step(fold_step(s, xs.take(i), step), xs[i]),
    decreases i,
{
    reveal_with_fuel(fold_step, 3);
    if i == 0 {
        assert(xs.take(0) =~= Seq::<U>::empty());
        assert(xs.take(1)[0] == xs[0]);
        assert(xs.take(1).drop_first() =~= Seq::<U>::empty());
    } else {
        let s1 = step(s, xs[0]);
        lemma_fold_step_snoc(s1, xs.drop_first(), step, i - 1);
        assert(xs.take(i + 1)[0] == xs[0]);
        assert(xs.take(i)[0] == xs[0]);
        assert(xs.take(i + 1).drop_first() =~= xs.drop_first().take(i));
        assert(xs.take(i).drop_first() =~= xs.drop_first().take(i - 1));
        assert(xs.drop_first()[i - 1] == xs[i]);
    }
}

/// When a whole fold is guarded, each element's guard holds at the state
/// its step starts from.
pub proof fn lemma_fold_ok_prefix<T, U>(
    s: Seq<T>,
    xs: Seq<U>,
    step: spec_fn(Seq<T>, U) -> Seq<T>,
    ok: spec_fn(Seq<T>, U) -> bool,
    i: int,
)
    requires
        fold_ok(s, xs, step, ok),
        0 <= i < xs.len(),
    ensures
        ok(fold_step(s, xs.take(i), step), xs[i]),
    decreases i,
{
    reveal_with_fuel(fold_step, 2);
    if i == 0 {
        assert(xs.take(0) =~= Seq::<U>::empty());
    } else {
        let s1 = step(s, xs[0]);
        lemma_fold_ok_prefix(s1, xs.drop_first(), step, ok, i - 1);
        assert(xs.drop_first().take(i - 1) =~= xs.take(i).drop_first());
        assert(xs.take(i)[0] == xs[0]);
        assert(xs.drop_first()[i - 1] == xs[i]);
    }
}

/// A copy of the vector, element for element.
pub fn copy_vec<T: Copy>(v: &Vec<T>) -> (r: Vec<T>)
    ensures
        r@ == v@,
{
    let mut r: Vec<T> = Vec::new();
    let n = v.len();
    let mut j: usize = 0;
    while j < n
        invariant
            n == v@.len(),
            j <= n,
            r@ == v@.take(j as int),
        decreases n - j,
    {
        r.push(v[j]);
        proof {
            assert(v@.take(j as int).push(v@[j as int]) =~= v@.take(j as int + 1));
        }
        j += 1;
    }
    proof {
        assert(v@.take(n as int) =~= v@);
    }
    r
}

/// If all of `xs` can be removed from `s` in order, then after removing
/// the first `i` of them the next one is still present.
pub proof fn lemma_all_removable_prefix<T>(s: Seq<T>, xs: Seq<T>, i: int)
    requires
        all_removable(s, xs),
        0 <= i < xs.len(),
    ensures
        fold_remove(s, xs.take(i)).contains(xs[i]),
    decreases i,
{
    if i == 0 {
        assert(xs.take(0) =~= Seq::<T>::empty());
        reveal_with_fuel(fold_remove, 2);
    } else {
        let s1 = remove_first(s, xs[0]);
        lemma_all_removable_prefix(s1, xs.drop_first(), i - 1);
        assert(xs.drop_first().take(i - 1) =~= xs.take(i).drop_first());
        assert(xs.take(i)[0] == xs[0]);
        assert(xs.drop_first()[i - 1] == xs[i]);
    }
}

/// Whether two vectors hold the same elements in the same order.
pub fn vec_equal<T: PartialEq + Copy>(a: &Vec<T>, b: &Vec<T>) -> (r: bool)
    requires
        eq_is_spec_eq::<T>(),
    ensures
        r == (a@ == b@),
{
    let n = a.len();
    if n != b.len() {
        return false;
    }
    let mut j: usize = 0;
    while j < n
        invariant
            eq_is_spec_eq::<T>(),
            n == a@.len(),
            n == b@.len(),
            j <= n,
            forall|k: int| 0 <= k < j ==> a@[k] == b@[k],
        decreases n - j,
    {
        if !(a[j] == b[j]) {
            return false;
        }
        j += 1;
    }
    proof {
        assert(a@ =~= b@);
    }
    true
}

/// Whether the vector holds `x`.
pub fn vec_contains<T: PartialEq + Copy>(v: &Vec<T>, x: &T) -> (r: bool)
    requires
        eq_is_spec_eq::<T>(),
    ensures
        r == v@.contains(*x),
{
    let mut j: usize = 0;
    while j < v.len()
        invariant
            eq_is_spec_eq::<T>(),
            j <= v@.len(),
            forall|k: int| 0 <= k < j ==> v@[k] != *x,
        decreases v@.len() - j,
    {
        if v[j] == *x {
            return true;
        }
        j += 1;
    }
    false
}

/// Remove the first occurrence of `x` from the vector. Requires `x` to be
/// present, as removing an absent element is a caller error.
pub fn vec_remove_first<T: PartialEq + Copy>(v: &mut Vec<T>, x: &T)
    requires
        eq_is_spec_eq::<T>(),
        old(v)@.contains(*x),
    ensures
        final(v)@ == remove_first(old(v)@, *x),
{
    let ghost orig = v@;
    let n = v.len();
    let mut j: usize = 0;
    while j < n
        invariant
            eq_is_spec_eq::<T>(),
            old(v)@ == orig,
            v@ == orig,
            n == v@.len(),
            j <= n,
            orig.contains(*x),
            forall|k: int| 0 <= k < j ==> v@[k] != *x,
        decreases n - j,
    {
        if v[j] == *x {
            proof {
                orig.index_of_first_ensures(*x);
                assert(orig.index_of_first(*x) is Some);
                let fi = orig.index_of_first(*x)->Some_0;
                assert(orig[j as int] == *x);
                assert(fi == j as int);
                assert(remove_first(orig, *x) == orig.remove(j as int));
            }
            v.remove(j);
            return ;
        }
        j += 1;
    }
    proof {
        assert(false);
    }
}

} // verus!
