//! The model of a stack: a sequence whose first element is the top.
//!
//! The stacks of this crate state what they do over the functions of this
//! module, and the laws at its end say what follows for runs of pushes and
//! pops.

use vstd::prelude::*;

verus! {

/// The stack `s` with `v` placed on top of it.
pub open spec fn pushed<T>(s: Seq<T>, v: T) -> Seq<T> {
    seq![v] + s
}

/// The top of the stack `s`, or `None` where `s` is empty.
pub open spec fn top<T>(s: Seq<T>) -> Option<T> {
    if s.len() == 0 {
        None
    } else {
        Some(s[0])
    }
}

/// What is left of `s` once its top is taken off; an empty stack stays empty.
pub open spec fn rest<T>(s: Seq<T>) -> Seq<T> {
    if s.len() == 0 {
        s
    } else {
        s.skip(1)
    }
}

/// The non-empty stack `s` with `v` in place of its top.
pub open spec fn retopped<T>(s: Seq<T>, v: T) -> Seq<T>
    recommends
        s.len() > 0,
{
    s.update(0, v)
}

/// The stack `s` after each element of `vs` was pushed on it, `vs[0]` first.
pub open spec fn push_all<T>(s: Seq<T>, vs: Seq<T>) -> Seq<T>
    decreases vs.len(),
{
    if vs.len() == 0 {
        s
    } else {
        pushed(push_all(s, vs.drop_last()), vs.last())
    }
}

/// The stack `s` after `k` pops.
pub open spec fn after_pops<T>(s: Seq<T>, k: nat) -> Seq<T>
    decreases k,
{
    if k == 0 {
        s
    } else {
        rest(after_pops(s, (k - 1) as nat))
    }
}

/// What the pop that follows `k` earlier pops on `s` returns.
pub open spec fn pop_result<T>(s: Seq<T>, k: nat) -> Option<T> {
    top(after_pops(s, k))
}

/// Pushing a run of values stacks them in reverse on what was there: the
/// value pushed last lies on top, and below the run lies the old stack.
pub proof fn lemma_push_all<T>(s: Seq<T>, vs: Seq<T>)
    ensures
        push_all(s, vs) == vs.reverse() + s,
    decreases vs.len(),
{
    if vs.len() > 0 {
        lemma_push_all(s, vs.drop_last());
    }
}

/// `k` pops take the `k` topmost elements off, or all of them where the
/// stack holds fewer; the pop that follows returns the element that then
/// lies on top, or `None` where none is left.
pub proof fn lemma_after_pops<T>(s: Seq<T>, k: nat)
    ensures
        k <= s.len() ==> after_pops(s, k) == s.skip(k as int),
        k >= s.len() ==> after_pops(s, k) == Seq::<T>::empty(),
        pop_result(s, k) == (if k < s.len() {
            Some(s[k as int])
        } else {
            None
        }),
    decreases k,
{
    if k > 0 {
        lemma_after_pops(s, (k - 1) as nat);
    }
}

/// Last in, first out: after `vs[0]`, ..., `vs[n - 1]` were pushed on any
/// stack, `n` pops return `vs[n - 1]`, ..., `vs[0]` in that order and leave
/// the stack as it was before the pushes. Where it was empty, the pop after
/// them returns `None`.
pub proof fn lemma_last_in_first_out<T>(s: Seq<T>, vs: Seq<T>)
    ensures
        forall|k: nat|
            k < vs.len() ==> #[trigger] pop_result(push_all(s, vs), k) == Some(
                vs[vs.len() - 1 - k],
            ),
        after_pops(push_all(s, vs), vs.len()) == s,
        s.len() == 0 ==> pop_result(push_all(s, vs), vs.len()) is None,
{
    let full = push_all(s, vs);
    lemma_push_all(s, vs);
    assert forall|k: nat| k < vs.len() implies #[trigger] pop_result(full, k) == Some(
        vs[vs.len() - 1 - k],
    ) by {
        lemma_after_pops(full, k);
    }
    lemma_after_pops(full, vs.len());
}

/// A look at the top of an empty stack sees nothing. After a push it sees
/// the value that was pushed, whatever lay below, and taking that value off
/// again leaves the stack as it was before the push.
pub proof fn lemma_top_of_pushed<T>(s: Seq<T>, v: T)
    ensures
        top(Seq::<T>::empty()) is None,
        top(pushed(s, v)) == Some(v),
        rest(pushed(s, v)) == s,
{
}

/// A value written over the top of a stack is the one that the next look at
/// the top sees and that the next pop returns, and that pop leaves what lay
/// below the old top.
pub proof fn lemma_top_of_retopped<T>(s: Seq<T>, v: T)
    requires
        s.len() > 0,
    ensures
        top(retopped(s, v)) == Some(v),
        pop_result(retopped(s, v), 0) == Some(v),
        rest(retopped(s, v)) == rest(s),
{
}

/// Draining a stack on which `vs[0]`, ..., `vs[n - 1]` were pushed, starting
/// from an empty one: the first `n` steps hand out `vs[n - 1]`, ..., `vs[0]`
/// in that order, and every step from then on hands out `None`.
pub proof fn lemma_drain_order<T>(vs: Seq<T>, k: nat)
    ensures
        pop_result(push_all(Seq::<T>::empty(), vs), k) == (if k < vs.len() {
            Some(vs[vs.len() - 1 - k])
        } else {
            None
        }),
        k >= vs.len() ==> after_pops(push_all(Seq::<T>::empty(), vs), k) == Seq::<T>::empty(),
{
    let full = push_all(Seq::<T>::empty(), vs);
    lemma_push_all(Seq::<T>::empty(), vs);
    lemma_after_pops(full, k);
}

} // verus!
