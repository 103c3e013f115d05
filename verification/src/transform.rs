//! The stateful transform and the accumulator protocol, with the
//! mathematical model of a scan: the threaded states, the produced outputs,
//! and folding over them.

use vstd::prelude::*;

verus! {

/// A callable taking a mutable reference to a state of type `S` and one
/// element of type `T`, producing one value of type `Self::Output`.
///
/// The two spec functions are the mathematical model of the callable: what
/// the state becomes and what value comes out, as functions of the state and
/// the element alone. An implementor may carry captured data of its own and
/// mutate it freely on each call, but that data may not influence the state
/// written back or the value produced.
pub trait Transform<S, T>: Sized {
    type Output;

    /// The state after the transform ran on state `s` and element `e`.
    spec fn post_state(s: S, e: T) -> S;

    /// The value the transform produces from state `s` and element `e`.
    spec fn out(s: S, e: T) -> Self::Output;

    /// Run the transform once: mutate the state and produce one output.
    fn apply(&mut self, state: &mut S, elem: T) -> (r: Self::Output)
        ensures
            *final(state) == Self::post_state(*old(state), elem),
            r == Self::out(*old(state), elem),
    ;
}

/// A combining callable for bulk consumption: it folds one produced value
/// of type `B` into an accumulator of type `A`.
///
/// As with [`Transform`], the spec function pins the result down as a
/// function of the accumulator and the value alone.
pub trait Combiner<A, B>: Sized {
    /// The accumulator after folding `b` into `a`.
    spec fn combined(a: A, b: B) -> A;

    /// Fold one value into the accumulator.
    fn combine(&mut self, acc: A, b: B) -> (r: A)
        ensures
            r == Self::combined(acc, b),
    ;
}

/// The state after a transform of type `F` has consumed every element of
/// `elems`, in order, starting from `s0`.
pub open spec fn scan_state<S, T, F: Transform<S, T>>(s0: S, elems: Seq<T>) -> S
    decreases elems.len(),
{
    if elems.len() == 0 {
        s0
    } else {
        scan_state::<S, T, F>(F::post_state(s0, elems.first()), elems.drop_first())
    }
}

/// The outputs a transform of type `F` produces from the elements of
/// `elems`, in order, threading the state from `s0` strictly left to right.
pub open spec fn scan_outputs<S, T, F: Transform<S, T>>(s0: S, elems: Seq<T>) -> Seq<F::Output>
    decreases elems.len(),
{
    if elems.len() == 0 {
        Seq::empty()
    } else {
        seq![F::out(s0, elems.first())] + scan_outputs::<S, T, F>(
            F::post_state(s0, elems.first()),
            elems.drop_first(),
        )
    }
}

/// The accumulator after a combiner of type `C` has folded every value of
/// `bs` into `init`, in order.
pub open spec fn fold_outputs<A, B, C: Combiner<A, B>>(init: A, bs: Seq<B>) -> A
    decreases bs.len(),
{
    if bs.len() == 0 {
        init
    } else {
        fold_outputs::<A, B, C>(C::combined(init, bs.first()), bs.drop_first())
    }
}

/// Law: folding a non-empty sequence of values is one combining step
/// followed by folding the rest, so consuming outputs one pull at a time
/// and combining each as it comes reaches the same accumulator as bulk
/// consumption over the same outputs.
pub proof fn lemma_fold_outputs_step<A, B, C: Combiner<A, B>>(init: A, bs: Seq<B>)
    requires
        bs.len() > 0,
    ensures
        fold_outputs::<A, B, C>(init, bs) == fold_outputs::<A, B, C>(
            C::combined(init, bs.first()),
            bs.drop_first(),
        ),
{
}

/// Law: a scan produces exactly one output per source element.
pub proof fn lemma_scan_outputs_len<S, T, F: Transform<S, T>>(s0: S, elems: Seq<T>)
    ensures
        scan_outputs::<S, T, F>(s0, elems).len() == elems.len(),
    decreases elems.len(),
{
    if elems.len() > 0 {
        lemma_scan_outputs_len::<S, T, F>(F::post_state(s0, elems.first()), elems.drop_first());
    }
}

/// Law: the outputs of a scan come in source order with the state threaded
/// strictly left to right: the output at position `k` is the transform's
/// value on the state reached after the first `k` elements and on the
/// element at position `k`.
pub proof fn lemma_scan_outputs_index<S, T, F: Transform<S, T>>(s0: S, elems: Seq<T>, k: int)
    requires
        0 <= k < elems.len(),
    ensures
        scan_outputs::<S, T, F>(s0, elems).len() == elems.len(),
        scan_outputs::<S, T, F>(s0, elems)[k] == F::out(
            scan_state::<S, T, F>(s0, elems.take(k)),
            elems[k],
        ),
    decreases elems.len(),
{
    lemma_scan_outputs_len::<S, T, F>(s0, elems);
    let s1 = F::post_state(s0, elems.first());
    if k == 0 {
        assert(elems.take(0) =~= Seq::<T>::empty());
        assert(scan_outputs::<S, T, F>(s0, elems)[0] == F::out(s0, elems[0]));
    } else {
        let rest = elems.drop_first();
        lemma_scan_outputs_index::<S, T, F>(s1, rest, k - 1);
        assert(rest.take(k - 1) =~= elems.take(k).drop_first());
        assert(elems.take(k).first() == elems.first());
        assert(scan_state::<S, T, F>(s0, elems.take(k)) == scan_state::<S, T, F>(
            s1,
            rest.take(k - 1),
        ));
        assert(scan_outputs::<S, T, F>(s0, elems)[k] == scan_outputs::<S, T, F>(s1, rest)[k - 1]);
        assert(rest[k - 1] == elems[k]);
    }
}

/// A transform over `i64` state and elements: it multiplies the element
/// into the running state (wrapping on overflow) and yields the negation of
/// the new state (again wrapping).
#[derive(Clone, Copy, PartialEq, Eq, Hash, Debug)]
pub struct NegatedProduct;

impl Transform<i64, i64> for NegatedProduct {
    type Output = i64;

    open spec fn post_state(s: i64, e: i64) -> i64 {
        s.wrapping_mul(e)
    }

    open spec fn out(s: i64, e: i64) -> i64 {
        0i64.wrapping_sub(s.wrapping_mul(e))
    }

    fn apply(&mut self, state: &mut i64, elem: i64) -> (r: i64) {
        let p = (*state).wrapping_mul(elem);
        *state = p;
        0i64.wrapping_sub(p)
    }
}

/// A combiner over `i64` values: wrapping addition of each value into the
/// accumulator.
#[derive(Clone, Copy, PartialEq, Eq, Hash, Debug)]
pub struct WrappingSum;

impl Combiner<i64, i64> for WrappingSum {
    open spec fn combined(a: i64, b: i64) -> i64 {
        a.wrapping_add(b)
    }

    fn combine(&mut self, acc: i64, b: i64) -> (r: i64) {
        acc.wrapping_add(b)
    }
}

} // verus!
