//! A stateful mapping adapter over lazy sequences.
//!
//! The adapter wraps a source of elements, a running state value, and a
//! transform; each pull takes one element from the source, feeds it together
//! with a mutable reference to the state into the transform, and yields the
//! transform's return value. The source running out of elements is the only
//! termination condition.

pub mod source;
pub mod transform;

pub use source::ExactSource;
pub use source::NoHint;
pub use source::Source;
pub use source::VecSource;
pub use source::hint_as_nat;
pub use transform::Combiner;
pub use transform::NegatedProduct;
pub use transform::Transform;
pub use transform::WrappingSum;
pub use transform::fold_outputs;
pub use transform::lemma_fold_outputs_step;
pub use transform::lemma_scan_outputs_index;
pub use transform::lemma_scan_outputs_len;
pub use transform::scan_outputs;
pub use transform::scan_state;

use vstd::prelude::*;

verus! {

/// Build a stateful mapping sequence from any [`Source`].
///
/// The resulting [`ScanB`] yields one output per source element: each pull
/// feeds the next element, together with a mutable reference to the running
/// state, into the transform, and yields the transform's return value. The
/// source running out of elements is the only termination condition.
pub trait IterScanB: Source {
    /// Wrap this source, an initial state, and a transform into a lazy
    /// stateful mapping sequence.
    ///
    /// No validation is performed: the state and the transform are taken
    /// as they are, and the source is consumed.
    fn scanb<S, F: Transform<S, Self::Item>>(self, init_state: S, f: F) -> (r: ScanB<Self, S, F>)
        ensures
            r.state() == init_state,
            r.source_items() == self.remaining(),
            r.source_hint() == self.hint(),
            r.remaining() == scan_outputs::<S, Self::Item, F>(init_state, self.remaining()),
    ;
}

impl<I: Source> IterScanB for I {
    fn scanb<S, F: Transform<S, I::Item>>(self, init_state: S, f: F) -> (r: ScanB<I, S, F>) {
        ScanB { iter: self, f, state: init_state }
    }
}

/// A lazy stateful mapping sequence: a source, a running state, and a
/// transform, yielding the transform's value for each source element.
///
/// Create one with [`IterScanB::scanb`]. The state is mutated exactly once
/// per produced output, in lockstep with the source's advancement; for that
/// reason no skip-ahead shortcut is offered, and bulk consumption (see
/// [`ScanB::fold`]) still runs the transform once per source element.
#[must_use]
#[derive(Clone, PartialEq, Eq, Hash)]
pub struct ScanB<I, S, F> {
    iter: I,
    f: F,
    state: S,
}

impl<I: Source, S, F> ScanB<I, S, F> {
    /// The current state value.
    pub closed spec fn state(&self) -> S {
        self.state
    }

    /// The elements the underlying source will still yield.
    pub closed spec fn source_items(&self) -> Seq<I::Item> {
        self.iter.remaining()
    }

    /// The size hint the underlying source reports.
    pub closed spec fn source_hint(&self) -> (nat, Option<nat>) {
        self.iter.hint()
    }

    /// Read the current state value.
    pub fn current_state(&self) -> (r: &S)
        ensures
            *r == self.state(),
    {
        &self.state
    }
}

impl<I: core::fmt::Debug, S: core::fmt::Debug, F> ScanB<I, S, F> {
    /// A diagnostic rendering that shows the source and the current state
    /// and deliberately omits the transform, since arbitrary callables have
    /// no useful rendering. Relies on the `Debug` formatting of the two
    /// fields through std's `format!`.
    #[verifier::external_body]
    pub fn debug_str(&self) -> String {
        format!("ScanB {{ iter: {:?}, state: {:?} }}", self.iter, self.state)
    }
}

impl<I: Source, S, F: Transform<S, I::Item>> ScanB<I, S, F> {
    /// Law: the sequence this adapter will still yield is exactly the scan
    /// of the source's remaining elements from the current state.
    pub proof fn lemma_remaining_is_scan(&self)
        ensures
            self.remaining() == scan_outputs::<S, I::Item, F>(self.state(), self.source_items()),
            self.remaining().len() == self.source_items().len(),
    {
        lemma_scan_outputs_len::<S, I::Item, F>(self.state, self.iter.remaining());
    }

    /// Consume the whole remainder of the sequence, folding every output
    /// into the accumulator in order. The transform still runs exactly once
    /// per source element, so this is guaranteed to return the same
    /// accumulator as pulling every element singly and combining each
    /// output as it comes.
    pub fn fold<A, C: Combiner<A, F::Output>>(self, init: A, c: C) -> (r: A)
        ensures
            r == fold_outputs::<A, F::Output, C>(
                init,
                scan_outputs::<S, I::Item, F>(self.state(), self.source_items()),
            ),
    {
        let ghost s0 = self.state();
        let ghost items0 = self.source_items();
        let mut this = self;
        let mut comb = c;
        let mut acc = init;
        #[verifier::loop_isolation(false)]
        loop
            invariant
                fold_outputs::<A, F::Output, C>(
                    acc,
                    scan_outputs::<S, I::Item, F>(this.state(), this.source_items()),
                ) == fold_outputs::<A, F::Output, C>(
                    init,
                    scan_outputs::<S, I::Item, F>(s0, items0),
                ),
            decreases this.source_items().len(),
        {
            let ghost pre = this;
            match this.next() {
                Some(b) => {
                    proof {
                        let outs = scan_outputs::<S, I::Item, F>(
                            pre.state(),
                            pre.source_items(),
                        );
                        let tail = scan_outputs::<S, I::Item, F>(
                            this.state(),
                            this.source_items(),
                        );
                        assert(outs == seq![b] + tail);
                        assert(outs.first() == b);
                        assert(outs.drop_first() =~= tail);
                        transform::lemma_fold_outputs_step::<A, F::Output, C>(acc, outs);
                    }
                    acc = comb.combine(acc, b);
                },
                None => {
                    proof {
                        assert(scan_outputs::<S, I::Item, F>(this.state(), this.source_items())
                            =~= Seq::<F::Output>::empty());
                    }
                    return acc;
                },
            }
        }
    }
}

impl<I: Source, S, F: Transform<S, I::Item>> Source for ScanB<I, S, F> {
    type Item = F::Output;

    closed spec fn remaining(&self) -> Seq<F::Output> {
        scan_outputs::<S, I::Item, F>(self.state, self.iter.remaining())
    }

    closed spec fn hint(&self) -> (nat, Option<nat>) {
        self.iter.hint()
    }

    proof fn hint_valid(&self) {
        self.iter.hint_valid();
        lemma_scan_outputs_len::<S, I::Item, F>(self.state, self.iter.remaining());
    }

    /// Pull one output: take the next source element, if any, run the
    /// transform on the state and that element, and yield its value. The
    /// state is mutated exactly once when an element is available and not
    /// at all on exhaustion, and exhaustion is permanent.
    fn next(&mut self) -> (r: Option<F::Output>)
        ensures
            match r {
                Some(b) => old(self).source_items().len() > 0 && b == F::out(
                    old(self).state(),
                    old(self).source_items().first(),
                ) && final(self).state() == F::post_state(
                    old(self).state(),
                    old(self).source_items().first(),
                ) && final(self).source_items() == old(self).source_items().drop_first(),
                None => old(self).source_items().len() == 0 && final(self).state() == old(
                    self,
                ).state() && final(self).source_items() == old(self).source_items(),
            },
    {
        proof {
            lemma_scan_outputs_len::<S, I::Item, F>(self.state, self.iter.remaining());
        }
        match self.iter.next() {
            Some(elem) => {
                let b = self.f.apply(&mut self.state, elem);
                proof {
                    let tail = scan_outputs::<S, I::Item, F>(self.state, self.iter.remaining());
                    assert(old(self).remaining() == seq![b] + tail);
                    assert((seq![b] + tail).drop_first() =~= tail);
                }
                Some(b)
            },
            None => None,
        }
    }

    /// Report exactly the source's own size hint: since the adapter yields
    /// one output per source element and filters nothing, its size
    /// characteristics are the source's.
    fn size_hint(&self) -> (r: (usize, Option<usize>))
        ensures
            hint_as_nat(r) == self.source_hint(),
    {
        self.iter.size_hint()
    }
}

impl<I: ExactSource, S, F: Transform<S, I::Item>> ExactSource for ScanB<I, S, F> {
    proof fn hint_exact(&self) {
        self.iter.hint_exact();
        lemma_scan_outputs_len::<S, I::Item, F>(self.state, self.iter.remaining());
    }

    /// The exact number of outputs still to come: exactly the source's own
    /// remaining count.
    fn len(&self) -> (r: usize)
        ensures
            r as nat == self.source_items().len(),
    {
        proof {
            lemma_scan_outputs_len::<S, I::Item, F>(self.state, self.iter.remaining());
        }
        self.iter.len()
    }
}

} // verus!

