//! The lazy sequence protocol: pull-next, size hints, and the exact-length
//! capability, together with two basic sources.

use vstd::prelude::*;

verus! {

/// The size hint of a source as a pair of mathematical integers: a lower
/// bound and an optional upper bound on the number of remaining elements.
pub open spec fn hint_as_nat(r: (usize, Option<usize>)) -> (nat, Option<nat>) {
    (
        r.0 as nat,
        match r.1 {
            Some(hi) => Some(hi as nat),
            None => None,
        },
    )
}

/// A producer of a lazy, ordered, finite sequence of elements.
///
/// `remaining` is the mathematical model of the source: the sequence of
/// elements it will still yield, in order. Exhaustion is permanent: `next`
/// answers `None` exactly when no elements remain, and a source that has
/// reported exhaustion keeps reporting it on every later pull (the fused
/// guarantee).
pub trait Source: Sized {
    type Item;

    /// The elements this source will still yield, in order.
    spec fn remaining(&self) -> Seq<Self::Item>;

    /// The size hint this source reports: a lower bound and an optional
    /// upper bound on the number of remaining elements.
    spec fn hint(&self) -> (nat, Option<nat>);

    /// Every source's hint must genuinely bound the remaining count.
    proof fn hint_valid(&self)
        ensures
            self.hint().0 <= self.remaining().len(),
            self.hint().1 matches Some(hi) ==> self.remaining().len() <= hi,
    ;

    /// Yield the next element, or `None` exactly when the source is
    /// exhausted. Exhaustion never consumes or reorders elements.
    fn next(&mut self) -> (r: Option<Self::Item>)
        ensures
            match r {
                Some(e) => old(self).remaining().len() > 0 && e == old(self).remaining().first()
                    && final(self).remaining() == old(self).remaining().drop_first(),
                None => old(self).remaining().len() == 0 && final(self).remaining() == old(
                    self,
                ).remaining(),
            },
    ;

    /// Report the source's size hint.
    fn size_hint(&self) -> (r: (usize, Option<usize>))
        ensures
            hint_as_nat(r) == self.hint(),
    ;
}

/// The exact-length capability: a source whose remaining count is known
/// precisely, not just bounded.
pub trait ExactSource: Source {
    /// An exact source's hint is the remaining count itself, on both ends.
    proof fn hint_exact(&self)
        ensures
            self.hint() == (self.remaining().len(), Some(self.remaining().len())),
    ;

    /// The exact number of remaining elements.
    fn len(&self) -> (r: usize)
        ensures
            r as nat == self.remaining().len(),
    ;
}

/// A source that yields the elements of a vector from front to back.
#[derive(Clone, PartialEq, Eq, Hash, Debug)]
pub struct VecSource<T> {
    items: Vec<T>,
}

impl<T> VecSource<T> {
    /// Wrap a vector as a source of its elements, in order.
    pub fn new(items: Vec<T>) -> (r: Self)
        ensures
            r.remaining() == items@,
    {
        VecSource { items }
    }
}

impl<T> Source for VecSource<T> {
    type Item = T;

    closed spec fn remaining(&self) -> Seq<T> {
        self.items@
    }

    closed spec fn hint(&self) -> (nat, Option<nat>) {
        (self.items@.len(), Some(self.items@.len()))
    }

    proof fn hint_valid(&self) {
    }

    fn next(&mut self) -> (r: Option<T>) {
        if self.items.len() > 0 {
            let e = self.items.remove(0);
            proof {
                assert(self.items@ =~= old(self).items@.drop_first());
            }
            Some(e)
        } else {
            None
        }
    }

    fn size_hint(&self) -> (r: (usize, Option<usize>)) {
        let n = self.items.len();
        (n, Some(n))
    }
}

impl<T> ExactSource for VecSource<T> {
    proof fn hint_exact(&self) {
    }

    fn len(&self) -> (r: usize) {
        self.items.len()
    }
}

/// A source that forwards another source's elements unchanged but reports
/// the least informative size hint, claiming no exactness: the lower bound
/// is zero and there is no upper bound.
#[derive(Clone, PartialEq, Eq, Hash, Debug)]
pub struct NoHint<I> {
    inner: I,
}

impl<I: Source> NoHint<I> {
    /// Hide the size information of `inner`, keeping its elements.
    pub fn new(inner: I) -> (r: Self)
        ensures
            r.remaining() == inner.remaining(),
    {
        NoHint { inner }
    }
}

impl<I: Source> Source for NoHint<I> {
    type Item = I::Item;

    closed spec fn remaining(&self) -> Seq<I::Item> {
        self.inner.remaining()
    }

    closed spec fn hint(&self) -> (nat, Option<nat>) {
        (0, None)
    }

    proof fn hint_valid(&self) {
    }

    fn next(&mut self) -> (r: Option<I::Item>) {
        self.inner.next()
    }

    fn size_hint(&self) -> (r: (usize, Option<usize>)) {
        (0, None)
    }
}

} // verus!
