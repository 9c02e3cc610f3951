//! Pairing the waves of a slit with the bins that collect them.

use crate::diffraction::Wave;
use crate::scalar::Scalar;
use vstd::prelude::*;

verus! {

/// The wavelengths of the bins `bins`, in order.
pub open spec fn keys_of<T, A>(bins: Seq<(T, A)>) -> Seq<T> {
    bins.map_values(|p: (T, A)| p.0)
}

/// The first position at or after `from` whose key compares equal to
/// `lambda`; the length of `keys` if there is none.
pub open spec fn next_match<T: Scalar>(keys: Seq<T>, from: int, lambda: T) -> int
    decreases keys.len() - from,
{
    if from < 0 || from >= keys.len() {
        keys.len() as int
    } else if keys[from].spec_same(lambda) {
        from
    } else {
        next_match(keys, from + 1, lambda)
    }
}

/// A match lies at or after the place the search began, and every key
/// before it differs.
pub proof fn lemma_next_match<T: Scalar>(keys: Seq<T>, from: int, lambda: T)
    requires
        0 <= from <= keys.len(),
    ensures
        from <= next_match(keys, from, lambda) <= keys.len(),
        next_match(keys, from, lambda) < keys.len() ==> keys[next_match(
            keys,
            from,
            lambda,
        )].spec_same(lambda),
        forall|i: int| from <= i < next_match(keys, from, lambda) ==> !keys[i].spec_same(lambda),
    decreases keys.len() - from,
{
    if from < keys.len() && !keys[from].spec_same(lambda) {
        lemma_next_match(keys, from + 1, lambda);
    }
}

/// Walks two lists side by side, the bins on the left and the waves on
/// the right, and hands out the positions of each pair of equal
/// wavelength. It holds the two places only: the lists are handed to
/// `next`, so that the caller stays free to write to the bins between
/// two calls.
pub struct LambdaZip {
    left: usize,
    right: usize,
}

impl Clone for LambdaZip {
    fn clone(&self) -> (r: Self)
        ensures
            r.left() == self.left(),
            r.right() == self.right(),
    {
        LambdaZip { left: self.left, right: self.right }
    }
}

impl LambdaZip {
    /// The place in the bins from which the search goes on.
    pub closed spec fn left(self) -> int {
        self.left as int
    }

    /// The next wave to find a bin for.
    pub closed spec fn right(self) -> int {
        self.right as int
    }

    pub fn new() -> (r: Self)
        ensures
            r.left() == 0,
            r.right() == 0,
    {
        LambdaZip { left: 0, right: 0 }
    }

    /// The next pair: the position of the bin and that of the wave.
    /// `None` when the waves are through or a wave finds no bin; in the
    /// second case the bins are used up, and no later wave finds one.
    pub fn next<T: Scalar, A>(&mut self, keys: &Vec<(T, A)>, waves: &[Wave<T>]) -> (r: Option<
        (usize, usize),
    >)
        requires
            old(self).left() <= keys@.len(),
            old(self).right() <= waves@.len(),
        ensures
            final(self).left() <= keys@.len(),
            final(self).right() <= waves@.len(),
            old(self).right() >= waves@.len() ==> r.is_none() && final(self).left() == old(
                self,
            ).left() && final(self).right() == old(self).right(),
            old(self).right() < waves@.len() ==> {
                let m = next_match(
                    keys_of(keys@),
                    old(self).left(),
                    waves@[old(self).right()].lambda,
                );
                &&& final(self).right() == old(self).right() + 1
                &&& 0 <= old(self).left() <= m
                &&& m < keys@.len() ==> (r matches Some(p) && p.0 == m && p.1 == old(self).right())
                    && final(self).left() == m + 1
                &&& m >= keys@.len() ==> r.is_none() && final(self).left() == keys@.len()
            },
    {
        let ghost ks = keys_of(keys@);
        if self.right >= waves.len() {
            return None;
        }
        let lambda = waves[self.right].lambda;
        let start = self.right;
        self.right += 1;
        let ghost from = self.left as int;
        proof {
            lemma_next_match(ks, from, lambda);
        }
        while self.left < keys.len()
            invariant
                ks == keys_of(keys@),
                from == old(self).left(),
                start == old(self).right(),
                from <= self.left <= keys@.len(),
                self.right == start + 1,
                start < waves@.len(),
                lambda == waves@[start as int].lambda,
                next_match(ks, from, lambda) == next_match(ks, self.left as int, lambda),
            decreases keys@.len() - self.left,
        {
            let at = self.left;
            self.left += 1;
            if keys[at].0.same(lambda) {
                return Some((at, start));
            }
        }
        None
    }
}

} // verus!
