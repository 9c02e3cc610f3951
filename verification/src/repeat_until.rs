//! A reader that walks a slice round and round up to a fixed count.

use vstd::prelude::*;

verus! {

/// Yields the items of a slice in order, starting over at the end, until
/// `limit` items have been handed out. An empty slice yields nothing.
pub struct RepeatUntil<'a, T> {
    slice: &'a [T],
    limit: usize,
    count: usize,
    sub_count: usize,
}

impl<'a, T> Clone for RepeatUntil<'a, T> {
    /// A reader over the same slice that goes on from the same place.
    fn clone(&self) -> (r: Self)
        ensures
            r.source() == self.source(),
            r.limit() == self.limit(),
            r.taken() == self.taken(),
    {
        proof {
            use_type_invariant(self);
        }
        RepeatUntil {
            slice: self.slice,
            limit: self.limit,
            count: self.count,
            sub_count: self.sub_count,
        }
    }
}

impl<'a, T> RepeatUntil<'a, T> {
    #[verifier::type_invariant]
    spec fn inv(self) -> bool {
        &&& self.count <= self.limit
        &&& self.sub_count <= self.slice@.len()
        &&& self.count == 0 ==> self.sub_count == 0
        &&& self.count > 0 ==> self.slice@.len() > 0 && self.sub_count == (self.count - 1)
            % (self.slice@.len() as int) + 1
    }

    /// The items being repeated.
    pub closed spec fn source(self) -> Seq<T> {
        self.slice@
    }

    /// How many items are handed out in all.
    pub closed spec fn limit(self) -> nat {
        self.limit as nat
    }

    /// How many items have been handed out so far.
    pub closed spec fn taken(self) -> nat {
        self.count as nat
    }

    /// The item handed out at position `i`, counting from zero.
    pub open spec fn item_at(self, i: int) -> T {
        self.source()[i % (self.source().len() as int)]
    }

    /// Whether another item is still to come.
    pub open spec fn has_next(self) -> bool {
        self.taken() < self.limit() && self.source().len() > 0
    }

    pub fn new(slice: &'a [T], limit: usize) -> (r: Self)
        ensures
            r.source() == slice@,
            r.limit() == limit,
            r.taken() == 0,
    {
        RepeatUntil { slice, limit, count: 0, sub_count: 0 }
    }

    /// Hands out the next item, or `None` once `limit` items are out.
    pub fn next(&mut self) -> (r: Option<&'a T>)
        ensures
            final(self).source() == old(self).source(),
            final(self).limit() == old(self).limit(),
            old(self).has_next() ==> r == Some(&old(self).item_at(old(self).taken() as int))
                && final(self).taken() == old(self).taken() + 1,
            !old(self).has_next() ==> r.is_none() && final(self).taken() == old(self).taken(),
    {
        proof {
            use_type_invariant(&*self);
        }
        let len = self.slice.len();
        if self.count >= self.limit || len == 0 {
            return None;
        }
        let mut sc = self.sub_count;
        if sc >= len {
            sc -= len;
        }
        proof {
            let c = self.count as int;
            let l = len as int;
            if c > 0 {
                // sub_count stands one past the index of the item before
                let prev = (c - 1) % l;
                if prev + 1 == l {
                    vstd::arithmetic::div_mod::lemma_fundamental_div_mod(c - 1, l);
                    let q = (c - 1) / l;
                    assert(c == (q + 1) * l + 0) by (nonlinear_arith)
                        requires
                            c - 1 == l * q + prev,
                            prev + 1 == l,
                    ;
                    vstd::arithmetic::div_mod::lemma_fundamental_div_mod_converse(c, l, q + 1, 0);
                } else {
                    vstd::arithmetic::div_mod::lemma_fundamental_div_mod(c - 1, l);
                    let q = (c - 1) / l;
                    assert(c == q * l + (prev + 1)) by (nonlinear_arith)
                        requires
                            c - 1 == l * q + prev,
                    ;
                    vstd::arithmetic::div_mod::lemma_fundamental_div_mod_converse(
                        c,
                        l,
                        q,
                        prev + 1,
                    );
                }
            } else {
                vstd::arithmetic::div_mod::lemma_small_mod(0, l as nat);
            }
        }
        let v = &self.slice[sc];
        *self = RepeatUntil {
            slice: self.slice,
            limit: self.limit,
            count: self.count + 1,
            sub_count: sc + 1,
        };
        Some(v)
    }

    /// How many items are still to come, as a lower and an upper bound.
    pub fn size_hint(&self) -> (r: (usize, Option<usize>))
        ensures
            r.0 == self.limit() - self.taken(),
            r.1 == Some(r.0),
    {
        proof {
            use_type_invariant(self);
        }
        let s = self.limit - self.count;
        (s, Some(s))
    }

    /// How many items are still to come.
    pub fn count(self) -> (r: usize)
        ensures
            r == self.limit() - self.taken(),
    {
        proof {
            use_type_invariant(&self);
        }
        self.limit - self.count
    }
}

} // verus!
