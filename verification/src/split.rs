//! The combined object and its two halves.

use crate::token::PairToken;
use std::marker::PhantomData;
use std::ops::{Deref, DerefMut};
use vstd::prelude::*;

verus! {

/// A read part and a write part under one owner.
pub struct Splittable<R, W> {
    r: R,
    w: W,
}

impl<R, W> View for Splittable<R, W> {
    type V = (R, W);

    /// The read part and the write part, in this order.
    closed spec fn view(&self) -> (R, W) {
        (self.r, self.w)
    }
}

impl<R, W> Splittable<R, W> {
    /// Puts `r` and `w` under one owner. Any two values will do.
    pub fn new(r: R, w: W) -> (s: Self)
        ensures
            s@ == (r, w),
    {
        Self { r, w }
    }

    /// A combined object is its two parts and nothing more.
    pub proof fn same_parts_same_object(a: Self, b: Self)
        requires
            a@ == b@,
        ensures
            a == b,
    {
    }

    /// What `split` may hand out for `self`: the read half holds its read
    /// part, the write half its write part, and one token marks both.
    pub open spec fn splits_into(&self, r: &RHalf<R, W>, w: &WHalf<R, W>) -> bool {
        &&& r.inner() == self@.0
        &&& w.inner() == self@.1
        &&& r.pairs_with(w)
    }

    /// Gives the two parts an owner each and marks both with a token that is
    /// allocated here. The contract says that the two halves share it; that no
    /// other live half does rests on the allocator and is not stated.
    pub fn split(self) -> (halves: (RHalf<R, W>, WHalf<R, W>))
        ensures
            self.splits_into(&halves.0, &halves.1),
    {
        let key = PairToken::allocate(0);
        (RHalf::new(self.r, key.share()), WHalf::new(self.w, key))
    }

    /// The read part.
    pub fn get_r(&self) -> (r: &R)
        ensures
            *r == self@.0,
    {
        &self.r
    }

    /// The write part.
    pub fn get_w(&self) -> (w: &W)
        ensures
            *w == self@.1,
    {
        &self.w
    }

    /// The read part, to change in place; the write part stays as it is.
    pub fn get_r_mut(&mut self) -> (r: &mut R)
        ensures
            *r == old(self)@.0,
            final(self)@ == (*final(r), old(self)@.1),
    {
        &mut self.r
    }

    /// The write part, to change in place; the read part stays as it is.
    pub fn get_w_mut(&mut self) -> (w: &mut W)
        ensures
            *w == old(self)@.1,
            final(self)@ == (old(self)@.0, *final(w)),
    {
        &mut self.w
    }
}

/// Until it is split, the combined object stands in for its read part.
impl<R, W> Deref for Splittable<R, W> {
    type Target = R;

    fn deref(&self) -> (r: &R)
        ensures
            *r == self@.0,
    {
        &self.r
    }
}

impl<R, W> DerefMut for Splittable<R, W> {
    fn deref_mut(&mut self) -> (r: &mut R)
        ensures
            *r == old(self)@.0,
            final(self)@ == (*final(r), old(self)@.1),
    {
        &mut self.r
    }
}

/// The read part of a split, with the token of that split.
pub struct RHalf<R, W> {
    k: PairToken,
    r: R,
    _p: PhantomData<W>,
}

impl<R, W> RHalf<R, W> {
    /// The token that marks this half.
    pub closed spec fn token(&self) -> PairToken {
        self.k
    }

    /// The read part that this half owns.
    pub closed spec fn inner(&self) -> R {
        self.r
    }

    /// Both halves carry the token of one split.
    pub open spec fn pairs_with(&self, w: &WHalf<R, W>) -> bool {
        self.token() == w.token()
    }

    /// What joining `self` and `w` gives: the halves are a pair, and `s` holds
    /// the part of each.
    pub open spec fn joins_into(&self, w: &WHalf<R, W>, s: &Splittable<R, W>) -> bool {
        &&& self.pairs_with(w)
        &&& s@ == (self.inner(), w.inner())
    }

    pub(crate) fn new(r: R, k: PairToken) -> (half: Self)
        ensures
            half.token() == k,
            half.inner() == r,
    {
        Self { k, r, _p: PhantomData }
    }

    /// Whether `w` comes from the split that `self` comes from. The parts
    /// that the halves hold play no role.
    pub fn is_pair_of(&self, w: &WHalf<R, W>) -> (paired: bool)
        ensures
            paired == self.pairs_with(w),
    {
        self.k.same(&w.k)
    }

    /// Joins the halves if they are a pair, and hands both back untouched if
    /// they are not.
    pub fn try_unsplit(self, w: WHalf<R, W>) -> (joined: Result<
        Splittable<R, W>,
        (RHalf<R, W>, WHalf<R, W>),
    >)
        ensures
            match joined {
                Ok(s) => self.joins_into(&w, &s),
                Err(halves) => !self.pairs_with(&w) && halves.0 == self && halves.1 == w,
            },
    {
        if self.is_pair_of(&w) {
            Ok(Splittable::new(self.r, w.w))
        } else {
            Err((self, w))
        }
    }

    /// Joins a pair of halves. The token is tested on every call all the
    /// same: a caller that the verifier has not seen and that hands in halves
    /// of two splits ends the program here, with the message "not a pair".
    pub fn unsplit(self, w: WHalf<R, W>) -> (s: Splittable<R, W>)
        requires
            self.pairs_with(&w),
        ensures
            self.joins_into(&w, &s),
    {
        self.try_unsplit(w).ok().expect("not a pair")
    }
}

/// A read half stands in for the read part it owns.
impl<R, W> Deref for RHalf<R, W> {
    type Target = R;

    fn deref(&self) -> (r: &R)
        ensures
            *r == self.inner(),
    {
        &self.r
    }
}

/// Changing the part leaves the token alone.
impl<R, W> DerefMut for RHalf<R, W> {
    fn deref_mut(&mut self) -> (r: &mut R)
        ensures
            *r == old(self).inner(),
            final(self).inner() == *final(r),
            final(self).token() == old(self).token(),
    {
        &mut self.r
    }
}

/// The write part of a split, with the token of that split.
pub struct WHalf<R, W> {
    k: PairToken,
    w: W,
    _p: PhantomData<R>,
}

impl<R, W> WHalf<R, W> {
    /// The token that marks this half.
    pub closed spec fn token(&self) -> PairToken {
        self.k
    }

    /// The write part that this half owns.
    pub closed spec fn inner(&self) -> W {
        self.w
    }

    /// Both halves carry the token of one split.
    pub open spec fn pairs_with(&self, r: &RHalf<R, W>) -> bool {
        self.token() == r.token()
    }

    /// What joining `self` and `r` gives: what joining `r` and `self` gives.
    pub open spec fn joins_into(&self, r: &RHalf<R, W>, s: &Splittable<R, W>) -> bool {
        &&& self.pairs_with(r)
        &&& s@ == (r.inner(), self.inner())
    }

    pub(crate) fn new(w: W, k: PairToken) -> (half: Self)
        ensures
            half.token() == k,
            half.inner() == w,
    {
        Self { k, w, _p: PhantomData }
    }

    /// Whether `r` comes from the split that `self` comes from.
    pub fn is_pair_of(&self, r: &RHalf<R, W>) -> (paired: bool)
        ensures
            paired == self.pairs_with(r),
    {
        r.is_pair_of(self)
    }

    /// Joins the halves if they are a pair, and hands both back untouched if
    /// they are not.
    pub fn try_unsplit(self, r: RHalf<R, W>) -> (joined: Result<
        Splittable<R, W>,
        (RHalf<R, W>, WHalf<R, W>),
    >)
        ensures
            match joined {
                Ok(s) => self.joins_into(&r, &s),
                Err(halves) => !self.pairs_with(&r) && halves.0 == r && halves.1 == self,
            },
    {
        r.try_unsplit(self)
    }

    /// Joins a pair of halves, as `RHalf::unsplit` does.
    pub fn unsplit(self, r: RHalf<R, W>) -> (s: Splittable<R, W>)
        requires
            self.pairs_with(&r),
        ensures
            self.joins_into(&r, &s),
    {
        r.unsplit(self)
    }
}

/// A write half stands in for the write part it owns.
impl<R, W> Deref for WHalf<R, W> {
    type Target = W;

    fn deref(&self) -> (w: &W)
        ensures
            *w == self.inner(),
    {
        &self.w
    }
}

/// Changing the part leaves the token alone.
impl<R, W> DerefMut for WHalf<R, W> {
    fn deref_mut(&mut self) -> (w: &mut W)
        ensures
            *w == old(self).inner(),
            final(self).inner() == *final(w),
            final(self).token() == old(self).token(),
    {
        &mut self.w
    }
}

} // verus!
