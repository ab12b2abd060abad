//! What holds of splitting, pairing and joining, whatever the parts are.
//!
//! Each statement is over the spec functions in which the operations state
//! what they return: `splits_into` for `split`, `pairs_with` for `is_pair_of`
//! and `joins_into` for `unsplit`.

use crate::split::{RHalf, Splittable, WHalf};
use vstd::prelude::*;

verus! {

/// The two halves that a split hands out are a pair, asked from either side.
pub proof fn split_halves_are_a_pair<R, W>(s: Splittable<R, W>, r: RHalf<R, W>, w: WHalf<R, W>)
    requires
        s.splits_into(&r, &w),
    ensures
        r.pairs_with(&w),
        w.pairs_with(&r),
{
}

/// Pairing is symmetric: a read half pairs with a write half exactly when
/// that write half pairs with it.
pub proof fn pairing_is_symmetric<R, W>(r: RHalf<R, W>, w: WHalf<R, W>)
    ensures
        r.pairs_with(&w) == w.pairs_with(&r),
{
}

/// Of two pairs, the halves pair crosswise both ways or not at all, and they
/// do so exactly when one token marks all four.
pub proof fn crossed_pairs_agree<R, W>(
    r1: RHalf<R, W>,
    w1: WHalf<R, W>,
    r2: RHalf<R, W>,
    w2: WHalf<R, W>,
)
    requires
        r1.pairs_with(&w1),
        r2.pairs_with(&w2),
    ensures
        r1.pairs_with(&w2) == r2.pairs_with(&w1),
        r1.pairs_with(&w2) == (r1.token() == r2.token()),
        w1.pairs_with(&r2) == (w1.token() == w2.token()),
{
}

/// Joining a pair and splitting the result gives halves that hold the parts
/// that the first two held, and that are a pair again.
pub proof fn unsplit_then_split_keeps_the_parts<R, W>(
    r: RHalf<R, W>,
    w: WHalf<R, W>,
    joined: Splittable<R, W>,
    r2: RHalf<R, W>,
    w2: WHalf<R, W>,
)
    requires
        r.joins_into(&w, &joined),
        joined.splits_into(&r2, &w2),
    ensures
        r2.inner() == r.inner(),
        w2.inner() == w.inner(),
        r2.pairs_with(&w2),
{
}

/// Splitting a combined object and joining its halves gives the object back.
pub proof fn split_then_unsplit_restores<R, W>(
    s: Splittable<R, W>,
    r: RHalf<R, W>,
    w: WHalf<R, W>,
    joined: Splittable<R, W>,
)
    requires
        s.splits_into(&r, &w),
        r.joins_into(&w, &joined),
    ensures
        joined == s,
{
    Splittable::same_parts_same_object(joined, s);
}

/// Joining from the write half gives what joining from the read half gives.
pub proof fn unsplit_is_the_same_from_either_side<R, W>(
    r: RHalf<R, W>,
    w: WHalf<R, W>,
    from_read: Splittable<R, W>,
    from_write: Splittable<R, W>,
)
    requires
        r.joins_into(&w, &from_read),
        w.joins_into(&r, &from_write),
    ensures
        from_read == from_write,
{
    Splittable::same_parts_same_object(from_read, from_write);
}

/// What the accessors of a combined object show is what the halves of its
/// split hold.
pub proof fn accessors_show_what_split_yields<R, W>(
    s: Splittable<R, W>,
    seen_r: R,
    seen_w: W,
    r: RHalf<R, W>,
    w: WHalf<R, W>,
)
    requires
        seen_r == s@.0,
        seen_w == s@.1,
        s.splits_into(&r, &w),
    ensures
        r.inner() == seen_r,
        w.inner() == seen_w,
{
}

} // verus!
