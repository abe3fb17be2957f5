//! Endpoint selection.
//!
//! Round-robin selection walks the endpoint list one position per
//! cycle, wrapping at the end; random selection draws an index
//! uniformly over the whole list, the last endpoint included.

use vstd::prelude::*;

use rand::RngExt;
use vstd::arithmetic::div_mod::{
    lemma_add_mod_noop,
    lemma_mod_bound,
    lemma_mod_sub_multiples_vanish,
    lemma_small_mod,
};

verus! {

/// The index selected by round-robin on the `t`-th call after a call
/// that selected `start`.
pub open spec fn rr_selection(start: int, t: int, len: int) -> int
    recommends
        0 < len,
{
    (start + t) % len
}

/// The cursor position after one round-robin selection at `cursor`.
pub open spec fn rr_next(cursor: int, len: int) -> int
    recommends
        0 < len,
{
    (cursor + 1) % len
}

/// Within one pass over the list, the selected index is the start
/// shifted by the call number, wrapped once at most.
proof fn lemma_rr_value(start: int, t: int, len: int)
    requires
        0 <= start < len,
        0 <= t < len,
    ensures
        rr_selection(start, t, len) == if start + t < len {
            start + t
        } else {
            start + t - len
        },
{
    if start + t < len {
        lemma_small_mod((start + t) as nat, len as nat);
    } else {
        lemma_mod_sub_multiples_vanish(start + t, len);
        lemma_small_mod((start + t - len) as nat, len as nat);
    }
}

/// Advancing the cursor by one and selecting later is the same as
/// selecting one call further on: the machine's single step generates
/// the whole selection sequence.
pub proof fn lemma_rr_step(start: int, t: int, len: int)
    requires
        0 < len,
        0 <= start,
        0 <= t,
    ensures
        rr_selection(start, t + 1, len) == rr_selection(rr_next(start, len), t, len),
{
    lemma_add_mod_noop(start + 1, t, len);
    lemma_add_mod_noop((start + 1) % len, t, len);
    lemma_mod_bound(start + 1, len);
    lemma_small_mod(((start + 1) % len) as nat, len as nat);
}

/// Round-robin selection over `len` consecutive calls visits every
/// index of the list exactly once: each index is reached by some call
/// of the pass, and no two calls of the pass agree.
pub proof fn lemma_round_robin_visits_all(start: int, len: int, j: int)
    requires
        0 <= start < len,
        0 <= j < len,
    ensures
        exists|t: int| 0 <= t < len && rr_selection(start, t, len) == j,
        forall|t1: int, t2: int|
            0 <= t1 < len && 0 <= t2 < len && rr_selection(start, t1, len) == rr_selection(
                start,
                t2,
                len,
            ) ==> t1 == t2,
{
    let w = if j >= start {
        j - start
    } else {
        j - start + len
    };
    lemma_rr_value(start, w, len);
    assert(rr_selection(start, w, len) == j);
    assert forall|t1: int, t2: int|
        0 <= t1 < len && 0 <= t2 < len && rr_selection(start, t1, len) == rr_selection(
            start,
            t2,
            len,
        ) implies t1 == t2 by {
        lemma_rr_value(start, t1, len);
        lemma_rr_value(start, t2, len);
    }
}

/// Round-robin selection is periodic with the list length: a second
/// pass of `len` calls repeats the first in the same order, so over
/// `2 * len` calls every index is visited exactly twice.
pub proof fn lemma_round_robin_period(start: int, t: int, len: int)
    requires
        0 < len,
        0 <= start,
        0 <= t,
    ensures
        rr_selection(start, t + len, len) == rr_selection(start, t, len),
{
    lemma_mod_sub_multiples_vanish(start + t + len, len);
}

/// Relies on `rand::rng` (the thread-local generator) and
/// `rand::RngExt::random_range` over `0..len`: a uniformly distributed
/// index strictly below `len`, drawn independently on each call.  The
/// non-empty range rules out the documented panic on empty ranges; the
/// generator itself can fail only with the operating system's
/// randomness source.
#[verifier::external_body]
pub(crate) fn random_index(len: usize) -> (i: usize)
    requires
        len >= 1,
    ensures
        i < len,
{
    rand::rng().random_range(0..len)
}

} // verus!
