//! Integer facts shared by the timing code: the range of a timestamp, the
//! division that rounds toward zero, and running sums.

use vstd::prelude::*;

verus! {

/// Whether `x` can be held in a 64-bit timestamp.
pub open spec fn fits(x: int) -> bool {
    i64::MIN <= x <= i64::MAX
}

/// The quotient of `x` by a positive `d`, rounded toward zero.
pub open spec fn trunc_div(x: int, d: int) -> int
    recommends
        d > 0,
{
    if x >= 0 {
        x / d
    } else {
        -((-x) / d)
    }
}

/// The sum of all elements.
pub open spec fn sum(s: Seq<i64>) -> int
    decreases s.len(),
{
    if s.len() == 0 {
        0
    } else {
        sum(s.drop_last()) + s.last()
    }
}

/// Whether adding the elements up from the left stays within range all along.
pub open spec fn sums_fit(s: Seq<i64>) -> bool {
    forall|k: int| 0 <= k <= s.len() ==> fits(sum(#[trigger] s.take(k)))
}

/// The last `n` elements, or all of them if there are fewer.
pub open spec fn recent<T>(s: Seq<T>, n: nat) -> Seq<T> {
    if s.len() <= n {
        s
    } else {
        s.skip(s.len() - n)
    }
}

/// Exact check of [`fits`] on a wide intermediate result.
pub fn in_range(x: i128) -> (r: bool)
    ensures
        r == fits(x as int),
{
    -0x8000_0000_0000_0000i128 <= x && x <= 0x7fff_ffff_ffff_ffffi128
}

/// Dropping everything but the recent elements before appending one more does
/// not change which elements are recent afterwards.
pub proof fn lemma_recent_push<T>(s: Seq<T>, x: T, n: nat)
    ensures
        recent(recent(s, n).push(x), n) == recent(s.push(x), n),
{
    assert(recent(recent(s, n).push(x), n) =~= recent(s.push(x), n));
}

/// Division toward zero stays between two integers that bracket the exact
/// quotient.
pub proof fn lemma_trunc_div_between(x: int, d: int, lo: int, hi: int)
    requires
        d > 0,
        lo * d <= x <= hi * d,
    ensures
        lo <= trunc_div(x, d) <= hi,
{
    if x >= 0 {
        assert(lo <= x / d <= hi) by (nonlinear_arith)
            requires
                d > 0,
                lo * d <= x <= hi * d,
        ;
    } else {
        assert(-hi <= (-x) / d <= -lo) by (nonlinear_arith)
            requires
                d > 0,
                lo * d <= x <= hi * d,
        ;
    }
}

} // verus!
