use vstd::prelude::*;

verus! {

/// `n` lies between the bounds `min` and `max`, both included. The native
/// generator accepts the bounds in either order, so this does too.
pub open spec fn in_random_range(min: int, max: int, n: int) -> bool {
    if min <= max {
        min <= n <= max
    } else {
        max <= n <= min
    }
}

/// Accepts the value that the native generator drew for the bounds `min` and
/// `max` only when it lies in the requested range, so that a value outside it
/// never reaches the caller.
pub fn checked_random_value(min: i32, max: i32, drawn: i32) -> (r: Option<i32>)
    ensures
        r == (if in_random_range(min as int, max as int, drawn as int) {
            Some(drawn)
        } else {
            None
        }),
{
    let (lo, hi) = if min <= max {
        (min, max)
    } else {
        (max, min)
    };
    if lo <= drawn && drawn <= hi {
        Some(drawn)
    } else {
        None
    }
}

/// Every value accepted for the bounds `min` and `max` lies between them.
pub proof fn lemma_accepted_value_in_bounds(min: int, max: int, n: int)
    requires
        min <= max,
        in_random_range(min, max, n),
    ensures
        min <= n <= max,
{
}

/// With equal bounds the only value that can be accepted is the bound itself.
pub proof fn lemma_single_value_range(v: int, n: int)
    ensures
        in_random_range(v, v, n) <==> n == v,
{
}

} // verus!
