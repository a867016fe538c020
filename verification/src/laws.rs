//! What holds of clamped values in general, stated over their intervals.

use crate::clamped::{range_fault, ClampedError, Interval};
use vstd::prelude::*;

verus! {

/// The interval after `n` additions of `delta`.
pub open spec fn added_times(i: Interval, delta: int, n: nat) -> Interval
    decreases n,
{
    if n == 0 {
        i
    } else {
        added_times(i, delta, (n - 1) as nat).added(delta)
    }
}

/// The interval after `n` subtractions of `delta`.
pub open spec fn subtracted_times(i: Interval, delta: int, n: nat) -> Interval
    decreases n,
{
    if n == 0 {
        i
    } else {
        subtracted_times(i, delta, (n - 1) as nat).subtracted(delta)
    }
}

/// Bounds and value are accepted exactly when `min <= value <= max`. An
/// inverted range is refused as such whatever the value; with the range in
/// order, a value outside it is refused as out of bounds.
pub proof fn lemma_range_fault(min: int, value: int, max: int)
    ensures
        range_fault(min, value, max) is None <==> min <= value <= max,
        min > max ==> range_fault(min, value, max) == Some(ClampedError::InvalidRange),
        min <= max && (value < min || value > max) ==> range_fault(min, value, max) == Some(
            ClampedError::ValueOutOfBounds,
        ),
{
}

/// Setting the value yields the minimum for a value below it, the maximum for
/// a value above it, and the value itself in between.
pub proof fn lemma_set_clamps(i: Interval, x: int)
    requires
        i.is_valid(),
    ensures
        x < i.min ==> i.with_value(x).value == i.min,
        x > i.max ==> i.with_value(x).value == i.max,
        i.min <= x <= i.max ==> i.with_value(x).value == x,
        i.with_value(x).min == i.min,
        i.with_value(x).max == i.max,
{
}

/// Every change of the value keeps it within the bounds and leaves the bounds
/// as they were.
pub proof fn lemma_value_changes_keep_invariant(i: Interval, x: int)
    requires
        i.is_valid(),
    ensures
        i.with_value(x).is_valid(),
        i.added(x).is_valid(),
        i.subtracted(x).is_valid(),
        i.multiplied(x).is_valid(),
        i.divided(x).is_valid(),
        i.added(x).min == i.min && i.added(x).max == i.max,
        i.subtracted(x).min == i.min && i.subtracted(x).max == i.max,
        i.multiplied(x).min == i.min && i.multiplied(x).max == i.max,
        i.divided(x).min == i.min && i.divided(x).max == i.max,
{
}

/// A new bound that is accepted keeps the invariant.
pub proof fn lemma_bound_changes_keep_invariant(i: Interval, bound: int)
    requires
        i.is_valid(),
    ensures
        range_fault(bound, i.value, i.max) is None ==> (Interval { min: bound, ..i }).is_valid(),
        range_fault(i.min, i.value, bound) is None ==> (Interval { max: bound, ..i }).is_valid(),
{
}

/// One call that changes a clamped value, with the integer it is given.
pub ghost enum Call {
    SetMin(int),
    SetMax(int),
    SetValue(int),
    Add(int),
    Subtract(int),
    Multiply(int),
    Divide(int),
}

/// The interval that a call leaves behind. A call that is refused (a bound
/// that does not fit, a zero divisor) leaves the interval as it was.
pub open spec fn after(i: Interval, call: Call) -> Interval {
    match call {
        Call::SetMin(m) => if range_fault(m, i.value, i.max) is None {
            Interval { min: m, ..i }
        } else {
            i
        },
        Call::SetMax(m) => if range_fault(i.min, i.value, m) is None {
            Interval { max: m, ..i }
        } else {
            i
        },
        Call::SetValue(x) => i.with_value(x),
        Call::Add(d) => i.added(d),
        Call::Subtract(d) => i.subtracted(d),
        Call::Multiply(f) => i.multiplied(f),
        Call::Divide(d) => if d == 0 {
            i
        } else {
            i.divided(d)
        },
    }
}

/// The interval that a sequence of calls leaves behind, first call first.
pub open spec fn after_all(i: Interval, calls: Seq<Call>) -> Interval
    decreases calls.len(),
{
    if calls.len() == 0 {
        i
    } else {
        after(after_all(i, calls.drop_last()), calls.last())
    }
}

/// Whatever calls are made on a clamped value, and in whatever order, the
/// invariant `min <= value <= max` holds after each of them.
pub proof fn lemma_invariant_after_every_call(i: Interval, calls: Seq<Call>, k: int)
    requires
        i.is_valid(),
        0 <= k <= calls.len(),
    ensures
        after_all(i, calls.take(k)).is_valid(),
    decreases k,
{
    if k > 0 {
        lemma_invariant_after_every_call(i, calls, k - 1);
        assert(calls.take(k).drop_last() =~= calls.take(k - 1));
    }
}

/// Repeated additions of a positive `delta` climb until the maximum: after `n`
/// of them the value is the maximum, or has risen by at least `n`.
proof fn lemma_added_times_climbs(i: Interval, delta: int, n: nat)
    requires
        i.is_valid(),
        delta > 0,
    ensures
        added_times(i, delta, n).min == i.min,
        added_times(i, delta, n).max == i.max,
        added_times(i, delta, n).is_valid(),
        added_times(i, delta, n).value == i.max || added_times(i, delta, n).value >= i.value + n,
    decreases n,
{
    if n > 0 {
        lemma_added_times_climbs(i, delta, (n - 1) as nat);
    }
}

/// Repeated subtractions of a positive `delta` descend until the minimum:
/// after `n` of them the value is the minimum, or has fallen by at least `n`.
proof fn lemma_subtracted_times_descends(i: Interval, delta: int, n: nat)
    requires
        i.is_valid(),
        delta > 0,
    ensures
        subtracted_times(i, delta, n).min == i.min,
        subtracted_times(i, delta, n).max == i.max,
        subtracted_times(i, delta, n).is_valid(),
        subtracted_times(i, delta, n).value == i.min || subtracted_times(i, delta, n).value
            <= i.value - n,
    decreases n,
{
    if n > 0 {
        lemma_subtracted_times_descends(i, delta, (n - 1) as nat);
    }
}

/// Adding a positive `delta` again and again reaches the maximum and stays
/// there: after `max - value` additions, and after any greater number of them,
/// the value is the maximum.
pub proof fn lemma_add_reaches_max(i: Interval, delta: int, n: nat)
    requires
        i.is_valid(),
        delta > 0,
        n >= i.max - i.value,
    ensures
        added_times(i, delta, n) == (Interval { value: i.max, ..i }),
{
    lemma_added_times_climbs(i, delta, n);
}

/// Subtracting a positive `delta` again and again reaches the minimum and
/// stays there: after `value - min` subtractions, and after any greater number
/// of them, the value is the minimum.
pub proof fn lemma_subtract_reaches_min(i: Interval, delta: int, n: nat)
    requires
        i.is_valid(),
        delta > 0,
        n >= i.value - i.min,
    ensures
        subtracted_times(i, delta, n) == (Interval { value: i.min, ..i }),
{
    lemma_subtracted_times_descends(i, delta, n);
}

/// At the maximum an addition of a positive `delta` changes nothing, and at
/// the minimum a subtraction of one changes nothing.
pub proof fn lemma_bounds_absorb(i: Interval, delta: int)
    requires
        i.is_valid(),
        delta > 0,
    ensures
        i.value == i.max ==> i.added(delta) == i,
        i.value == i.min ==> i.subtracted(delta) == i,
{
}

/// The fraction that gives the value's position is zero over the width at the
/// minimum and the width over itself at the maximum, and its numerator never
/// leaves `[0, width]`.
pub proof fn lemma_position_at_bounds(i: Interval)
    requires
        i.is_valid(),
    ensures
        0 <= i.offset() <= i.span(),
        i.value == i.min ==> i.offset() == 0,
        i.value == i.max ==> i.offset() == i.span(),
{
}

} // verus!
