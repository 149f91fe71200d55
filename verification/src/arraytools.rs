//! Resolution of a signed, optional axis index against the rank of an array.
//!
//! Two entry points share one rule. [`check_and_get_axis_st`] serves arrays
//! whose rank is a constant of the program, [`check_and_get_axis_dyn`] arrays
//! whose rank is known only when the program runs.

use crate::error::Error;
use crate::error::ErrorView;
use vstd::prelude::*;

verus! {

/// The axis that `axis` selects in an array of `rank` dimensions, if any.
///
/// An absent `axis` stands for the last dimension. A negative one counts from
/// the end, so `-1` is the last dimension and `-rank` the first. Anything
/// outside `-rank <= axis < rank` selects nothing; in particular nothing is
/// selected in an array of rank zero.
pub open spec fn resolved_axis(axis: Option<int>, rank: nat) -> Option<nat> {
    let index = match axis {
        Some(index) => index,
        None => -1,
    };
    if 0 <= index < rank {
        Some(index as nat)
    } else if -(rank as int) <= index < 0 {
        Some((rank + index) as nat)
    } else {
        None
    }
}

/// A machine axis index as a mathematical one.
pub open spec fn axis_as_int(axis: Option<isize>) -> Option<int> {
    match axis {
        Some(index) => Some(index as int),
        None => None,
    }
}

/// What [`check_and_get_axis_dyn`] reports for an axis outside the rank.
pub open spec fn axis_out_of_range() -> ErrorView {
    ErrorView::InvalidArg { arg: "axis"@, reason: "index out of range"@ }
}

/// A resolved axis is a valid index into the dimensions of the array.
pub proof fn lemma_resolved_axis_in_range(axis: Option<int>, rank: nat)
    ensures
        resolved_axis(axis, rank) matches Some(index) ==> index < rank,
{
}

/// An axis is resolved exactly when it lies in `-rank <= axis < rank`, an
/// absent axis counting as `-1`.
pub proof fn lemma_resolved_axis_domain(axis: Option<int>, rank: nat)
    ensures
        axis matches Some(index) ==> (resolved_axis(axis, rank) is Some <==> -(rank as int)
            <= index < rank),
        axis is None ==> (resolved_axis(axis, rank) is Some <==> rank >= 1),
{
}

/// In an array of at least one dimension, `-1`, `rank - 1` and an absent axis
/// all select the last dimension.
pub proof fn lemma_last_axis(rank: nat)
    requires
        rank >= 1,
    ensures
        resolved_axis(Some(-1), rank) == Some((rank - 1) as nat),
        resolved_axis(Some(rank - 1), rank) == Some((rank - 1) as nat),
        resolved_axis(None, rank) == Some((rank - 1) as nat),
{
}

/// The first indices beyond either end of the range, `rank` and
/// `-(rank + 1)`, select nothing.
pub proof fn lemma_axis_just_outside(rank: nat)
    ensures
        resolved_axis(Some(rank as int), rank) is None,
        resolved_axis(Some(-(rank + 1)), rank) is None,
{
}

/// Resolves `axis` against `rank` by the rule of [`resolved_axis`].
fn resolve(axis: Option<isize>, rank: usize) -> (r: Option<usize>)
    ensures
        match resolved_axis(axis_as_int(axis), rank as nat) {
            Some(index) => r == Some(index as usize) && index < rank,
            None => r is None,
        },
{
    let index: isize = match axis {
        Some(index) => index,
        None => -1,
    };
    if index >= 0 {
        let index = index as usize;
        if index < rank {
            Some(index)
        } else {
            None
        }
    } else {
        rank.checked_add_signed(index)
    }
}

/// Resolves `axis` against the rank `N`, which the program fixes.
///
/// Returns the index of the selected dimension, counted from zero, or `Err`
/// where `axis` lies outside `-N <= axis < N`. An absent `axis` selects the
/// last dimension, and fails for `N == 0`, where there is none.
pub fn check_and_get_axis_st<const N: usize>(axis: Option<isize>) -> (r: Result<usize, ()>)
    ensures
        match resolved_axis(axis_as_int(axis), N as nat) {
            Some(index) => r == Ok::<usize, ()>(index as usize) && index < N,
            None => r is Err,
        },
{
    match resolve(axis, N) {
        Some(index) => Ok(index),
        None => Err(()),
    }
}

/// Resolves `axis` against the rank `ndim` of an array whose rank is known
/// only at run time.
///
/// Returns the index of the selected dimension, counted from zero. Where
/// `axis` lies outside `-ndim <= axis < ndim`, the result is an `InvalidArg`
/// error that names the argument `axis`. An absent `axis` selects the last
/// dimension, and fails for `ndim == 0`, where there is none.
pub fn check_and_get_axis_dyn(axis: Option<isize>, ndim: usize) -> (r: Result<usize, Error>)
    ensures
        match resolved_axis(axis_as_int(axis), ndim as nat) {
            Some(index) => r == Ok::<usize, Error>(index as usize) && index < ndim,
            None => r is Err && r->Err_0@ == axis_out_of_range(),
        },
{
    match resolve(axis, ndim) {
        Some(index) => Ok(index),
        None => Err(Error::invalid_arg("axis", "index out of range")),
    }
}

} // verus!
