//! Discrete, linear convolution of two one-dimensional sequences.

pub mod limits;
pub mod model;
mod ndarray_conv_binds;

use crate::error::Error;
use crate::error::ErrorView;
use self::limits::within_limits;
use self::model::as_ints;
use self::model::back_padding;
use self::model::convolution;
use self::model::convolved_len;
use self::model::front_padding;
use self::model::lemma_padding_yields_window;
use self::ndarray_conv_binds::conv_zero_padded;
pub use self::ndarray_conv_binds::empty_operand_text;
use vstd::prelude::*;

verus! {

/// The part of the full convolution that is handed back.
#[derive(Clone, Copy, Debug, PartialEq, Eq, Structural)]
pub enum ConvolveMode {
    /// Every position at which signal and kernel overlap at all. For a signal
    /// of `n` and a kernel of `m` entries these are `n + m - 1` positions.
    Full,
    /// Only the positions at which signal and kernel overlap completely:
    /// `max(n, m) - min(n, m) + 1` of them.
    Valid,
    /// The `max(n, m)` positions in the middle of the full convolution.
    Same,
}

impl ConvolveMode {
    /// How many zeros are to stand before and behind the signal, in this
    /// order, for a kernel of `v_len` entries to give the window of this mode
    /// when it is slid over the padded signal.
    pub fn padding(self, v_len: usize) -> (p: (usize, usize))
        ensures
            p.0 == front_padding(self, v_len as nat),
            p.1 == back_padding(self, v_len as nat),
    {
        if v_len == 0 {
            return (0, 0);
        }
        match self {
            ConvolveMode::Full => (v_len - 1, v_len - 1),
            ConvolveMode::Same => (v_len - 1 - (v_len - 1) / 2, (v_len - 1) / 2),
            ConvolveMode::Valid => (0, 0),
        }
    }

    /// How many entries the convolution of a signal of `a_len` entries with a
    /// kernel of `v_len` entries has under this mode.
    ///
    /// There is an answer where the kernel has an entry, is no longer than the
    /// signal, and the number of entries is a `usize`: `a_len + v_len - 1`
    /// under `Full`, `a_len` under `Same`, `a_len - v_len + 1` under `Valid`.
    pub fn output_len(self, a_len: usize, v_len: usize) -> (r: Option<usize>)
        ensures
            r is Some <==> 1 <= v_len <= a_len && convolved_len(self, a_len as nat, v_len as nat)
                <= usize::MAX,
            r matches Some(len) ==> len == convolved_len(self, a_len as nat, v_len as nat),
            r matches Some(len) ==> len == match self {
                ConvolveMode::Full => a_len + v_len - 1,
                ConvolveMode::Same => a_len as int,
                ConvolveMode::Valid => a_len - v_len + 1,
            },
    {
        if v_len == 0 || v_len > a_len {
            return None;
        }
        match self {
            ConvolveMode::Full => a_len.checked_add(v_len - 1),
            ConvolveMode::Same => Some(a_len),
            ConvolveMode::Valid => Some(a_len - v_len + 1),
        }
    }
}

/// What a convolution reports for a kernel that is longer than the signal.
pub open spec fn kernel_too_long() -> ErrorView {
    ErrorView::InvalidArg { arg: "v"@, reason: "kernel is longer than the signal"@ }
}

/// Checks that a kernel of `v_len` entries is no longer than a signal of
/// `a_len` entries, which every convolution of this module asks for.
pub fn check_lengths(a_len: usize, v_len: usize) -> (r: Result<(), Error>)
    ensures
        v_len <= a_len ==> r is Ok,
        v_len > a_len ==> r is Err && r->Err_0@ == kernel_too_long(),
{
    if v_len > a_len {
        Err(Error::invalid_arg("v", "kernel is longer than the signal"))
    } else {
        Ok(())
    }
}

/// Turns what a convolution backend handed back into the library's result: a
/// success stays as it is, and a failure becomes a `Conv` error that carries
/// the backend's description of it.
pub fn backend_outcome<T>(outcome: Result<T, String>) -> (r: Result<T, Error>)
    ensures
        outcome matches Ok(value) ==> r == Ok::<T, Error>(value),
        outcome matches Err(text) ==> r is Err && r->Err_0@ == (ErrorView::Conv { reason: text@ }),
{
    match outcome {
        Ok(value) => Ok(value),
        Err(reason) => Err(Error::Conv { reason }),
    }
}

/// The discrete, linear convolution of the signal `a` with the kernel `v`.
///
/// The kernel must be no longer than the signal; where it is longer, the
/// result is an `InvalidArg` error that names the argument `v`. An empty
/// kernel is refused by the backend, which is reported as a `Conv` error that
/// carries the backend's description, see
/// [`empty_operand_text`]. Otherwise the result is the window of
/// the full convolution that `mode` selects.
///
/// The caller sees to it that the numbers stay within the machine limits, see
/// [`within_limits`](limits::within_limits).
pub fn convolve(a: &[i64], v: &[i64], mode: ConvolveMode) -> (r: Result<Vec<i64>, Error>)
    requires
        v.len() <= a.len() ==> within_limits(as_ints(a@), as_ints(v@), mode),
    ensures
        v.len() > a.len() ==> r is Err && r->Err_0@ == kernel_too_long(),
        v.len() == 0 ==> r is Err && r->Err_0@ == (ErrorView::Conv {
            reason: empty_operand_text(a.len() as nat),
        }),
        1 <= v.len() <= a.len() ==> r is Ok && as_ints(r->Ok_0@) == convolution(
            as_ints(a@),
            as_ints(v@),
            mode,
        ) && r->Ok_0@.len() == convolved_len(mode, a.len() as nat, v.len() as nat),
{
    match check_lengths(a.len(), v.len()) {
        Err(e) => Err(e),
        Ok(()) => {
            let (front, back) = mode.padding(v.len());
            proof {
                if v.len() >= 1 {
                    lemma_padding_yields_window(mode, a.len() as nat, v.len() as nat);
                }
            }
            let r = backend_outcome(conv_zero_padded(a, v, front, back));
            assert(r matches Ok(out) ==> as_ints(out@) =~= convolution(
                as_ints(a@),
                as_ints(v@),
                mode,
            ));
            r
        },
    }
}

} // verus!
