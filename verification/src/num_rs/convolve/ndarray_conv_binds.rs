//! Bindings to `ndarray_conv`, which computes the convolutions.
//!
//! Nothing in this file is proved. Each contract states what the source of
//! `ndarray_conv` shows, and the proofs of this crate rest on it.

use super::limits::position_fits;
use super::model::as_ints;
use super::model::full_at;
use vstd::prelude::*;

verus! {

/// The text by which `ndarray_conv` describes its refusal of an empty operand
/// of one dimension. It looks at the signal first, so an empty kernel is named
/// only where the signal has entries.
pub open spec fn empty_operand_text(a_len: nat) -> Seq<char> {
    if a_len == 0 {
        "Data shape shouldn't have ZERO. [0]"@
    } else {
        "Kernel shape shouldn't have ZERO. [0]"@
    }
}

/// Calls `ndarray_conv::ConvExt::conv` on one-dimensional views of `a` and
/// `v`, with `front` zeros before the signal, `back` zeros behind it and a
/// stride of one, and renders a failure by its `Display` impl.
///
/// The contract claims four things of that method.
/// - It fails exactly where an operand is empty, which for a kernel no longer
///   than the signal is where the kernel is empty, and its failure then reads
///   as `empty_operand_text` says.
/// - Where it succeeds, it has slid the reversed kernel over the padded
///   signal, one entry at a time and never beyond its ends, and every output
///   entry is the sum of the products of the kernel entries with the entries
///   of the padded signal that they lie on. Counted in positions of the full
///   convolution, the first output entry is position `v.len() - 1 - front`.
/// - It forms each sum in `i64`, product by product, from the last kernel
///   entry to the first, so it does not overflow where `position_fits` holds
///   of every position that it computes.
/// - It allocates nothing larger than the padded signal.
#[verifier::external_body]
pub(crate) fn conv_zero_padded(a: &[i64], v: &[i64], front: usize, back: usize) -> (r: Result<
    Vec<i64>,
    String,
>)
    requires
        v.len() <= a.len(),
        8 * (a.len() + front + back) <= isize::MAX,
        forall|n: int|
            v.len() - 1 - front <= n < a.len() + back ==> #[trigger] position_fits(
                as_ints(a@),
                as_ints(v@),
                n,
            ),
    ensures
        r is Err <==> v.len() == 0,
        r matches Err(text) ==> text@ == empty_operand_text(a.len() as nat),
        r matches Ok(out) ==> out@.len() == a.len() + front + back - v.len() + 1,
        r matches Ok(out) ==> forall|i: int|
            0 <= i < out@.len() ==> out@[i] == full_at(
                as_ints(a@),
                as_ints(v@),
                i + v.len() - 1 - front,
            ),
{
    let mode = ndarray_conv::ConvMode::Explicit { padding: [[front, back]], strides: [1] };
    let signal = ndarray::ArrayView1::from(a);
    let kernel = ndarray::ArrayView1::from(v);
    let padding = ndarray_conv::PaddingMode::Zeros;
    match ndarray_conv::ConvExt::conv(&signal, &kernel, mode, padding) {
        Ok(out) => Ok(out.to_vec()),
        Err(failure) => Err(failure.to_string()),
    }
}

} // verus!
