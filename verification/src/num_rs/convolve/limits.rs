//! The machine limits of a convolution over `i64`.
//!
//! The backend keeps every number in an `i64` and the padded signal in one
//! allocation. A convolution stays within these limits when no product and no
//! running sum leaves `i64`, and the padded signal is no larger than an
//! allocation may be.

use super::model::as_ints;
use super::model::back_padding;
use super::model::convolved_len;
use super::model::front_padding;
use super::model::product_at;
use super::model::sum_from;
use super::model::window_start;
use super::ConvolveMode;
use vstd::prelude::*;

verus! {

/// Whether `x` is a value of `i64`.
pub open spec fn fits_i64(x: int) -> bool {
    i64::MIN <= x <= i64::MAX
}

/// How many entries the signal has once it is padded with zeros for `mode`.
pub open spec fn padded_len(mode: ConvolveMode, a_len: nat, v_len: nat) -> nat {
    a_len + front_padding(mode, v_len) + back_padding(mode, v_len)
}

/// Whether the padded signal, at eight bytes an entry, is no larger than the
/// `isize::MAX` bytes that one allocation may have.
pub open spec fn padding_fits(mode: ConvolveMode, a_len: nat, v_len: nat) -> bool {
    8 * padded_len(mode, a_len, v_len) <= isize::MAX
}

/// Whether position `n` of the full convolution can be accumulated in `i64`:
/// every product fits, and so does every sum of the products of the kernel
/// entries from some entry on, which are the running sums of an accumulation
/// that goes from the last kernel entry to the first.
pub open spec fn position_fits(a: Seq<int>, v: Seq<int>, n: int) -> bool {
    forall|j: int|
        0 <= j < v.len() ==> fits_i64(#[trigger] product_at(a, v, n, j)) && fits_i64(
            sum_from(a, v, n, j),
        )
}

/// Whether the convolution of `a` with `v` under `mode` stays within the
/// machine limits: the padded signal can be allocated, and every position of
/// the output can be accumulated in `i64`.
pub open spec fn within_limits(a: Seq<int>, v: Seq<int>, mode: ConvolveMode) -> bool {
    &&& padding_fits(mode, a.len(), v.len())
    &&& forall|n: int|
        window_start(mode, a.len(), v.len()) <= n < window_start(mode, a.len(), v.len())
            + convolved_len(mode, a.len(), v.len()) ==> #[trigger] position_fits(a, v, n)
}

/// A convolution with the kernel `[1]` under `Full` stays within the machine
/// limits for every signal that can be allocated: each product is an entry of
/// the signal, and each sum has one product.
pub proof fn lemma_unit_kernel_within_limits(a: Seq<i64>)
    requires
        8 * a.len() <= isize::MAX,
    ensures
        within_limits(as_ints(a), seq![1int], ConvolveMode::Full),
{
    let signal = as_ints(a);
    let kernel = seq![1int];
    assert forall|n: int| position_fits(signal, kernel, n) by {
        assert(sum_from(signal, kernel, n, 1) == 0);
        if 0 <= n < a.len() {
            assert(product_at(signal, kernel, n, 0) == a[n] * 1);
        }
    }
}

/// Decides [`padding_fits`].
fn padding_within(mode: ConvolveMode, a_len: usize, v_len: usize) -> (ok: bool)
    ensures
        ok == padding_fits(mode, a_len as nat, v_len as nat),
{
    let limit: usize = isize::MAX as usize / 8;
    if a_len > limit {
        return false;
    }
    if v_len == 0 {
        return true;
    }
    match mode {
        ConvolveMode::Full => v_len - 1 <= (limit - a_len) / 2,
        ConvolveMode::Same => v_len - 1 <= limit - a_len,
        ConvolveMode::Valid => true,
    }
}

/// Where the output under `mode` begins in the full convolution, and how many
/// entries it has.
fn window(mode: ConvolveMode, a_len: usize, v_len: usize) -> (w: (usize, usize))
    requires
        padding_fits(mode, a_len as nat, v_len as nat),
    ensures
        w.0 == window_start(mode, a_len as nat, v_len as nat),
        w.1 == convolved_len(mode, a_len as nat, v_len as nat),
{
    if a_len == 0 || v_len == 0 {
        return (0, 0);
    }
    let short = if a_len <= v_len {
        a_len
    } else {
        v_len
    };
    let long = if a_len <= v_len {
        v_len
    } else {
        a_len
    };
    match mode {
        ConvolveMode::Full => (0, a_len + v_len - 1),
        ConvolveMode::Same => ((short - 1) / 2, long),
        ConvolveMode::Valid => (short - 1, long - short + 1),
    }
}

/// Decides [`position_fits`], by forming the sum as the backend does.
fn position_within(a: &[i64], v: &[i64], n: usize) -> (ok: bool)
    ensures
        ok == position_fits(as_ints(a@), as_ints(v@), n as int),
{
    let ghost signal = as_ints(a@);
    let ghost kernel = as_ints(v@);
    let mut sum: i64 = 0;
    let mut j: usize = v.len();
    while j > 0
        invariant
            j <= v.len(),
            signal == as_ints(a@),
            kernel == as_ints(v@),
            sum == sum_from(signal, kernel, n as int, j as int),
            forall|t: int|
                j <= t < v.len() ==> fits_i64(#[trigger] product_at(signal, kernel, n as int, t))
                    && fits_i64(sum_from(signal, kernel, n as int, t)),
        decreases j,
    {
        j -= 1;
        if j <= n && n - j < a.len() {
            assert(product_at(signal, kernel, n as int, j as int) == a[n - j] * v[j as int]);
            match a[n - j].checked_mul(v[j]) {
                None => {
                    return false;
                },
                Some(product) => match sum.checked_add(product) {
                    None => {
                        return false;
                    },
                    Some(next) => {
                        sum = next;
                    },
                },
            }
        } else {
            assert(product_at(signal, kernel, n as int, j as int) == 0);
        }
    }
    true
}

/// Decides whether the convolution of `a` with `v` under `mode` stays within
/// the machine limits, in time proportional to the convolution itself.
pub fn stays_within_limits(a: &[i64], v: &[i64], mode: ConvolveMode) -> (ok: bool)
    ensures
        ok == within_limits(as_ints(a@), as_ints(v@), mode),
{
    if !padding_within(mode, a.len(), v.len()) {
        return false;
    }
    let (start, len) = window(mode, a.len(), v.len());
    let mut i: usize = 0;
    while i < len
        invariant
            i <= len,
            start == window_start(mode, a.len() as nat, v.len() as nat),
            len == convolved_len(mode, a.len() as nat, v.len() as nat),
            start + len <= usize::MAX,
            forall|n: int|
                start <= n < start + i ==> #[trigger] position_fits(as_ints(a@), as_ints(v@), n),
        decreases len - i,
    {
        if !position_within(a, v, start + i) {
            return false;
        }
        i += 1;
    }
    true
}

} // verus!
