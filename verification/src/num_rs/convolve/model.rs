//! The mathematics of convolution, over unbounded integers.
//!
//! The full convolution of a signal `a` with a kernel `v` has, at position
//! `n`, the sum of all products `a[n - j] * v[j]` whose indices are in range.
//! The three output policies hand back a window of it.

use super::ConvolveMode;
use vstd::prelude::*;

verus! {

/// The product that kernel entry `j` contributes to position `n` of the full
/// convolution: `a[n - j] * v[j]` where the signal has an entry `n - j`, and
/// zero where it has none.
pub open spec fn product_at(a: Seq<int>, v: Seq<int>, n: int, j: int) -> int {
    if 0 <= n - j < a.len() {
        a[n - j] * v[j]
    } else {
        0
    }
}

/// The sum of the products that the kernel entries `from, from + 1, ...`
/// contribute to position `n` of the full convolution.
pub open spec fn sum_from(a: Seq<int>, v: Seq<int>, n: int, from: int) -> int
    decreases v.len() - from,
{
    if 0 <= from < v.len() {
        product_at(a, v, n, from) + sum_from(a, v, n, from + 1)
    } else {
        0
    }
}

/// Position `n` of the full convolution of `a` with `v`.
pub open spec fn full_at(a: Seq<int>, v: Seq<int>, n: int) -> int {
    sum_from(a, v, n, 0)
}

/// The lesser of two lengths.
pub open spec fn shorter(x: nat, y: nat) -> nat {
    if x <= y {
        x
    } else {
        y
    }
}

/// The greater of two lengths.
pub open spec fn longer(x: nat, y: nat) -> nat {
    if x <= y {
        y
    } else {
        x
    }
}

/// How many entries a convolution of `a_len` signal entries with `v_len`
/// kernel entries has under `mode`. A convolution with an empty operand has
/// none.
pub open spec fn convolved_len(mode: ConvolveMode, a_len: nat, v_len: nat) -> nat {
    if a_len == 0 || v_len == 0 {
        0
    } else {
        match mode {
            ConvolveMode::Full => (a_len + v_len - 1) as nat,
            ConvolveMode::Same => longer(a_len, v_len),
            ConvolveMode::Valid => (longer(a_len, v_len) - shorter(a_len, v_len) + 1) as nat,
        }
    }
}

/// The position of the full convolution at which the output under `mode`
/// begins.
pub open spec fn window_start(mode: ConvolveMode, a_len: nat, v_len: nat) -> nat {
    if a_len == 0 || v_len == 0 {
        0
    } else {
        match mode {
            ConvolveMode::Full => 0,
            ConvolveMode::Same => ((shorter(a_len, v_len) - 1) / 2) as nat,
            ConvolveMode::Valid => (shorter(a_len, v_len) - 1) as nat,
        }
    }
}

/// How many zeros stand before the signal when a kernel of `v_len` entries,
/// no longer than the signal, is slid over it under `mode`.
///
/// The kernel is slid over the padded signal one entry at a time and never
/// beyond its ends. With `v_len - 1` zeros in front the first output entry is
/// the first position of the full convolution; each zero less skips one
/// position.
pub open spec fn front_padding(mode: ConvolveMode, v_len: nat) -> nat {
    if v_len == 0 {
        0
    } else {
        match mode {
            ConvolveMode::Full => (v_len - 1) as nat,
            ConvolveMode::Same => (v_len - 1 - (v_len - 1) / 2) as nat,
            ConvolveMode::Valid => 0,
        }
    }
}

/// How many zeros stand behind the signal when a kernel of `v_len` entries,
/// no longer than the signal, is slid over it under `mode`.
pub open spec fn back_padding(mode: ConvolveMode, v_len: nat) -> nat {
    if v_len == 0 {
        0
    } else {
        match mode {
            ConvolveMode::Full => (v_len - 1) as nat,
            ConvolveMode::Same => ((v_len - 1) / 2) as nat,
            ConvolveMode::Valid => 0,
        }
    }
}

/// The convolution of the signal `a` with the kernel `v` under `mode`.
pub open spec fn convolution(a: Seq<int>, v: Seq<int>, mode: ConvolveMode) -> Seq<int> {
    Seq::new(
        convolved_len(mode, a.len(), v.len()),
        |i: int| full_at(a, v, window_start(mode, a.len(), v.len()) + i),
    )
}

/// A sequence of machine integers as a sequence of mathematical ones.
pub open spec fn as_ints(s: Seq<i64>) -> Seq<int> {
    Seq::new(s.len(), |i: int| s[i] as int)
}

/// The length of a convolution is a function of the mode and of the two
/// lengths alone. Where the kernel is no longer than the signal and neither is
/// empty, it is `a_len + v_len - 1` under `Full`, `a_len` under `Same` and
/// `a_len - v_len + 1` under `Valid`.
pub proof fn lemma_convolution_len(a: Seq<int>, v: Seq<int>, mode: ConvolveMode)
    ensures
        convolution(a, v, mode).len() == convolved_len(mode, a.len(), v.len()),
        1 <= v.len() <= a.len() ==> convolved_len(mode, a.len(), v.len()) == match mode {
            ConvolveMode::Full => a.len() + v.len() - 1,
            ConvolveMode::Same => a.len() as int,
            ConvolveMode::Valid => a.len() - v.len() + 1,
        },
{
}

/// Under every mode the output is a window of the full convolution: the
/// entries from `window_start` on, as many as `convolved_len` says.
pub proof fn lemma_window_of_full(a: Seq<int>, v: Seq<int>, mode: ConvolveMode)
    ensures
        window_start(mode, a.len(), v.len()) + convolved_len(mode, a.len(), v.len())
            <= convolved_len(ConvolveMode::Full, a.len(), v.len()),
        convolution(a, v, mode) == convolution(a, v, ConvolveMode::Full).subrange(
            window_start(mode, a.len(), v.len()) as int,
            (window_start(mode, a.len(), v.len()) + convolved_len(mode, a.len(), v.len())) as int,
        ),
{
}

/// The padding of a mode yields the window of that mode. Sliding a kernel of
/// `v_len` entries over a signal of `a_len` entries with `front` zeros before
/// it and `back` zeros behind it gives `a_len + front + back - v_len + 1`
/// entries, the first of which is position `v_len - 1 - front` of the full
/// convolution. For the padding of `mode` these are `convolved_len` and
/// `window_start`.
pub proof fn lemma_padding_yields_window(mode: ConvolveMode, a_len: nat, v_len: nat)
    requires
        1 <= v_len <= a_len,
    ensures
        v_len - 1 - front_padding(mode, v_len) == window_start(mode, a_len, v_len),
        a_len + front_padding(mode, v_len) + back_padding(mode, v_len) - v_len + 1
            == convolved_len(mode, a_len, v_len),
{
}

/// The kernel `[1]` is the identity of convolution: under `Full` it gives the
/// signal back unchanged.
pub proof fn lemma_unit_kernel(a: Seq<int>)
    ensures
        convolution(a, seq![1int], ConvolveMode::Full) == a,
{
    let v = seq![1int];
    assert forall|n: int| 0 <= n < a.len() implies full_at(a, v, n) == a[n] by {
        assert(sum_from(a, v, n, 1) == 0);
        assert(product_at(a, v, n, 0) == a[n] * 1);
    }
}

/// What the identity of convolution means for machine integers: an output
/// that is the convolution of the signal `a` with the kernel `[1]` under
/// `Full` is `a` itself.
pub proof fn lemma_unit_kernel_returns_signal(a: Seq<i64>, out: Seq<i64>)
    requires
        as_ints(out) == convolution(as_ints(a), as_ints(seq![1i64]), ConvolveMode::Full),
    ensures
        out == a,
{
    assert(as_ints(seq![1i64]) =~= seq![1int]);
    lemma_unit_kernel(as_ints(a));
    assert(out.len() == as_ints(out).len());
    assert forall|i: int| 0 <= i < out.len() implies out[i] == a[i] by {
        assert(as_ints(out)[i] == as_ints(a)[i]);
    }
    assert(out =~= a);
}

} // verus!
