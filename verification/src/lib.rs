//! One-dimensional discrete convolution with the output policies of numerical
//! array libraries, and the resolution of a signed axis index against the rank
//! of an array.
//!
//! Every function of this crate carries a contract that Verus proves. The
//! convolution itself is computed by `ndarray_conv`; what this crate assumes of
//! it is written down in [`num_rs`]'s backend bindings and nowhere else.

pub mod arraytools;
pub mod error;
pub mod num_rs;

pub use crate::error::Error;
pub use crate::error::ErrorView;
