//! Functions that behave as their namesakes in numerical array libraries do.

mod convolve;

pub use self::convolve::backend_outcome;
pub use self::convolve::check_lengths;
pub use self::convolve::convolve;
pub use self::convolve::empty_operand_text;
pub use self::convolve::kernel_too_long;
pub use self::convolve::limits;
pub use self::convolve::model;
pub use self::convolve::ConvolveMode;
