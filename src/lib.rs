//! Turns a comparison between two integers into a `Result` that carries the
//! compared integer in both arms: `Ok` when the comparison holds, `Err` when
//! it does not.
pub mod ext;
pub mod laws;
pub mod non_zero;

pub use ext::Ext;
pub use non_zero::{
    NonZeroI128, NonZeroI16, NonZeroI32, NonZeroI64, NonZeroI8, NonZeroIsize, NonZeroU128, NonZeroU16,
    NonZeroU32, NonZeroU64, NonZeroU8, NonZeroUsize,
};
