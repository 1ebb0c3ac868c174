//! The two wrappers that find their alignment themselves.

pub use crate::arch::ArchPadding;
pub use crate::hermetic::HermeticPadding;
