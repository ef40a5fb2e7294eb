//! Video game colors: gamma-encoded colors with one byte per channel, their
//! packed 32-bit forms, their text forms and their fixed-point luminance.

pub mod hex;
pub mod srgb;
pub mod srgba;

pub use srgb::{sRGB, LUMA_BLUE, LUMA_GREEN, LUMA_RED};
pub use srgba::sRGBA;
