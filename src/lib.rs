//! Verified core of a vintage gain and saturation effect.

pub mod level;
pub mod meter;
pub mod mode;
