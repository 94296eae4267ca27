//! Physical quantities.

pub mod color;
pub mod temperature;
