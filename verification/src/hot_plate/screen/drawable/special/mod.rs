//! Shapes made of another shape.

pub mod colored;
pub mod flipped;
pub mod scaled;

pub use colored::Colored;
pub use flipped::Flipped;
pub use scaled::Scale;
