//! What the plate asks of the hardware under it.

pub mod pwm;
pub mod sensor;
pub mod simulated;
