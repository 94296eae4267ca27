//! Temperature control: the safety supervisor and the PID loop.

pub mod pid;
pub mod safety;

pub use pid::PidController as TemperaturePidController;
pub use pid::PidGains as TemperaturePidGains;
pub use pid::TickError as PidUpdateError;
