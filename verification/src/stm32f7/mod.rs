//! The plate as built on an STM32F7 board.

pub mod config;
