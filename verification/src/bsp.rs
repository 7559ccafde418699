//! Board Support Package for the Raspberry Pi 3.

pub mod raspberrypi;
