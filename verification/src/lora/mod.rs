//! The radio: airtime, duty cycle, configuration and the SX1262 command set.
pub mod airtime;
pub mod calibration;
pub mod driver;
pub mod duty_cycle;
pub mod traits;
