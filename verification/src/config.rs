//! Configuration constants for the ESP32-S3 with WIO-SX1262.
use vstd::prelude::*;

verus! {

/// TCXO voltage code for the SX1262 register: 0x02 = 1.8 V.
pub const TCXO_VOLTAGE_CODE: u8 = 0x02;

/// Default frequency in Hz (869.525 MHz), in the EU868 869.4-869.65 MHz
/// sub-band (10% duty cycle, 500 mW ERP).
pub const FREQUENCY_HZ: u32 = 869_525_000;

/// Long-range default. Adjustable at runtime (7-12) via the
/// SetSpreadingFactor host command; resets to this default on reboot.
pub const SPREADING_FACTOR: u8 = 11;

/// Default bandwidth in kHz.
pub const BANDWIDTH_KHZ: u32 = 250;

/// Coding rate 4/8 (higher redundancy).
pub const CODING_RATE: u8 = 8;

/// TX power in dBm (supports -9 to +22).
pub const TX_POWER_DBM: i8 = 22;

/// Firmware version, reported by GetVersion: major.
pub const VERSION_MAJOR: u8 = 0;

/// Firmware version, reported by GetVersion: minor.
pub const VERSION_MINOR: u8 = 1;

/// Firmware version, reported by GetVersion: patch.
pub const VERSION_PATCH: u8 = 0;

} // verus!
