//! Decisions of the firmware's tasks.
//!
//! Each task runs a loop around sockets, channels, timers or the radio. What
//! it does next, and what it counts and answers, is decided here from plain
//! values, so that the loops themselves only carry out steps.
pub mod ble;
pub mod boot;
pub mod bridge;
pub mod gateway;
pub mod gateway_udp;
pub mod hub_ctrl;
pub mod mqtt;
pub mod portal;
pub mod wifi;
