//! Network-side support: IPv4 addresses, reconnect backoff, station
//! supervision, link statistics and MQTT topics.
pub mod address;
pub mod backoff;
pub mod station;
pub mod stats;
pub mod traits;
