//! The engine of the configurator app: it drives the same provisioning API as the
//! hub's captive portal.
pub mod client;
pub mod engine;
pub mod models;
pub mod session;
