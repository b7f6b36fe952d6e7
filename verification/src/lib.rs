//! A LoRa hub for an ESP32 board with an SX1262 radio: the rules that its tasks
//! follow, without the hardware.
//!
//! The hub is configured over USB or BLE ([`hub_protocol`], [`hub_config`]) or
//! through a web page of its own ([`portal`]). It sends and receives LoRa
//! packets within the EU duty cycle ([`lora`]). As a bridge it carries packets
//! to and from an MQTT broker ([`bridge`]); as a gateway it speaks the packet
//! forwarder protocol to a network server ([`gateway`]). [`tasks`] holds what
//! each firmware task decides, and [`dispatcher`] what becomes of a command.
//!
//! On the host side, [`configurator`] is what a configuration program works
//! on, [`host_protocol`] builds configuration frames, and [`acceptance`]
//! judges a hub on the bench.
//!
//! Each function states in its contract what it returns; public proof
//! functions state what holds of several of them together.
pub mod acceptance;
pub mod bounded;
pub mod bridge;
pub mod config;
pub mod configurator;
pub mod decimal;
pub mod dispatcher;
pub mod gateway;
pub mod hex;
pub mod host_protocol;
pub mod hub_config;
pub mod hub_protocol;
pub mod json;
pub mod lora;
pub mod net;
pub mod octets;
pub mod portal;
pub mod tasks;
pub mod usb;
pub mod wire;
pub mod wt;
