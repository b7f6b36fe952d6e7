[package]
name = "lora_mqtt_hub"
version = "0.1.0"
edition = "2021"
publish = false

[dependencies]
anyhow = "1"
base64 = { version = "=0.22.1", default-features = false }
bt-hci = "=0.10.1"
clap = { version = "4", features = ["derive", "env"] }
colored = "2"
corncobs = "=0.1.4"
crc = "=3.4.0"
embassy-executor = "=0.10.0"
embassy-futures = "0.1"
embassy-net = { version = "=0.9.1", features = ["tcp", "udp", "dns", "dhcpv4", "proto-ipv4", "medium-ethernet"] }
embassy-sync = "=0.8.0"
embassy-time = "=0.5.1"
embassy-usb = { version = "=0.6.0", default-features = false }
embedded-hal = "1"
embedded-hal-async = "1"
embedded-io = "0.6"
embedded-io-async = "0.6"
embedded-storage-async = "0.4"
heapless = "=0.8.0"
once_cell = "1"
rumqttc = { version = "=0.25.1", default-features = false }
rust-mqtt = "=0.6.0"
sequential-storage = { version = "=8.0.2", features = ["postcard"] }
serde = { version = "1", features = ["derive"] }
serde-json-core = "=0.6.0"
serialport = { version = "4", default-features = false }
static_cell = "2"
tokio = { version = "1", features = ["macros", "rt-multi-thread", "time"] }
trouble-host = "=0.8.0"
ureq = { version = "3", default-features = false, features = ["json"] }
