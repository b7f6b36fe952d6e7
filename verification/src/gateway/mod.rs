//! Single-channel LoRaWAN gateway (Semtech UDP packet forwarder).
//!
//! The gateway is a payload-agnostic packet forwarder: it relays LoRa frames
//! between the radio and a LoRaWAN network server (ChirpStack's gateway
//! bridge speaking the Semtech UDP protocol on port 1700). MIC verification,
//! joins, frame counters and decryption all happen at the network server.
//!
//! Single-radio realities, accepted by design: only uplinks on the one
//! configured frequency/spreading-factor are heard, and the radio is deaf
//! while transmitting a downlink.
pub mod eui;
pub mod scheduler;
pub mod udp_protocol;
pub mod forwarder;

use crate::bounded::Bytes;
use crate::lora::traits::LoraConfig;
use vstd::prelude::*;

verus! {

/// A downlink accepted from the network server, awaiting transmission.
#[derive(PartialEq)]
pub struct DownlinkJob {
    /// Target microsecond counter value, or `None` for immediate (Class C).
    pub target_tmst: Option<u32>,
    /// Full radio configuration for this transmission (frequency, data rate,
    /// power, inverted IQ, CRC off).
    pub config: LoraConfig,
    /// The packet.
    pub payload: Bytes<256>,
}

/// What a [`DownlinkJob`] asks for.
pub struct JobSpec {
    /// Target microsecond counter value.
    pub target_tmst: Option<u32>,
    /// Radio configuration.
    pub config: LoraConfig,
    /// The packet.
    pub payload: Seq<u8>,
}

impl View for DownlinkJob {
    type V = JobSpec;

    open spec fn view(&self) -> JobSpec {
        JobSpec {
            target_tmst: self.target_tmst,
            config: self.config,
            payload: self.payload@,
        }
    }
}

} // verus!
