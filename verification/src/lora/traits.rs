//! LoRa radio configuration, packets and errors.
use crate::bounded::Bytes;
use crate::config;
use vstd::prelude::*;

verus! {

/// Errors that can occur during LoRa operations.
#[derive(Debug, Clone, Copy, PartialEq, Eq, Structural)]
pub enum LoraError {
    /// Operation timed out.
    Timeout,
    /// CRC error in received packet.
    CrcError,
    /// Transmission failed.
    TransmitFailed,
    /// Reception failed.
    ReceiveFailed,
    /// Invalid configuration.
    InvalidConfig,
    /// Radio busy timeout.
    BusyTimeout,
    /// SPI communication error.
    SpiError,
    /// Radio not initialised.
    NotInitialised,
}

/// LoRa sync word selection.
#[derive(Debug, Clone, Copy, PartialEq, Eq, Structural)]
pub enum SyncWord {
    /// Private networks (SX1262 power-on default, register value 0x1424).
    Private,
    /// Public networks / LoRaWAN (register value 0x3444).
    Public,
}

impl Default for SyncWord {
    fn default() -> (r: Self)
        ensures
            r == SyncWord::Private,
    {
        SyncWord::Private
    }
}

impl SyncWord {
    /// The (MSB, LSB) register pair.
    pub open spec fn registers(self) -> (u8, u8) {
        match self {
            SyncWord::Private => (0x14, 0x24),
            SyncWord::Public => (0x34, 0x44),
        }
    }

    /// The (MSB, LSB) register pair for registers 0x0740/0x0741.
    pub fn register_bytes(self) -> (r: (u8, u8))
        ensures
            r == self.registers(),
    {
        match self {
            SyncWord::Private => (0x14, 0x24),
            SyncWord::Public => (0x34, 0x44),
        }
    }
}

/// Configuration for LoRa modulation.
#[derive(Debug, Clone, Copy, PartialEq, Eq, Structural)]
pub struct LoraConfig {
    /// Centre frequency in Hz.
    pub frequency_hz: u32,
    /// Spreading factor (7-12).
    pub spreading_factor: u8,
    /// Bandwidth in kHz (7.8, 10.4, 15.6, 20.8, 31.25, 41.7, 62.5, 125, 250, 500).
    pub bandwidth_khz: u32,
    /// Coding rate denominator (5-8 for 4/5 to 4/8).
    pub coding_rate: u8,
    /// Transmit power in dBm.
    pub tx_power_dbm: i8,
    /// Network sync word.
    pub sync_word: SyncWord,
    /// Inverted IQ (LoRaWAN downlinks); standard IQ otherwise.
    pub iq_inverted: bool,
    /// Append/verify the payload CRC (LoRaWAN downlinks disable it).
    pub crc_on: bool,
    /// Preamble length in symbols.
    pub preamble_len: u16,
}

impl LoraConfig {
    /// The configuration that the hub starts with.
    pub open spec fn standard() -> LoraConfig {
        LoraConfig {
            frequency_hz: config::FREQUENCY_HZ,
            spreading_factor: config::SPREADING_FACTOR,
            bandwidth_khz: config::BANDWIDTH_KHZ,
            coding_rate: config::CODING_RATE,
            tx_power_dbm: config::TX_POWER_DBM,
            sync_word: SyncWord::Private,
            iq_inverted: false,
            crc_on: true,
            preamble_len: 8,
        }
    }
}

impl Default for LoraConfig {
    fn default() -> (r: Self)
        ensures
            r == LoraConfig::standard(),
    {
        LoraConfig {
            frequency_hz: config::FREQUENCY_HZ,
            spreading_factor: config::SPREADING_FACTOR,
            bandwidth_khz: config::BANDWIDTH_KHZ,
            coding_rate: config::CODING_RATE,
            tx_power_dbm: config::TX_POWER_DBM,
            sync_word: SyncWord::Private,
            iq_inverted: false,
            crc_on: true,
            preamble_len: 8,
        }
    }
}

/// Received packet with metadata.
#[derive(PartialEq)]
pub struct RxPacket {
    /// Received data.
    pub data: Bytes<256>,
    /// Received Signal Strength Indicator in dBm.
    pub rssi: i16,
    /// Signal-to-Noise Ratio in dB.
    pub snr: i8,
}

/// The sync word keeps networks apart: 0x3444 for public networks, 0x1424 for
/// private ones.
pub proof fn sync_words()
    ensures
        SyncWord::Public.registers() == (0x34u8, 0x44u8),
        SyncWord::Private.registers() == (0x14u8, 0x24u8),
{
}

/// What a hub is on the air with before it is told otherwise: 869.525 MHz, SF11,
/// 250 kHz, 4/8, 22 dBm, on a private network, with a checksum, standard
/// polarity and a preamble of eight symbols.
pub proof fn hub_starts_on_the_standard_channel()
    ensures
        LoraConfig::standard().frequency_hz == 869_525_000,
        LoraConfig::standard().spreading_factor == 11,
        LoraConfig::standard().bandwidth_khz == 250,
        LoraConfig::standard().coding_rate == 8,
        LoraConfig::standard().tx_power_dbm == 22,
        LoraConfig::standard().sync_word == SyncWord::Private,
        !LoraConfig::standard().iq_inverted,
        LoraConfig::standard().crc_on,
        LoraConfig::standard().preamble_len == 8,
{
}

} // verus!
