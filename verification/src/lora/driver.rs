//! SX1262 command set and driver state.
//!
//! What goes over the SPI bus is decided here, as lists of steps; performing
//! them (bus, chip select, BUSY, timers) is left to whoever owns the pins.
//! Each operation has a `begin` part, which gives the steps and already marks
//! the state that a failure half way would leave behind, and a `finish` part
//! for when every step has succeeded.
use crate::bounded::Bytes;
use crate::config;
use crate::lora::calibration;
use crate::lora::calibration::{image_cal_params, ldro_enabled, CALIBRATE_ALL};
use crate::lora::traits::{LoraConfig, LoraError, RxPacket};
use crate::octets;
use vstd::prelude::*;

verus! {

/// Opcode SetStandby.
pub const SET_STANDBY: u8 = 0x80;

/// Opcode SetTx.
pub const SET_TX: u8 = 0x83;

/// Opcode SetRx.
pub const SET_RX: u8 = 0x82;

/// Opcode SetRegulatorMode.
pub const SET_REGULATOR_MODE: u8 = 0x96;

/// Opcode ClearDeviceErrors.
pub const CLEAR_DEVICE_ERRORS: u8 = 0x07;

/// Opcode ReadRegister.
pub const READ_REGISTER: u8 = 0x1D;

/// Opcode SetRfFrequency.
pub const SET_RF_FREQUENCY: u8 = 0x86;

/// Opcode SetPacketType.
pub const SET_PACKET_TYPE: u8 = 0x8A;

/// Opcode SetModulationParams.
pub const SET_MODULATION_PARAMS: u8 = 0x8B;

/// Opcode SetPacketParams.
pub const SET_PACKET_PARAMS: u8 = 0x8C;

/// Opcode SetBufferBaseAddress.
pub const SET_BUFFER_BASE_ADDRESS: u8 = 0x8F;

/// Opcode SetPaConfig.
pub const SET_PA_CONFIG: u8 = 0x95;

/// Opcode SetDIO3AsTcxoCtrl.
pub const SET_DIO3_AS_TCXO_CTRL: u8 = 0x97;

/// Opcode SetDIO2AsRfSwitchCtrl.
pub const SET_DIO2_AS_RF_SWITCH_CTRL: u8 = 0x9D;

/// Opcode Calibrate.
pub const CALIBRATE: u8 = 0x89;

/// Opcode CalibrateImage.
pub const CALIBRATE_IMAGE: u8 = 0x98;

/// Opcode SetTxParams.
pub const SET_TX_PARAMS: u8 = 0x8E;

/// Opcode WriteBuffer.
pub const WRITE_BUFFER: u8 = 0x0E;

/// Opcode ReadBuffer.
pub const READ_BUFFER: u8 = 0x1E;

/// Opcode WriteRegister.
pub const WRITE_REGISTER: u8 = 0x0D;

/// Opcode GetRxBufferStatus.
pub const GET_RX_BUFFER_STATUS: u8 = 0x13;

/// Opcode GetPacketStatus.
pub const GET_PACKET_STATUS: u8 = 0x14;

/// Opcode GetIrqStatus.
pub const GET_IRQ_STATUS: u8 = 0x12;

/// Opcode ClearIrqStatus.
pub const CLEAR_IRQ_STATUS: u8 = 0x02;

/// Opcode SetDioIrqParams.
pub const SET_DIO_IRQ_PARAMS: u8 = 0x08;

/// Over-current protection register.
pub const OCP_CONFIGURATION: u16 = 0x08E7;

/// PA clamping threshold (datasheet errata 15.2).
pub const TX_CLAMP_CONFIG: u16 = 0x08D8;

/// LoRa sync word register, high byte.
pub const SYNC_WORD_MSB: u16 = 0x0740;

/// LoRa sync word register, low byte.
pub const SYNC_WORD_LSB: u16 = 0x0741;

/// Maximum payload length the modem can carry in one packet.
///
/// The packet-params length field is a single byte, so the hardware limit is
/// 255 even though a frame may hold 256 bytes. Used both to bound RX and to
/// reject oversize TX payloads (256 would otherwise truncate to 0 and
/// silently transmit an empty packet).
pub const HW_MAX_PAYLOAD_LEN: u8 = 255;

/// Standby on the RC oscillator.
pub const STDBY_RC: u8 = 0x00;

/// Packet type LoRa.
pub const PACKET_TYPE_LORA: u8 = 0x01;

/// Interrupt: transmission done.
pub const IRQ_TX_DONE: u16 = 0x0001;

/// Interrupt: packet received.
pub const IRQ_RX_DONE: u16 = 0x0002;

/// Interrupt: timeout.
pub const IRQ_TIMEOUT: u16 = 0x0200;

/// Interrupt: payload checksum wrong.
pub const IRQ_CRC_ERR: u16 = 0x0040;

/// The interrupts that reception waits for.
pub const IRQ_RX_MASK: u16 = 0x0242;

/// Every interrupt.
pub const IRQ_ALL: u16 = 0xFFFF;

/// How long a transmission may take.
pub const TX_TIMEOUT_MS: u32 = 10_000;

/// Over-current limit in milliampere.
pub const CURRENT_LIMIT_MA: u16 = 140;

/// Control pins for SX1262.
pub struct Sx1262Pins<Nss, Dio1, Nrst, Busy> {
    /// Chip select.
    pub nss: Nss,
    /// Interrupt line.
    pub dio1: Dio1,
    /// Reset line.
    pub nrst: Nrst,
    /// Busy line.
    pub busy: Busy,
}

/// One step of a radio operation.
#[derive(Debug, PartialEq, Eq)]
pub enum RadioStep {
    /// Pulse the reset line.
    Reset,
    /// Wait until BUSY is low.
    WaitReady,
    /// Wait this many milliseconds.
    PauseMs(u32),
    /// Wait until BUSY is low, then write these bytes.
    Write(Vec<u8>),
    /// Read a register and write it back with these bits set.
    SetBits {
        /// Register address.
        addr: u16,
        /// Bits to set.
        mask: u8,
    },
}

/// What a [`RadioStep`] does.
pub enum StepSpec {
    /// Pulse the reset line.
    Reset,
    /// Wait until BUSY is low.
    WaitReady,
    /// Wait this many milliseconds.
    PauseMs(u32),
    /// Write these bytes.
    Write(Seq<u8>),
    /// Set bits in a register: address and bits.
    SetBits(u16, u8),
}

impl View for RadioStep {
    type V = StepSpec;

    open spec fn view(&self) -> StepSpec {
        match self {
            RadioStep::Reset => StepSpec::Reset,
            RadioStep::WaitReady => StepSpec::WaitReady,
            RadioStep::PauseMs(ms) => StepSpec::PauseMs(*ms),
            RadioStep::Write(bytes) => StepSpec::Write(bytes@),
            RadioStep::SetBits { addr, mask } => StepSpec::SetBits(*addr, *mask),
        }
    }
}

/// What a list of steps does.
pub open spec fn done(steps: Seq<RadioStep>) -> Seq<StepSpec> {
    steps.map_values(|s: RadioStep| s@)
}

/// A command: opcode and parameters.
pub open spec fn command(opcode: u8, data: Seq<u8>) -> StepSpec {
    StepSpec::Write(seq![opcode] + data)
}

/// The register value of a carrier frequency: frequency times 2^25 over the
/// 32 MHz crystal.
pub open spec fn frequency_register(freq_hz: int) -> u32 {
    ((freq_hz * 33_554_432 / 32_000_000) % 0x1_0000_0000) as u32
}

/// The bandwidth code of SetModulationParams; 125 kHz for an unknown label.
pub open spec fn bandwidth_code(bandwidth_khz: int) -> u8 {
    if bandwidth_khz == 7 || bandwidth_khz == 8 {
        0x00
    } else if bandwidth_khz == 10 {
        0x08
    } else if bandwidth_khz == 15 || bandwidth_khz == 16 {
        0x01
    } else if bandwidth_khz == 20 || bandwidth_khz == 21 {
        0x09
    } else if bandwidth_khz == 31 {
        0x02
    } else if bandwidth_khz == 41 || bandwidth_khz == 42 {
        0x0A
    } else if bandwidth_khz == 62 || bandwidth_khz == 63 {
        0x03
    } else if bandwidth_khz == 250 {
        0x05
    } else if bandwidth_khz == 500 {
        0x06
    } else {
        0x04
    }
}

/// The coding rate code of SetModulationParams; 4/5 for an unknown rate.
pub open spec fn coding_rate_code(coding_rate: int) -> u8 {
    if 5 <= coding_rate <= 8 {
        (coding_rate - 4) as u8
    } else {
        0x01
    }
}

/// A flag as a byte.
pub open spec fn flag(on: bool) -> u8 {
    if on {
        1
    } else {
        0
    }
}

/// The SetModulationParams command of a configuration.
pub open spec fn modulation_params(c: LoraConfig) -> StepSpec {
    command(
        SET_MODULATION_PARAMS,
        seq![
            c.spreading_factor,
            bandwidth_code(c.bandwidth_khz as int),
            coding_rate_code(c.coding_rate as int),
            flag(
                calibration::ldro(
                    calibration::clamped_sf(c.spreading_factor as int),
                    c.bandwidth_khz as int,
                ),
            ),
        ],
    )
}

/// The SetPacketParams command of a configuration: preamble, explicit header,
/// payload length, checksum, polarity.
pub open spec fn packet_params(c: LoraConfig, payload_len: u8) -> StepSpec {
    command(
        SET_PACKET_PARAMS,
        octets::be16(c.preamble_len) + seq![0u8, payload_len, flag(c.crc_on), flag(c.iq_inverted)],
    )
}

/// A power in dBm as a register value, in two's complement.
pub open spec fn power_register(power_dbm: int) -> u8 {
    if power_dbm < 0 {
        (256 + power_dbm) as u8
    } else {
        power_dbm as u8
    }
}

/// The register value of an over-current limit: steps of 2.5 mA, at most 63.
pub open spec fn ocp_register(current_ma: int) -> u8 {
    let steps = current_ma * 10 / 25;
    if steps > 63 {
        63
    } else {
        steps as u8
    }
}

/// A register write.
pub open spec fn register_write(addr: u16, value: u8) -> StepSpec {
    command(WRITE_REGISTER, octets::be16(addr) + seq![value])
}

/// The SetDioIrqParams command: these interrupts, all of them on DIO1.
pub open spec fn irq_params(mask: u16) -> StepSpec {
    command(SET_DIO_IRQ_PARAMS, octets::be16(mask) + octets::be16(mask) + seq![0u8, 0, 0, 0])
}

/// The ClearIrqStatus command.
pub open spec fn irq_clear(mask: u16) -> StepSpec {
    command(CLEAR_IRQ_STATUS, octets::be16(mask))
}

/// The SetStandby command.
pub open spec fn standby() -> StepSpec {
    command(SET_STANDBY, seq![STDBY_RC])
}

/// What applies a configuration. SetPaConfig resets the over-current limit, so
/// the limit is written after it, never before; the image is calibrated for
/// the frequency that was set.
pub open spec fn configure_steps(c: LoraConfig) -> Seq<StepSpec> {
    seq![
        standby(),
        command(SET_RF_FREQUENCY, octets::be32(frequency_register(c.frequency_hz as int))),
        command(
            CALIBRATE_IMAGE,
            seq![
                calibration::image_band(c.frequency_hz as int).0,
                calibration::image_band(c.frequency_hz as int).1,
            ],
        ),
        modulation_params(c),
        register_write(SYNC_WORD_MSB, c.sync_word.registers().0),
        register_write(SYNC_WORD_LSB, c.sync_word.registers().1),
        command(SET_PA_CONFIG, seq![0x04u8, 0x07, 0x00, 0x01]),
        register_write(OCP_CONFIGURATION, ocp_register(CURRENT_LIMIT_MA as int)),
        command(SET_TX_PARAMS, seq![power_register(c.tx_power_dbm as int), 0x04]),
    ]
}

/// What starts continuous reception.
pub open spec fn receive_steps(c: LoraConfig) -> Seq<StepSpec> {
    seq![
        standby(),
        packet_params(c, HW_MAX_PAYLOAD_LEN),
        irq_params(IRQ_RX_MASK),
        irq_clear(IRQ_ALL),
        command(SET_RX, seq![0xFFu8, 0xFF, 0xFF]),
    ]
}

/// What stages a packet for transmission.
pub open spec fn prepare_steps(c: LoraConfig, data: Seq<u8>) -> Seq<StepSpec> {
    seq![
        standby(),
        packet_params(c, data.len() as u8),
        StepSpec::Write(seq![WRITE_BUFFER, 0x00] + data),
        irq_params(IRQ_TX_DONE),
        irq_clear(IRQ_ALL),
    ]
}

/// What starts the transmission of a staged packet (no timeout).
pub open spec fn fire_step() -> StepSpec {
    command(SET_TX, seq![0x00u8, 0x00, 0x00])
}

/// What brings the radio up before it is configured: reset, DC-DC regulator,
/// TCXO, calibration (once the TCXO runs), the expected start-up error
/// cleared, the PA clamp errata, RF switch, packet type and buffers.
pub open spec fn bring_up_steps() -> Seq<StepSpec> {
    seq![
        StepSpec::Reset,
        StepSpec::WaitReady,
        standby(),
        command(SET_REGULATOR_MODE, seq![0x01u8]),
        command(SET_DIO3_AS_TCXO_CTRL, seq![config::TCXO_VOLTAGE_CODE, 0x00, 0x01, 0x40]),
        StepSpec::PauseMs(10),
        command(CALIBRATE, seq![CALIBRATE_ALL]),
        StepSpec::PauseMs(5),
        StepSpec::WaitReady,
        command(CLEAR_DEVICE_ERRORS, seq![0x00u8, 0x00]),
        StepSpec::SetBits(TX_CLAMP_CONFIG, 0x1E),
        command(SET_DIO2_AS_RF_SWITCH_CTRL, seq![0x01u8]),
        command(SET_PACKET_TYPE, seq![PACKET_TYPE_LORA]),
        command(SET_BUFFER_BASE_ADDRESS, seq![0x00u8, 0x00]),
    ]
}

/// What initialises the radio: bring-up, the default configuration, and
/// reception.
pub open spec fn init_steps() -> Seq<StepSpec> {
    bring_up_steps() + configure_steps(LoraConfig::standard()) + receive_steps(
        LoraConfig::standard(),
    )
}

fn add_step(steps: &mut Vec<RadioStep>, step: RadioStep)
    ensures
        done(final(steps)@) == done(old(steps)@).push(step@),
{
    let ghost before = steps@;
    steps.push(step);
    assert(done(steps@) =~= done(before).push(step@));
}

fn add_command(steps: &mut Vec<RadioStep>, opcode: u8, data: &[u8])
    ensures
        done(final(steps)@) == done(old(steps)@).push(command(opcode, data@)),
{
    let mut bytes: Vec<u8> = Vec::new();
    bytes.push(opcode);
    octets::append(&mut bytes, data);
    assert(bytes@ =~= seq![opcode] + data@);
    add_step(steps, RadioStep::Write(bytes));
}

fn add_register_write(steps: &mut Vec<RadioStep>, addr: u16, value: u8)
    ensures
        done(final(steps)@) == done(old(steps)@).push(register_write(addr, value)),
{
    let mut data: Vec<u8> = Vec::new();
    octets::append_be16(&mut data, addr);
    data.push(value);
    assert(data@ =~= octets::be16(addr) + seq![value]);
    add_command(steps, WRITE_REGISTER, data.as_slice());
}

fn add_standby(steps: &mut Vec<RadioStep>)
    ensures
        done(final(steps)@) == done(old(steps)@).push(standby()),
{
    let data: [u8; 1] = [STDBY_RC];
    assert(data@ =~= seq![STDBY_RC]);
    add_command(steps, SET_STANDBY, &data);
}

fn byte_of(on: bool) -> (r: u8)
    ensures
        r == flag(on),
{
    if on {
        1
    } else {
        0
    }
}

fn add_packet_params(steps: &mut Vec<RadioStep>, config: &LoraConfig, payload_len: u8)
    ensures
        done(final(steps)@) == done(old(steps)@).push(packet_params(*config, payload_len)),
{
    let mut data: Vec<u8> = Vec::new();
    octets::append_be16(&mut data, config.preamble_len);
    data.push(0);
    data.push(payload_len);
    data.push(byte_of(config.crc_on));
    data.push(byte_of(config.iq_inverted));
    assert(data@ =~= octets::be16(config.preamble_len) + seq![
        0u8,
        payload_len,
        flag(config.crc_on),
        flag(config.iq_inverted),
    ]);
    add_command(steps, SET_PACKET_PARAMS, data.as_slice());
}

/// Sets modulation parameters: the same label set (and fallback) as the
/// airtime calculation.
fn add_modulation_params(steps: &mut Vec<RadioStep>, config: &LoraConfig)
    ensures
        done(final(steps)@) == done(old(steps)@).push(modulation_params(*config)),
{
    let bw: u8 = match config.bandwidth_khz {
        7 | 8 => 0x00,  // 7.8 kHz
        10 => 0x08,  // 10.4 kHz
        15 | 16 => 0x01,  // 15.6 kHz
        20 | 21 => 0x09,  // 20.8 kHz
        31 => 0x02,  // 31.25 kHz
        41 | 42 => 0x0A,  // 41.7 kHz
        62 | 63 => 0x03,  // 62.5 kHz
        125 => 0x04,  // 125 kHz
        250 => 0x05,  // 250 kHz
        500 => 0x06,  // 500 kHz
        _ => 0x04,  // default to 125 kHz
    };
    let cr: u8 = match config.coding_rate {
        5 => 0x01,  // 4/5
        6 => 0x02,  // 4/6
        7 => 0x03,  // 4/7
        8 => 0x04,  // 4/8
        _ => 0x01,  // default to 4/5
    };
    // Low data rate optimisation: required when the symbol time reaches
    // 16.38 ms (SF11/SF12 at 125 kHz and SF12 at 250 kHz).
    let ldro: u8 = byte_of(ldro_enabled(config.spreading_factor, config.bandwidth_khz));
    let data: [u8; 4] = [config.spreading_factor, bw, cr, ldro];
    assert(data@ =~= seq![config.spreading_factor, bw, cr, ldro]);
    add_command(steps, SET_MODULATION_PARAMS, &data);
}

fn add_irq_params(steps: &mut Vec<RadioStep>, mask: u16)
    ensures
        done(final(steps)@) == done(old(steps)@).push(irq_params(mask)),
{
    let mut data: Vec<u8> = Vec::new();
    octets::append_be16(&mut data, mask);
    octets::append_be16(&mut data, mask);
    data.push(0);
    data.push(0);
    data.push(0);
    data.push(0);
    assert(data@ =~= octets::be16(mask) + octets::be16(mask) + seq![0u8, 0, 0, 0]);
    add_command(steps, SET_DIO_IRQ_PARAMS, data.as_slice());
}

/// The ClearIrqStatus command.
pub fn clear_irq(mask: u16) -> (r: RadioStep)
    ensures
        r@ == irq_clear(mask),
{
    let mut bytes: Vec<u8> = Vec::new();
    bytes.push(CLEAR_IRQ_STATUS);
    octets::append_be16(&mut bytes, mask);
    assert(bytes@ =~= seq![CLEAR_IRQ_STATUS] + octets::be16(mask));
    RadioStep::Write(bytes)
}

/// Starts the transmission of a staged packet.
pub fn fire_tx() -> (r: RadioStep)
    ensures
        r@ == fire_step(),
{
    let bytes: Vec<u8> = vec![SET_TX, 0x00, 0x00, 0x00];
    assert(bytes@ =~= seq![SET_TX] + seq![0x00u8, 0x00, 0x00]);
    RadioStep::Write(bytes)
}

/// Calibrate image rejection for the frequency band.
pub fn calibrate_image(freq_hz: u32) -> (r: RadioStep)
    ensures
        r@ == command(
            CALIBRATE_IMAGE,
            seq![
                calibration::image_band(freq_hz as int).0,
                calibration::image_band(freq_hz as int).1,
            ],
        ),
{
    let (f1, f2): (u8, u8) = image_cal_params(freq_hz);
    let bytes: Vec<u8> = vec![CALIBRATE_IMAGE, f1, f2];
    assert(bytes@ =~= seq![CALIBRATE_IMAGE] + seq![f1, f2]);
    RadioStep::Write(bytes)
}

fn add_configure(steps: &mut Vec<RadioStep>, config: &LoraConfig)
    ensures
        done(final(steps)@) == done(old(steps)@) + configure_steps(*config),
{
    let ghost before = done(steps@);
    add_standby(steps);
    // Frequency = (freq_rf * 2^25) / 32 MHz
    let register: u64 = config.frequency_hz as u64 * 33_554_432 / 32_000_000;
    let mut frequency: Vec<u8> = Vec::new();
    octets::append_be32(&mut frequency, (register % 0x1_0000_0000) as u32);
    assert(frequency@ =~= octets::be32(frequency_register(config.frequency_hz as int)));
    add_command(steps, SET_RF_FREQUENCY, frequency.as_slice());
    add_step(steps, calibrate_image(config.frequency_hz));
    add_modulation_params(steps, config);
    let (msb, lsb): (u8, u8) = config.sync_word.register_bytes();
    add_register_write(steps, SYNC_WORD_MSB, msb);
    add_register_write(steps, SYNC_WORD_LSB, lsb);
    // paDutyCycle=0x04, hpMax=0x07, deviceSel=0x00 (SX1262), paLut=0x01
    let pa: [u8; 4] = [0x04, 0x07, 0x00, 0x01];
    assert(pa@ =~= seq![0x04u8, 0x07, 0x00, 0x01]);
    add_command(steps, SET_PA_CONFIG, &pa);
    let ocp: u32 = CURRENT_LIMIT_MA as u32 * 10 / 25;
    add_register_write(
        steps,
        OCP_CONFIGURATION,
        if ocp > 63 {
            63
        } else {
            ocp as u8
        },
    );
    let power: u8 = if config.tx_power_dbm < 0 {
        (256 + config.tx_power_dbm as i16) as u8
    } else {
        config.tx_power_dbm as u8
    };
    // Power, ramp time 200 us
    let tx: [u8; 2] = [power, 0x04];
    assert(tx@ =~= seq![power_register(config.tx_power_dbm as int), 0x04]);
    add_command(steps, SET_TX_PARAMS, &tx);
    assert(done(steps@) =~= before + configure_steps(*config));
}

fn add_receive(steps: &mut Vec<RadioStep>, config: &LoraConfig)
    ensures
        done(final(steps)@) == done(old(steps)@) + receive_steps(*config),
{
    let ghost before = done(steps@);
    add_standby(steps);
    add_packet_params(steps, config, HW_MAX_PAYLOAD_LEN);
    add_irq_params(steps, IRQ_RX_MASK);
    add_step(steps, clear_irq(IRQ_ALL));
    // Timeout 0xFFFFFF means continuous.
    let timeout: [u8; 3] = [0xFF, 0xFF, 0xFF];
    assert(timeout@ =~= seq![0xFFu8, 0xFF, 0xFF]);
    add_command(steps, SET_RX, &timeout);
    assert(done(steps@) =~= before + receive_steps(*config));
}

/// What the driver knows of the radio.
pub struct RadioState {
    initialised: bool,
    in_continuous_rx: bool,
    config: Option<LoraConfig>,
}

/// What the driver knows of the radio, as a mathematical value.
pub struct RadioSpec {
    /// Whether the radio was brought up.
    pub initialised: bool,
    /// Whether it is listening.
    pub in_continuous_rx: bool,
    /// The configuration that was applied last.
    pub config: Option<LoraConfig>,
}

impl View for RadioState {
    type V = RadioSpec;

    closed spec fn view(&self) -> RadioSpec {
        RadioSpec {
            initialised: self.initialised,
            in_continuous_rx: self.in_continuous_rx,
            config: self.config,
        }
    }
}

impl RadioSpec {
    /// The configuration that packets are sent and received with.
    pub open spec fn active(self) -> LoraConfig {
        match self.config {
            Some(config) => config,
            None => LoraConfig::standard(),
        }
    }

    /// The radio out of reception.
    pub open spec fn idle(self) -> RadioSpec {
        RadioSpec { in_continuous_rx: false, ..self }
    }
}

/// Whether an interrupt is raised.
pub open spec fn raised(irq_status: u16, interrupt: u16) -> bool {
    (irq_status / interrupt) % 2 == 1
}

/// Why a payload cannot be transmitted, if it cannot: the radio is not up, or
/// the modem's length field cannot hold the length.
pub open spec fn transmit_error(state: RadioSpec, len: nat) -> Option<LoraError> {
    if !state.initialised {
        Some(LoraError::NotInitialised)
    } else if len == 0 || len > HW_MAX_PAYLOAD_LEN {
        Some(LoraError::InvalidConfig)
    } else {
        None
    }
}

/// The signal strength behind a status byte, in dBm.
pub open spec fn rssi_of(byte: u8) -> i16 {
    (-(byte as int / 2)) as i16
}

/// The signal to noise ratio behind a status byte, in dB: a quarter of the
/// byte in two's complement, rounded towards zero.
pub open spec fn snr_of(byte: u8) -> i8 {
    if byte < 128 {
        (byte as int / 4) as i8
    } else {
        (-((256 - byte) / 4)) as i8
    }
}

impl Default for RadioState {
    fn default() -> (r: Self)
        ensures
            r@ == (RadioSpec { initialised: false, in_continuous_rx: false, config: None }),
    {
        Self::new()
    }
}

impl RadioState {
    /// A radio that was not brought up yet.
    pub fn new() -> (r: Self)
        ensures
            r@ == (RadioSpec { initialised: false, in_continuous_rx: false, config: None }),
    {
        RadioState { initialised: false, in_continuous_rx: false, config: None }
    }

    /// Whether the radio is listening.
    pub fn in_continuous_rx(&self) -> (r: bool)
        ensures
            r == self@.in_continuous_rx,
    {
        self.in_continuous_rx
    }

    fn active(&self) -> (r: LoraConfig)
        ensures
            r == self@.active(),
    {
        match self.config {
            Some(config) => config,
            None => LoraConfig::default(),
        }
    }

    /// Initialise the radio hardware.
    pub fn begin_init(&mut self) -> (r: Vec<RadioStep>)
        ensures
            done(r@) == init_steps(),
            final(self)@ == old(self)@.idle(),
    {
        self.in_continuous_rx = false;
        let mut steps: Vec<RadioStep> = Vec::new();
        assert(done(steps@) =~= Seq::<StepSpec>::empty());
        add_step(&mut steps, RadioStep::Reset);
        add_step(&mut steps, RadioStep::WaitReady);
        add_standby(&mut steps);
        // The Wio-SX1262 is a DC-DC design; must be selected in STDBY_RC.
        let on: [u8; 1] = [0x01];
        assert(on@ =~= seq![0x01u8]);
        add_command(&mut steps, SET_REGULATOR_MODE, &on);
        // TCXO voltage code and a start-up time of about 5 ms (24 bit).
        let tcxo: [u8; 4] = [config::TCXO_VOLTAGE_CODE, 0x00, 0x01, 0x40];
        assert(tcxo@ =~= seq![config::TCXO_VOLTAGE_CODE, 0x00, 0x01, 0x40]);
        add_command(&mut steps, SET_DIO3_AS_TCXO_CTRL, &tcxo);
        add_step(&mut steps, RadioStep::PauseMs(10));
        // Recalibrate now the TCXO is running (must be done in STDBY_RC).
        // Without this the first TX/RX after boot uses the invalid power-on
        // calibration and the first packet is silently lost.
        let all: [u8; 1] = [CALIBRATE_ALL];
        assert(all@ =~= seq![CALIBRATE_ALL]);
        add_command(&mut steps, CALIBRATE, &all);
        add_step(&mut steps, RadioStep::PauseMs(5));
        add_step(&mut steps, RadioStep::WaitReady);
        // The XOSC start triggers the expected XOSC_START_ERR flag when a
        // TCXO is used; the datasheet says to clear it and move on.
        let none: [u8; 2] = [0x00, 0x00];
        assert(none@ =~= seq![0x00u8, 0x00]);
        add_command(&mut steps, CLEAR_DEVICE_ERRORS, &none);
        // PA clamp errata fix; required once per POR / cold start.
        add_step(&mut steps, RadioStep::SetBits { addr: TX_CLAMP_CONFIG, mask: 0x1E });
        add_command(&mut steps, SET_DIO2_AS_RF_SWITCH_CTRL, &on);
        let lora: [u8; 1] = [PACKET_TYPE_LORA];
        assert(lora@ =~= seq![PACKET_TYPE_LORA]);
        add_command(&mut steps, SET_PACKET_TYPE, &lora);
        // TX and RX never run concurrently, so both use the full 256-byte
        // buffer; splitting it would cap RX at 128 bytes before wrapping.
        add_command(&mut steps, SET_BUFFER_BASE_ADDRESS, &none);
        assert(done(steps@) =~= bring_up_steps());
        let standard: LoraConfig = LoraConfig::default();
        add_configure(&mut steps, &standard);
        add_receive(&mut steps, &standard);
        steps
    }

    /// The radio is up, configured with the defaults and listening.
    pub fn finish_init(&mut self)
        ensures
            final(self)@ == (RadioSpec {
                initialised: true,
                in_continuous_rx: true,
                config: Some(LoraConfig::standard()),
            }),
    {
        self.initialised = true;
        self.in_continuous_rx = true;
        self.config = Some(LoraConfig::default());
    }

    /// Configure the radio parameters.
    pub fn begin_configure(&mut self, config: &LoraConfig) -> (r: Vec<RadioStep>)
        ensures
            done(r@) == configure_steps(*config),
            final(self)@ == old(self)@.idle(),
    {
        self.in_continuous_rx = false;
        let mut steps: Vec<RadioStep> = Vec::new();
        add_configure(&mut steps, config);
        assert(done(steps@) =~= configure_steps(*config));
        steps
    }

    /// The configuration is applied.
    pub fn finish_configure(&mut self, config: &LoraConfig)
        ensures
            final(self)@ == (RadioSpec { config: Some(*config), ..old(self)@ }),
    {
        self.config = Some(*config);
    }

    /// Set the radio to standby mode. Every path that drops the radio out of
    /// RX leaves the reception flag truthful, so that the next `begin_arm`
    /// re-arms the receiver.
    pub fn begin_standby(&mut self) -> (r: Vec<RadioStep>)
        ensures
            done(r@) == seq![standby()],
            final(self)@ == old(self)@.idle(),
    {
        self.in_continuous_rx = false;
        let mut steps: Vec<RadioStep> = Vec::new();
        add_standby(&mut steps);
        assert(done(steps@) =~= seq![standby()]);
        steps
    }

    /// Ensure the radio is listening in continuous RX. Nothing is to be done
    /// when it is: re-arming would drop the radio to standby in the middle of
    /// a reception.
    pub fn begin_arm(&mut self) -> (r: Result<Vec<RadioStep>, LoraError>)
        ensures
            match r {
                Ok(steps) => old(self)@.initialised && (if old(self)@.in_continuous_rx {
                    done(steps@) == Seq::<StepSpec>::empty() && final(self)@ == old(self)@
                } else {
                    done(steps@) == receive_steps(old(self)@.active()) && final(self)@
                        == old(self)@.idle()
                }),
                Err(e) => !old(self)@.initialised && e == LoraError::NotInitialised && final(self)@
                    == old(self)@,
            },
    {
        if !self.initialised {
            return Err(LoraError::NotInitialised);
        }
        let mut steps: Vec<RadioStep> = Vec::new();
        assert(done(steps@) =~= Seq::<StepSpec>::empty());
        if !self.in_continuous_rx {
            let config: LoraConfig = self.active();
            add_receive(&mut steps, &config);
            assert(done(steps@) =~= receive_steps(config));
        }
        Ok(steps)
    }

    /// The radio is listening.
    pub fn finish_arm(&mut self)
        ensures
            final(self)@ == (RadioSpec { in_continuous_rx: true, ..old(self)@ }),
    {
        self.in_continuous_rx = true;
    }

    /// Stage a packet for transmission; [`fire_tx`] then sends it.
    pub fn prepare_tx(&mut self, data: &[u8]) -> (r: Result<Vec<RadioStep>, LoraError>)
        ensures
            match r {
                Ok(steps) => transmit_error(old(self)@, data@.len()) is None && done(steps@)
                    == prepare_steps(old(self)@.active(), data@) && final(self)@
                    == old(self)@.idle(),
                Err(e) => transmit_error(old(self)@, data@.len()) == Some(e) && final(self)@
                    == old(self)@,
            },
    {
        if !self.initialised {
            return Err(LoraError::NotInitialised);
        }
        // The modem's length field is one byte: reject anything over 255, or
        // the length wraps (256 -> 0) and an empty packet goes on the air.
        if data.len() == 0 || data.len() > HW_MAX_PAYLOAD_LEN as usize {
            return Err(LoraError::InvalidConfig);
        }
        let config: LoraConfig = self.active();
        self.in_continuous_rx = false;
        let mut steps: Vec<RadioStep> = Vec::new();
        add_standby(&mut steps);
        add_packet_params(&mut steps, &config, data.len() as u8);
        let mut buffer: Vec<u8> = Vec::new();
        buffer.push(WRITE_BUFFER);
        buffer.push(0x00);
        octets::append(&mut buffer, data);
        assert(buffer@ =~= seq![WRITE_BUFFER, 0x00] + data@);
        add_step(&mut steps, RadioStep::Write(buffer));
        add_irq_params(&mut steps, IRQ_TX_DONE);
        add_step(&mut steps, clear_irq(IRQ_ALL));
        assert(done(steps@) =~= prepare_steps(config, data@));
        Ok(steps)
    }

    /// Transmit data over LoRa: stage it and send it. Then wait for the
    /// interrupt, clear it with [`clear_irq`] and judge it with
    /// [`tx_outcome`].
    pub fn begin_transmit(&mut self, data: &[u8]) -> (r: Result<Vec<RadioStep>, LoraError>)
        ensures
            match r {
                Ok(steps) => transmit_error(old(self)@, data@.len()) is None && done(steps@)
                    == prepare_steps(old(self)@.active(), data@).push(fire_step()) && final(self)@
                    == old(self)@.idle(),
                Err(e) => transmit_error(old(self)@, data@.len()) == Some(e) && final(self)@
                    == old(self)@,
            },
    {
        let mut steps: Vec<RadioStep> = self.prepare_tx(data)?;
        add_step(&mut steps, fire_tx());
        Ok(steps)
    }
}

/// What the interrupt after a transmission says of it.
pub fn tx_outcome(irq_status: u16) -> (r: Result<(), LoraError>)
    ensures
        raised(irq_status, IRQ_TX_DONE) ==> r is Ok,
        !raised(irq_status, IRQ_TX_DONE) ==> r == Err::<(), LoraError>(LoraError::TransmitFailed),
{
    if (irq_status / IRQ_TX_DONE) % 2 == 1 {
        Ok(())
    } else {
        Err(LoraError::TransmitFailed)
    }
}

/// What the interrupt behind a reception says of it. The radio stays in
/// continuous RX whatever it is.
pub fn rx_outcome(irq_status: u16) -> (r: Result<(), LoraError>)
    ensures
        raised(irq_status, IRQ_CRC_ERR) ==> r == Err::<(), LoraError>(LoraError::CrcError),
        !raised(irq_status, IRQ_CRC_ERR) && !raised(irq_status, IRQ_RX_DONE) ==> r == Err::<
            (),
            LoraError,
        >(LoraError::ReceiveFailed),
        !raised(irq_status, IRQ_CRC_ERR) && raised(irq_status, IRQ_RX_DONE) ==> r is Ok,
{
    if (irq_status / IRQ_CRC_ERR) % 2 == 1 {
        return Err(LoraError::CrcError);
    }
    if (irq_status / IRQ_RX_DONE) % 2 == 0 {
        return Err(LoraError::ReceiveFailed);
    }
    Ok(())
}

/// The request that reads `len` bytes of a status: opcode, a status byte, and
/// room for the answer.
pub fn status_request(opcode: u8, len: usize) -> (r: Vec<u8>)
    requires
        len <= 16,
    ensures
        r@ == seq![opcode] + Seq::new((len + 1) as nat, |i: int| 0u8),
{
    let mut bytes: Vec<u8> = Vec::new();
    bytes.push(opcode);
    let mut i: usize = 0;
    while i < len + 1
        invariant
            i <= len + 1,
            len <= 16,
            bytes@ =~= seq![opcode] + Seq::new(i as nat, |k: int| 0u8),
        decreases len + 1 - i,
    {
        bytes.push(0);
        i = i + 1;
    }
    bytes
}

/// The request that reads one register; the value is the last byte of the
/// answer.
pub fn register_request(addr: u16) -> (r: Vec<u8>)
    ensures
        r@ == seq![READ_REGISTER] + octets::be16(addr) + seq![0u8, 0],
{
    let mut bytes: Vec<u8> = Vec::new();
    bytes.push(READ_REGISTER);
    octets::append_be16(&mut bytes, addr);
    bytes.push(0);
    bytes.push(0);
    assert(bytes@ =~= seq![READ_REGISTER] + octets::be16(addr) + seq![0u8, 0]);
    bytes
}

/// The write that sets bits in a register whose value was read.
pub fn register_with_bits(addr: u16, value: u8, mask: u8) -> (r: RadioStep)
    ensures
        r@ == register_write(addr, value | mask),
{
    let mut bytes: Vec<u8> = Vec::new();
    bytes.push(WRITE_REGISTER);
    octets::append_be16(&mut bytes, addr);
    bytes.push(value | mask);
    assert(bytes@ =~= seq![WRITE_REGISTER] + (octets::be16(addr) + seq![value | mask]));
    RadioStep::Write(bytes)
}

/// The request that reads a received packet from the buffer: opcode, offset, a
/// status byte, and room for the packet.
pub fn buffer_request(offset: u8, len: u8) -> (r: Vec<u8>)
    ensures
        r@ == seq![READ_BUFFER, offset] + Seq::new((len + 1) as nat, |i: int| 0u8),
{
    let mut bytes: Vec<u8> = Vec::new();
    bytes.push(READ_BUFFER);
    bytes.push(offset);
    let room: usize = len as usize + 1;
    let mut i: usize = 0;
    assert(bytes@ =~= seq![READ_BUFFER, offset]);
    while i < room
        invariant
            i <= room,
            bytes@ =~= seq![READ_BUFFER, offset] + Seq::new(i as nat, |k: int| 0u8),
        decreases room - i,
    {
        bytes.push(0);
        i = i + 1;
    }
    bytes
}

/// The interrupt status behind the two answer bytes of GetIrqStatus.
pub fn irq_status(high: u8, low: u8) -> (r: u16)
    ensures
        r == octets::from_le16(low, high),
{
    octets::join_be16(high, low)
}

/// The received packet: what the buffer read answered (its first three bytes
/// are no data), and the first two bytes of the packet status.
pub fn received_packet(buffer: &[u8], rssi_byte: u8, snr_byte: u8) -> (r: Result<
    RxPacket,
    LoraError,
>)
    requires
        buffer@.len() >= 3,
    ensures
        match r {
            Ok(packet) => buffer@.len() <= 259 && packet.data@ == buffer@.skip(3) && packet.rssi
                == rssi_of(rssi_byte) && packet.snr == snr_of(snr_byte),
            Err(e) => buffer@.len() > 259 && e == LoraError::ReceiveFailed,
        },
{
    let rssi: i16 = -((rssi_byte / 2) as i16);
    let snr: i8 = if snr_byte < 128 {
        (snr_byte / 4) as i8
    } else {
        -(((256 - snr_byte as u16) / 4) as i8)
    };
    let total: usize = buffer.len();
    assert(buffer@.subrange(3, total as int) =~= buffer@.skip(3));
    match Bytes::from_slice(&buffer[3..total]) {
        Ok(data) => Ok(RxPacket { data, rssi, snr }),
        Err(_) => Err(LoraError::ReceiveFailed),
    }
}

/// The opcode of a step that writes.
pub open spec fn opcode(step: StepSpec) -> Option<u8> {
    match step {
        StepSpec::Write(bytes) => Some(bytes[0]),
        _ => None,
    }
}

/// Where a list of steps first writes a command.
pub open spec fn writes_at(steps: Seq<StepSpec>, op: u8, at: int) -> bool {
    0 <= at < steps.len() && opcode(steps[at]) == Some(op)
}

/// Initialisation keeps the order that the chip needs: standby before the
/// regulator, the TCXO before calibration, calibration before errors are
/// cleared, the frequency before the image calibration, and the PA before the
/// over-current limit that it resets.
pub proof fn init_order()
    ensures
        writes_at(init_steps(), SET_STANDBY, 2),
        writes_at(init_steps(), SET_REGULATOR_MODE, 3),
        writes_at(init_steps(), SET_DIO3_AS_TCXO_CTRL, 4),
        writes_at(init_steps(), CALIBRATE, 6),
        writes_at(init_steps(), CLEAR_DEVICE_ERRORS, 9),
        init_steps()[10] == StepSpec::SetBits(TX_CLAMP_CONFIG, 0x1E),
        writes_at(init_steps(), SET_RF_FREQUENCY, 15),
        writes_at(init_steps(), CALIBRATE_IMAGE, 16),
        writes_at(init_steps(), SET_MODULATION_PARAMS, 17),
        writes_at(init_steps(), SET_PA_CONFIG, 20),
        init_steps()[21] == register_write(OCP_CONFIGURATION, 56),
        writes_at(init_steps(), SET_RX, 27),
        init_steps().len() == 28,
{
}

/// Whatever the configuration, the over-current limit follows SetPaConfig and
/// the image calibration follows the frequency that it is for.
pub proof fn configure_order(c: LoraConfig)
    ensures
        writes_at(configure_steps(c), SET_STANDBY, 0),
        writes_at(configure_steps(c), SET_RF_FREQUENCY, 1),
        writes_at(configure_steps(c), CALIBRATE_IMAGE, 2),
        writes_at(configure_steps(c), SET_PA_CONFIG, 6),
        configure_steps(c)[7] == register_write(OCP_CONFIGURATION, 56),
{
}

/// A packet that reaches SetTx went out with its own length: the length field
/// of the packet parameters is the length of the payload.
pub proof fn transmitted_length_survives(state: RadioSpec, data: Seq<u8>)
    requires
        transmit_error(state, data.len()) is None,
    ensures
        prepare_steps(state.active(), data)[1] matches StepSpec::Write(bytes) && bytes[4]
            == data.len(),
        prepare_steps(state.active(), data)[2] == StepSpec::Write(
            seq![WRITE_BUFFER, 0x00] + data,
        ),
{
}

/// The packet parameters say how a packet looks on the air: command 0x8C with
/// the preamble length in two bytes, an explicit header, the payload length, a
/// one exactly if there is a checksum, and a one exactly if the polarity is
/// inverted. Reception is armed with them for the longest packet, and a
/// transmission for its own.
pub proof fn packet_parameters_follow_the_configuration(c: LoraConfig, data: Seq<u8>)
    ensures
        receive_steps(c)[1] matches StepSpec::Write(b) && {
            &&& b.len() == 7
            &&& b[0] == 0x8C
            &&& 256 * b[1] + b[2] == c.preamble_len
            &&& b[3] == 0
            &&& b[4] == 255
            &&& b[5] <= 1 && (b[5] == 1 <==> c.crc_on)
            &&& b[6] <= 1 && (b[6] == 1 <==> c.iq_inverted)
        },
        data.len() <= 255 ==> (prepare_steps(c, data)[1] matches StepSpec::Write(b) && {
            &&& b.len() == 7
            &&& b[0] == 0x8C
            &&& 256 * b[1] + b[2] == c.preamble_len
            &&& b[3] == 0
            &&& b[4] == data.len()
            &&& b[5] <= 1 && (b[5] == 1 <==> c.crc_on)
            &&& b[6] <= 1 && (b[6] == 1 <==> c.iq_inverted)
        }),
{
}

/// The modulation is that of the configuration: command 0x8B with the spreading
/// factor, the code of the bandwidth, four less than the denominator of the
/// coding rate (4/5 for an unknown one), and a one exactly if a symbol takes
/// 16.38 ms or longer.
pub proof fn modulation_follows_the_configuration(c: LoraConfig)
    ensures
        configure_steps(c)[3] matches StepSpec::Write(b) && {
            &&& b.len() == 5
            &&& b[0] == 0x8B
            &&& b[1] == c.spreading_factor
            &&& calibration::hz_of_label(c.bandwidth_khz as int) == hz_of_code(b[2])
            &&& b[2] <= 10
            &&& 5 <= c.coding_rate <= 8 ==> b[3] == c.coding_rate - 4
            &&& !(5 <= c.coding_rate <= 8) ==> b[3] == 1
            &&& b[4] <= 1
            &&& 7 <= c.spreading_factor <= 12 ==> (b[4] == 1 <==> calibration::symbol_us(
                c.spreading_factor as int,
                c.bandwidth_khz as int,
            ) >= 16_380)
        },
{
}

/// The bandwidth in Hz behind a bandwidth code of the datasheet.
pub open spec fn hz_of_code(code: u8) -> int {
    match code {
        0x00 => 7_800,
        0x08 => 10_400,
        0x01 => 15_600,
        0x09 => 20_800,
        0x02 => 31_250,
        0x0A => 41_700,
        0x03 => 62_500,
        0x04 => 125_000,
        0x05 => 250_000,
        0x06 => 500_000,
        _ => 0,
    }
}

/// The carrier is set to the configured frequency: command 0x86 with a 32-bit
/// number of steps of 32 MHz over 2^25, the last at or below the frequency.
pub proof fn carrier_follows_the_configuration(c: LoraConfig)
    requires
        c.frequency_hz < 4_000_000_000,
    ensures
        configure_steps(c)[1] matches StepSpec::Write(b) && {
            let steps = 16_777_216 * b[1] + 65_536 * b[2] + 256 * b[3] + b[4];
            &&& b.len() == 5
            &&& b[0] == 0x86
            &&& steps * 32_000_000 <= c.frequency_hz * 33_554_432 < (steps + 1) * 32_000_000
        },
{
    let scaled = c.frequency_hz * 33_554_432;
    let register = scaled / 32_000_000;
    assert(register * 32_000_000 <= scaled < (register + 1) * 32_000_000);
    assert(register < 0x1_0000_0000);
    assert(frequency_register(c.frequency_hz as int) == register);
}

/// The image is calibrated for the band of the frequency that was set.
pub proof fn image_follows_the_carrier(c: LoraConfig)
    ensures
        configure_steps(c)[2] matches StepSpec::Write(b) && {
            &&& b.len() == 3
            &&& b[0] == 0x98
            &&& 863_000_000 <= c.frequency_hz <= 870_000_000 ==> b[1] == 0xD7 && b[2] == 0xDB
            &&& 430_000_000 <= c.frequency_hz <= 440_000_000 ==> b[1] == 0x6B && b[2] == 0x6F
            &&& 902_000_000 <= c.frequency_hz <= 928_000_000 ==> b[1] == 0xE1 && b[2] == 0xE9
        },
{
}

/// The network is the configured one: registers 0x0740 and 0x0741 hold 0x3444
/// for a public network and 0x1424 for a private one.
pub proof fn network_follows_the_configuration(c: LoraConfig)
    ensures
        configure_steps(c)[4] matches StepSpec::Write(b) && b.len() == 4 && b[0] == 0x0D && b[1]
            == 0x07 && b[2] == 0x40 && b[3] == (if c.sync_word == crate::lora::traits::SyncWord::Public {
            0x34u8
        } else {
            0x14
        }),
        configure_steps(c)[5] matches StepSpec::Write(b) && b.len() == 4 && b[0] == 0x0D && b[1]
            == 0x07 && b[2] == 0x41 && b[3] == (if c.sync_word == crate::lora::traits::SyncWord::Public {
            0x44u8
        } else {
            0x24
        }),
{
}

/// The power is the configured one, in two's complement, with a ramp of 200 us,
/// through the high power amplifier and with 140 mA as the limit: these are
/// command 0x95, a write of 56 steps of 2.5 mA to register 0x08E7, and command
/// 0x8E, in this order.
pub proof fn power_follows_the_configuration(c: LoraConfig)
    ensures
        configure_steps(c)[6] == StepSpec::Write(seq![0x95u8, 0x04, 0x07, 0x00, 0x01]),
        configure_steps(c)[7] == StepSpec::Write(seq![0x0Du8, 0x08, 0xE7, 56]),
        configure_steps(c)[8] matches StepSpec::Write(b) && {
            &&& b.len() == 3
            &&& b[0] == 0x8E
            &&& (if b[1] < 128 {
                b[1] as int
            } else {
                b[1] - 256
            }) == c.tx_power_dbm
            &&& b[2] == 0x04
        },
        configure_steps(c).len() == 9,
{
    let pa = seq![0x95u8] + seq![0x04u8, 0x07, 0x00, 0x01];
    assert(pa =~= seq![0x95u8, 0x04, 0x07, 0x00, 0x01]);
    assert(seq![0x0Du8] + (octets::be16(0x08E7) + seq![56u8]) =~= seq![0x0Du8, 0x08, 0xE7, 56]);
}

/// Reception goes on without a timeout until packet, checksum error or timeout
/// interrupt on DIO1, with old interrupts cleared: standby, packet parameters,
/// interrupts 0x0242, clear all, and command 0x82.
pub proof fn reception_is_continuous(c: LoraConfig)
    ensures
        receive_steps(c).len() == 5,
        receive_steps(c)[0] == StepSpec::Write(seq![0x80u8, 0x00]),
        receive_steps(c)[2] == StepSpec::Write(seq![0x08u8, 0x02, 0x42, 0x02, 0x42, 0, 0, 0, 0]),
        receive_steps(c)[3] == StepSpec::Write(seq![0x02u8, 0xFF, 0xFF]),
        receive_steps(c)[4] == StepSpec::Write(seq![0x82u8, 0xFF, 0xFF, 0xFF]),
{
    assert(seq![0x80u8] + seq![0x00u8] =~= seq![0x80u8, 0x00]);
    assert(seq![0x08u8] + (octets::be16(0x0242) + octets::be16(0x0242) + seq![0u8, 0, 0, 0]) =~= seq![
        0x08u8,
        0x02,
        0x42,
        0x02,
        0x42,
        0,
        0,
        0,
        0,
    ]);
    assert(seq![0x02u8] + octets::be16(0xFFFF) =~= seq![0x02u8, 0xFF, 0xFF]);
    assert(seq![0x82u8] + seq![0xFFu8, 0xFF, 0xFF] =~= seq![0x82u8, 0xFF, 0xFF, 0xFF]);
}

/// A packet is staged in the radio's buffer from offset zero, and sent by
/// command 0x83 without a timeout; the radio then reports the end on DIO1.
pub proof fn packets_are_staged_and_fired(c: LoraConfig, data: Seq<u8>)
    ensures
        prepare_steps(c, data).len() == 5,
        prepare_steps(c, data)[0] == StepSpec::Write(seq![0x80u8, 0x00]),
        prepare_steps(c, data)[2] matches StepSpec::Write(b) && b.len() == data.len() + 2 && b[0]
            == 0x0E && b[1] == 0 && b.skip(2) == data,
        prepare_steps(c, data)[3] == StepSpec::Write(
            seq![0x08u8, 0x00, 0x01, 0x00, 0x01, 0, 0, 0, 0],
        ),
        prepare_steps(c, data)[4] == StepSpec::Write(seq![0x02u8, 0xFF, 0xFF]),
        fire_step() == StepSpec::Write(seq![0x83u8, 0x00, 0x00, 0x00]),
{
    assert(seq![0x80u8] + seq![0x00u8] =~= seq![0x80u8, 0x00]);
    assert((seq![0x0Eu8, 0x00u8] + data).skip(2) =~= data);
    assert(seq![0x08u8] + (octets::be16(0x0001) + octets::be16(0x0001) + seq![0u8, 0, 0, 0]) =~= seq![
        0x08u8,
        0x00,
        0x01,
        0x00,
        0x01,
        0,
        0,
        0,
        0,
    ]);
    assert(seq![0x02u8] + octets::be16(0xFFFF) =~= seq![0x02u8, 0xFF, 0xFF]);
    assert(seq![0x83u8] + seq![0x00u8, 0x00, 0x00] =~= seq![0x83u8, 0x00, 0x00, 0x00]);
}

/// Bring-up: reset, standby, the DC-DC regulator, the TCXO at 1.8 V with 5 ms to
/// start, all calibrations once it runs, the start-up error cleared, the PA
/// clamp, DIO2 as RF switch, LoRa packets, and one buffer for both directions.
/// The default configuration and reception follow.
pub proof fn bring_up_commands()
    ensures
        init_steps().len() == 28,
        init_steps()[0] == StepSpec::Reset,
        init_steps()[1] == StepSpec::WaitReady,
        init_steps()[2] == StepSpec::Write(seq![0x80u8, 0x00]),
        init_steps()[3] == StepSpec::Write(seq![0x96u8, 0x01]),
        init_steps()[4] == StepSpec::Write(seq![0x97u8, 0x02, 0x00, 0x01, 0x40]),
        init_steps()[5] == StepSpec::PauseMs(10),
        init_steps()[6] == StepSpec::Write(seq![0x89u8, 0x7F]),
        init_steps()[7] == StepSpec::PauseMs(5),
        init_steps()[8] == StepSpec::WaitReady,
        init_steps()[9] == StepSpec::Write(seq![0x07u8, 0x00, 0x00]),
        init_steps()[10] == StepSpec::SetBits(0x08D8, 0x1E),
        init_steps()[11] == StepSpec::Write(seq![0x9Du8, 0x01]),
        init_steps()[12] == StepSpec::Write(seq![0x8Au8, 0x01]),
        init_steps()[13] == StepSpec::Write(seq![0x8Fu8, 0x00, 0x00]),
        init_steps().subrange(14, 23) == configure_steps(LoraConfig::standard()),
        init_steps().subrange(23, 28) == receive_steps(LoraConfig::standard()),
{
    assert(seq![0x80u8] + seq![0x00u8] =~= seq![0x80u8, 0x00]);
    assert(seq![0x96u8] + seq![0x01u8] =~= seq![0x96u8, 0x01]);
    assert(seq![0x97u8] + seq![0x02u8, 0x00, 0x01, 0x40] =~= seq![0x97u8, 0x02, 0x00, 0x01, 0x40]);
    assert(seq![0x89u8] + seq![0x7Fu8] =~= seq![0x89u8, 0x7F]);
    assert(seq![0x07u8] + seq![0x00u8, 0x00] =~= seq![0x07u8, 0x00, 0x00]);
    assert(seq![0x9Du8] + seq![0x01u8] =~= seq![0x9Du8, 0x01]);
    assert(seq![0x8Au8] + seq![0x01u8] =~= seq![0x8Au8, 0x01]);
    assert(seq![0x8Fu8] + seq![0x00u8, 0x00] =~= seq![0x8Fu8, 0x00, 0x00]);
    assert(init_steps().subrange(14, 23) =~= configure_steps(LoraConfig::standard()));
    assert(init_steps().subrange(23, 28) =~= receive_steps(LoraConfig::standard()));
}

/// Packets are sent and received with the configuration that was applied last,
/// and with the default one where none was.
pub proof fn last_configuration_is_active(state: RadioSpec, c: LoraConfig)
    ensures
        (RadioSpec { config: Some(c), ..state }).active() == c,
        (RadioSpec { config: None, ..state }).active() == LoraConfig::standard(),
        state.idle().config == state.config,
        state.idle().initialised == state.initialised,
        !state.idle().in_continuous_rx,
{
}

/// A packet is refused exactly if the radio is not up or the packet is empty or
/// has more than 255 bytes, and the two are told apart.
pub proof fn only_impossible_packets_are_refused(state: RadioSpec, len: nat)
    ensures
        transmit_error(state, len) is None <==> state.initialised && 1 <= len <= 255,
        transmit_error(state, len) == Some(LoraError::NotInitialised) <==> !state.initialised,
        transmit_error(state, len) == Some(LoraError::InvalidConfig) <==> state.initialised && !(1
            <= len <= 255),
{
}

/// The interrupt bits of the datasheet: bit 0 for the end of a transmission, bit
/// 1 for a packet, bit 6 for a wrong checksum.
pub proof fn interrupt_bits(irq_status: u16)
    ensures
        raised(irq_status, IRQ_TX_DONE) <==> irq_status % 2 == 1,
        raised(irq_status, IRQ_RX_DONE) <==> irq_status % 4 >= 2,
        raised(irq_status, IRQ_CRC_ERR) <==> irq_status % 128 >= 64,
{
}

/// The signal strength is minus half the status byte, and the signal to noise
/// ratio a quarter of it in two's complement, both cut towards zero.
pub proof fn signal_bytes(byte: u8)
    ensures
        -2 * rssi_of(byte) <= byte < -2 * rssi_of(byte) + 2,
        byte < 128 ==> 4 * snr_of(byte) <= byte < 4 * snr_of(byte) + 4,
        byte >= 128 ==> 4 * snr_of(byte) - 4 < byte - 256 <= 4 * snr_of(byte),
{
}

/// A transmission went well exactly if bit 0 of the interrupts says so. A packet with
/// bit 6 set has a wrong checksum, whatever else is set; without it, bit 1 says that one
/// came.
pub proof fn interrupts_are_judged(
    status: u16,
    tx: Result<(), LoraError>,
    rx: Result<(), LoraError>,
    high: u8,
    low: u8,
    joined: u16,
)
    requires
        call_ensures(tx_outcome, (status,), tx),
        call_ensures(rx_outcome, (status,), rx),
        call_ensures(irq_status, (high, low), joined),
    ensures
        tx is Ok <==> status % 2 == 1,
        tx is Err ==> tx->Err_0 == LoraError::TransmitFailed,
        rx is Ok <==> status % 128 < 64 && status % 4 >= 2,
        status % 128 >= 64 ==> rx == Err::<(), LoraError>(LoraError::CrcError),
        status % 128 < 64 && status % 4 < 2 ==> rx == Err::<(), LoraError>(
            LoraError::ReceiveFailed,
        ),
        joined == 256 * high + low,
{
    interrupt_bits(status);
}

/// A packet is what stands behind the three bytes that the command and its status take,
/// with the signal of its two status bytes; more than 256 bytes are no packet.
pub proof fn packets_are_unpacked(
    buffer: &[u8],
    rssi_byte: u8,
    snr_byte: u8,
    r: Result<RxPacket, LoraError>,
)
    requires
        buffer@.len() >= 3,
        call_ensures(received_packet, (buffer, rssi_byte, snr_byte), r),
    ensures
        r is Ok <==> buffer@.len() <= 259,
        r matches Ok(packet) ==> packet.data@ == buffer@.skip(3) && -2 * packet.rssi <= rssi_byte
            < -2 * packet.rssi + 2 && (snr_byte < 128 ==> 4 * packet.snr <= snr_byte < 4
            * packet.snr + 4) && (snr_byte >= 128 ==> 4 * packet.snr - 4 < snr_byte - 256 <= 4
            * packet.snr),
        r is Err ==> r->Err_0 == LoraError::ReceiveFailed,
{
    signal_bytes(rssi_byte);
    signal_bytes(snr_byte);
}

/// Reading takes the command, its arguments and as many zeros as the answer needs, with
/// one more for the status: a status, a register by command 0x1D with the high byte of
/// its address first, and a piece of the buffer by command 0x1E. Bits are set in a
/// register by writing it back by command 0x0D.
pub proof fn readings_are_laid_out(
    opcode: u8,
    n: usize,
    status: Vec<u8>,
    addr: u16,
    register: Vec<u8>,
    offset: u8,
    len: u8,
    buffer: Vec<u8>,
    value: u8,
    mask: u8,
    write: RadioStep,
)
    requires
        n <= 16,
        call_ensures(status_request, (opcode, n), status),
        call_ensures(register_request, (addr,), register),
        call_ensures(buffer_request, (offset, len), buffer),
        call_ensures(register_with_bits, (addr, value, mask), write),
    ensures
        status@.len() == n + 2 && status@[0] == opcode,
        forall|i: int| 1 <= i < n + 2 ==> #[trigger] status@[i] == 0,
        register@.len() == 5 && register@[0] == 0x1D && 256 * register@[1] + register@[2] == addr,
        register@[3] == 0 && register@[4] == 0,
        buffer@.len() == len + 3 && buffer@[0] == 0x1E && buffer@[1] == offset,
        forall|i: int| 2 <= i < len + 3 ==> #[trigger] buffer@[i] == 0,
        write@ matches StepSpec::Write(b) && b.len() == 4 && b[0] == 0x0D && 256 * b[1] + b[2]
            == addr && b[3] == value | mask,
{
}

/// The radio is up, receiving and configured after bring-up; a configuration that was
/// applied is the active one; reception that was armed goes on until something ends it.
pub proof fn radio_states_follow_the_driver(
    started: &mut RadioState,
    configured: &mut RadioState,
    config: &LoraConfig,
    armed: &mut RadioState,
)
    requires
        call_ensures(RadioState::finish_init, (started,), ()),
        call_ensures(RadioState::finish_configure, (configured, config), ()),
        call_ensures(RadioState::finish_arm, (armed,), ()),
    ensures
        final(started)@.initialised && final(started)@.in_continuous_rx,
        final(started)@.active() == LoraConfig::standard(),
        final(configured)@.active() == *config,
        final(configured)@.initialised == old(configured)@.initialised,
        final(configured)@.in_continuous_rx == old(configured)@.in_continuous_rx,
        final(armed)@.in_continuous_rx,
        final(armed)@.initialised == old(armed)@.initialised,
        final(armed)@.active() == old(armed)@.active(),
{
}

/// A radio that is up sends a packet of 1 to 255 bytes with the active configuration, by
/// staging and then firing it, and then no longer receives.
pub proof fn packets_go_out_as_configured(
    radio: &mut RadioState,
    data: &[u8],
    r: Result<Vec<RadioStep>, LoraError>,
)
    requires
        call_ensures(RadioState::begin_transmit, (radio, data), r),
    ensures
        r is Ok <==> old(radio)@.initialised && 1 <= data@.len() <= 255,
        r matches Ok(steps) ==> {
            let staged = prepare_steps(old(radio)@.active(), data@);
            &&& done(steps@).len() == 6
            &&& done(steps@).take(5) == staged
            &&& done(steps@)[5] == StepSpec::Write(seq![0x83u8, 0, 0, 0])
            &&& !final(radio)@.in_continuous_rx
        },
        r is Err ==> final(radio)@ == old(radio)@,
        final(radio)@.active() == old(radio)@.active(),
{
    packets_are_staged_and_fired(old(radio)@.active(), data@);
    if r is Ok {
        let staged = prepare_steps(old(radio)@.active(), data@);
        assert(staged.push(fire_step()).take(5) =~= staged);
    }
}

/// A radio that is up and not yet receiving is told to receive with the active
/// configuration; one that receives is left alone, and one that is not up refuses.
pub proof fn reception_is_armed_once(radio: &mut RadioState, r: Result<Vec<RadioStep>, LoraError>)
    requires
        call_ensures(RadioState::begin_arm, (radio,), r),
    ensures
        !old(radio)@.initialised ==> r is Err && r->Err_0 == LoraError::NotInitialised,
        old(radio)@.initialised && old(radio)@.in_continuous_rx ==> r is Ok && done(
            r->Ok_0@,
        ).len() == 0,
        old(radio)@.initialised && !old(radio)@.in_continuous_rx ==> r is Ok && done(r->Ok_0@)
            == receive_steps(old(radio)@.active()),
        final(radio)@.active() == old(radio)@.active(),
{
}

} // verus!
