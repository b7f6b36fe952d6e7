//! The host end of the wire protocol: frames for any command, any response.
use crate::hub_protocol::codec;
use crate::hub_protocol::types::{CommandSpec, GatewaySpec, MqttSpec, WifiSpec};
use crate::octets;
use crate::wire;
use crate::wire::{FRAME_OVERHEAD, PROTOCOL_VERSION};
use crate::wt::CommandId;
use vstd::prelude::*;

pub use crate::hub_protocol::types::HubCommandId;
pub use crate::wt::ResponseStatus;

verus! {

/// Link state of a HubStatus payload: no configuration stored.
pub const UNPROVISIONED: u8 = 0;

/// Link state of a HubStatus payload: an attempt is under way.
pub const CONNECTING: u8 = 1;

/// Link state of a HubStatus payload: the link is up.
pub const CONNECTED: u8 = 2;

/// Link state of a HubStatus payload: the link is down.
pub const DISCONNECTED: u8 = 3;

/// Length of a HubStatus payload.
pub const HUB_STATUS_LEN: usize = 22;

/// Why a response could not be read.
#[derive(Debug, Clone, Copy, PartialEq, Eq, Structural)]
pub enum HostError {
    /// The response is shorter than an empty frame.
    TooShort {
        /// Its length.
        len: usize,
    },
    /// The response ends before its payload and checksum do.
    Incomplete {
        /// The length that its header asks for.
        expected: usize,
        /// Its length.
        got: usize,
    },
    /// The checksum does not match.
    CrcMismatch {
        /// The checksum of the data.
        calculated: u16,
        /// The checksum in the response.
        received: u16,
    },
    /// The protocol version is another one.
    VersionMismatch {
        /// The version in the response.
        version: u8,
    },
    /// No response has this id.
    UnknownId(u8),
    /// A HubStatus payload has the wrong length.
    StatusLength {
        /// Its length.
        len: usize,
    },
    /// The data ends before a frame delimiter is reached.
    Truncated,
}

/// Response IDs (stock plus the hub block).
#[derive(Debug, Clone, Copy, PartialEq, Eq, Structural)]
pub enum ResponseId {
    /// Firmware version.
    Version,
    /// A packet was transmitted.
    TxComplete,
    /// A packet was received.
    RxPacket,
    /// The radio configuration.
    RadioConfig,
    /// A packet was refused by the duty cycle budget.
    TxRefused,
    /// The hub's network configuration.
    NetworkConfig,
    /// The hub's live status.
    HubStatus,
    /// The outcome of a set or clear command.
    ConfigAck,
    /// A command failed.
    Error,
}

impl ResponseId {
    /// The id on the wire.
    pub open spec fn byte(self) -> u8 {
        match self {
            ResponseId::Version => 0x01,
            ResponseId::TxComplete => 0x10,
            ResponseId::RxPacket => 0x11,
            ResponseId::RadioConfig => 0x12,
            ResponseId::TxRefused => 0x13,
            ResponseId::NetworkConfig => 0x20,
            ResponseId::HubStatus => 0x21,
            ResponseId::ConfigAck => 0x22,
            ResponseId::Error => 0xFF,
        }
    }

    /// The response id behind a byte, if there is one.
    pub open spec fn of_byte(value: u8) -> Option<ResponseId> {
        if value == 0x01 {
            Some(ResponseId::Version)
        } else if value == 0x10 {
            Some(ResponseId::TxComplete)
        } else if value == 0x11 {
            Some(ResponseId::RxPacket)
        } else if value == 0x12 {
            Some(ResponseId::RadioConfig)
        } else if value == 0x13 {
            Some(ResponseId::TxRefused)
        } else if value == 0x20 {
            Some(ResponseId::NetworkConfig)
        } else if value == 0x21 {
            Some(ResponseId::HubStatus)
        } else if value == 0x22 {
            Some(ResponseId::ConfigAck)
        } else if value == 0xFF {
            Some(ResponseId::Error)
        } else {
            None
        }
    }

    /// The response id behind a byte; the byte itself where there is none.
    pub fn try_from(value: u8) -> (r: Result<Self, u8>)
        ensures
            match r {
                Ok(id) => id.byte() == value && Self::of_byte(value) == Some(id),
                Err(back) => back == value && Self::of_byte(value) is None && forall|id: Self|
                    id.byte() != value,
            },
    {
        match value {
            0x01 => Ok(ResponseId::Version),
            0x10 => Ok(ResponseId::TxComplete),
            0x11 => Ok(ResponseId::RxPacket),
            0x12 => Ok(ResponseId::RadioConfig),
            0x13 => Ok(ResponseId::TxRefused),
            0x20 => Ok(ResponseId::NetworkConfig),
            0x21 => Ok(ResponseId::HubStatus),
            0x22 => Ok(ResponseId::ConfigAck),
            0xFF => Ok(ResponseId::Error),
            _ => Err(value),
        }
    }
}

/// Build a command frame (without COBS encoding).
/// Format: [version: u8][cmd_id: u8][length: u16 LE][payload][crc16: u16 LE]
pub fn build_command_payload(cmd_id: u8, payload: &[u8]) -> (r: Vec<u8>)
    ensures
        r@ == wire::raw_frame(cmd_id, payload@),
        r@.len() == payload@.len() + FRAME_OVERHEAD,
{
    wire::build_raw(cmd_id, payload)
}

/// COBS encode, with the zero delimiter.
pub fn cobs_encode(data: &[u8]) -> (r: Vec<u8>)
    requires
        wire::max_cobs_len(data@.len() as int) <= isize::MAX,
    ensures
        r@ == wire::cobs_encoded(data@),
        wire::cobs_decoded(r@) == Some(data@),
{
    wire::cobs_encode(data)
}

/// COBS decode a frame up to its zero delimiter.
pub fn cobs_decode(data: &[u8]) -> (r: Result<Vec<u8>, HostError>)
    ensures
        match r {
            Ok(decoded) => wire::cobs_decoded(data@) == Some(decoded@),
            Err(e) => wire::cobs_decoded(data@) is None && e == HostError::Truncated,
        },
{
    match wire::cobs_decode(data) {
        Some(decoded) => Ok(decoded),
        None => Err(HostError::Truncated),
    }
}

/// Build a complete COBS-encoded command frame.
pub fn build_command(cmd_id: CommandId, payload: &[u8]) -> (r: Vec<u8>)
    requires
        wire::max_cobs_len(payload@.len() + FRAME_OVERHEAD) <= isize::MAX,
    ensures
        r@ == wire::cobs_encoded(wire::raw_frame(cmd_id.byte(), payload@)),
        wire::cobs_decoded(r@) == Some(wire::raw_frame(cmd_id.byte(), payload@)),
{
    let raw: Vec<u8> = build_command_payload(cmd_id.to_byte(), payload);
    cobs_encode(raw.as_slice())
}

/// A text as a payload field: the low byte of its length, then its bytes.
pub open spec fn string_field(text: Seq<char>) -> Seq<u8> {
    seq![(octets::utf8(text).len() % 256) as u8] + octets::utf8(text)
}

fn push_string(payload: &mut Vec<u8>, text: &str)
    ensures
        final(payload)@ == old(payload)@ + string_field(text@),
{
    let ghost before = payload@;
    let len: usize = text.as_bytes().len();
    payload.push((len % 256) as u8);
    octets::append_text(payload, text);
    assert(payload@ =~= before + string_field(text@));
}

/// Payload of a SetWifiConfig command. Strings are one-byte length prefixed,
/// integers little-endian.
pub fn wifi_config_payload(ssid: &str, password: &str) -> (r: Vec<u8>)
    ensures
        r@ == string_field(ssid@) + string_field(password@),
{
    let mut payload: Vec<u8> = Vec::new();
    push_string(&mut payload, ssid);
    push_string(&mut payload, password);
    assert(payload@ =~= string_field(ssid@) + string_field(password@));
    payload
}

/// Payload of a SetMqttConfig command.
pub fn mqtt_config_payload(host: &str, port: u16, client_id: &str) -> (r: Vec<u8>)
    ensures
        r@ == octets::le16(port) + string_field(host@) + string_field(client_id@),
{
    let mut payload: Vec<u8> = Vec::new();
    octets::append_le16(&mut payload, port);
    push_string(&mut payload, host);
    push_string(&mut payload, client_id);
    assert(payload@ =~= octets::le16(port) + string_field(host@) + string_field(client_id@));
    payload
}

/// Payload of a SetGatewayConfig command.
pub fn gateway_config_payload(
    freq_hz: u32,
    spreading_factor: u8,
    bandwidth_khz: u32,
    coding_rate: u8,
    host: &str,
    port: u16,
) -> (r: Vec<u8>)
    ensures
        r@ == octets::le32(freq_hz) + seq![spreading_factor] + octets::le32(bandwidth_khz) + seq![
            coding_rate,
        ] + octets::le16(port) + string_field(host@),
{
    let mut payload: Vec<u8> = Vec::new();
    octets::append_le32(&mut payload, freq_hz);
    payload.push(spreading_factor);
    octets::append_le32(&mut payload, bandwidth_khz);
    payload.push(coding_rate);
    octets::append_le16(&mut payload, port);
    push_string(&mut payload, host);
    assert(payload@ =~= octets::le32(freq_hz) + seq![spreading_factor] + octets::le32(bandwidth_khz)
        + seq![coding_rate] + octets::le16(port) + string_field(host@));
    payload
}

/// Parsed HubStatus response payload.
#[derive(Debug, Clone, Copy)]
pub struct HubStatus {
    /// State of the WiFi link.
    pub wifi_state: u8,
    /// Station IPv4 address.
    pub ip: [u8; 4],
    /// State of the MQTT session.
    pub mqtt_state: u8,
    /// Uplinks.
    pub uplink_count: u32,
    /// Downlinks.
    pub downlink_count: u32,
    /// Dropped messages.
    pub dropped_count: u32,
    /// Seconds since boot.
    pub uptime_secs: u32,
}

/// The 32-bit number at `at`, low byte first.
pub open spec fn word_at(payload: Seq<u8>, at: int) -> u32 {
    octets::from_le32(payload[at], payload[at + 1], payload[at + 2], payload[at + 3])
}

/// Reads the payload of a HubStatus response, which is 22 bytes long.
pub fn parse_hub_status(payload: &[u8]) -> (r: Result<HubStatus, HostError>)
    ensures
        match r {
            Ok(status) => {
                &&& payload@.len() == HUB_STATUS_LEN
                &&& status.wifi_state == payload@[0]
                &&& status.ip@ == payload@.subrange(1, 5)
                &&& status.mqtt_state == payload@[5]
                &&& status.uplink_count == word_at(payload@, 6)
                &&& status.downlink_count == word_at(payload@, 10)
                &&& status.dropped_count == word_at(payload@, 14)
                &&& status.uptime_secs == word_at(payload@, 18)
            },
            Err(e) => payload@.len() != HUB_STATUS_LEN && e == (HostError::StatusLength {
                len: payload@.len() as usize,
            }),
        },
{
    if payload.len() != HUB_STATUS_LEN {
        return Err(HostError::StatusLength { len: payload.len() });
    }
    let ip: [u8; 4] = [payload[1], payload[2], payload[3], payload[4]];
    assert(ip@ =~= payload@.subrange(1, 5));
    Ok(
        HubStatus {
            wifi_state: payload[0],
            ip,
            mqtt_state: payload[5],
            uplink_count: octets::join_le32(payload[6], payload[7], payload[8], payload[9]),
            downlink_count: octets::join_le32(payload[10], payload[11], payload[12], payload[13]),
            dropped_count: octets::join_le32(payload[14], payload[15], payload[16], payload[17]),
            uptime_secs: octets::join_le32(payload[18], payload[19], payload[20], payload[21]),
        },
    )
}

/// Parsed response from the device.
#[derive(Debug)]
pub struct Response {
    /// Protocol version.
    pub version: u8,
    /// What the response is.
    pub resp_id: ResponseId,
    /// Its payload.
    pub payload: Vec<u8>,
}

/// What is wrong with a response, in the order in which it is looked at:
/// length, checksum, version, id.
pub open spec fn response_error(data: Seq<u8>) -> Option<HostError> {
    let n = wire::frame_length(data);
    if data.len() < FRAME_OVERHEAD {
        Some(HostError::TooShort { len: data.len() as usize })
    } else if data.len() < n + FRAME_OVERHEAD {
        Some(
            HostError::Incomplete {
                expected: (n + FRAME_OVERHEAD) as usize,
                got: data.len() as usize,
            },
        )
    } else if wire::crc16_xmodem(data.take(4 + n)) != wire::frame_crc(data) {
        Some(
            HostError::CrcMismatch {
                calculated: wire::crc16_xmodem(data.take(4 + n)),
                received: wire::frame_crc(data),
            },
        )
    } else if data[0] != PROTOCOL_VERSION {
        Some(HostError::VersionMismatch { version: data[0] })
    } else if ResponseId::of_byte(data[1]) is None {
        Some(HostError::UnknownId(data[1]))
    } else {
        None
    }
}

/// Parse a COBS-decoded response.
/// Format: [version: u8][resp_id: u8][length: u16 LE][payload][crc: u16 LE]
pub fn parse_response(data: &[u8]) -> (r: Result<Response, HostError>)
    ensures
        match r {
            Ok(response) => {
                &&& response_error(data@) is None
                &&& response.version == PROTOCOL_VERSION
                &&& Some(response.resp_id) == ResponseId::of_byte(data@[1])
                &&& response.payload@ == data@.subrange(4, 4 + wire::frame_length(data@))
            },
            Err(e) => response_error(data@) == Some(e),
        },
{
    if data.len() < 6 {
        return Err(HostError::TooShort { len: data.len() });
    }
    let version: u8 = data[0];
    let length: usize = octets::join_le16(data[2], data[3]) as usize;
    if data.len() < 4 + length + 2 {
        return Err(HostError::Incomplete { expected: 4 + length + 2, got: data.len() });
    }
    let payload: Vec<u8> = octets::part(data, 4, 4 + length);
    let received_crc: u16 = octets::join_le16(data[4 + length], data[4 + length + 1]);
    // The checksum covers version, id, length and payload.
    assert(data@.subrange(0, 4 + length) =~= data@.take(4 + length));
    let calculated_crc: u16 = wire::crc16(&data[0..4 + length]);
    if calculated_crc != received_crc {
        return Err(HostError::CrcMismatch { calculated: calculated_crc, received: received_crc });
    }
    if version != PROTOCOL_VERSION {
        return Err(HostError::VersionMismatch { version });
    }
    match ResponseId::try_from(data[1]) {
        Ok(resp_id) => Ok(Response { version, resp_id, payload }),
        Err(id) => Err(HostError::UnknownId(id)),
    }
}

/// A text that fits one length byte is the same field in both codecs.
proof fn lemma_string_field(text: Seq<char>)
    requires
        octets::utf8(text).len() <= 255,
    ensures
        string_field(text) == codec::text_field(text),
{
}

/// Fields in a row, however they are bracketed.
proof fn lemma_six_in_a_row(
    a: Seq<u8>,
    b: Seq<u8>,
    c: Seq<u8>,
    d: Seq<u8>,
    e: Seq<u8>,
    f: Seq<u8>,
)
    ensures
        a + b + c + d + e + f == (a + (b + (c + (d + e)))) + f,
{
    assert(a + b + c + d + e + f =~= (a + (b + (c + (d + e)))) + f);
}

/// The WiFi payload builder writes the layout that the device reads.
pub proof fn wifi_payload_matches_the_hub_codec(wifi: WifiSpec)
    requires
        wifi.fits(),
    ensures
        string_field(wifi.ssid) + string_field(wifi.password) == codec::command_payload(
            CommandSpec::SetWifiConfig(wifi),
        ),
{
    lemma_string_field(wifi.ssid);
    lemma_string_field(wifi.password);
}

/// The MQTT payload builder writes the layout that the device reads.
pub proof fn mqtt_payload_matches_the_hub_codec(mqtt: MqttSpec)
    requires
        mqtt.fits(),
    ensures
        octets::le16(mqtt.port) + string_field(mqtt.host) + string_field(mqtt.client_id)
            == codec::command_payload(CommandSpec::SetMqttConfig(mqtt)),
{
    lemma_string_field(mqtt.host);
    lemma_string_field(mqtt.client_id);
    let (a, b, c) = (
        octets::le16(mqtt.port),
        codec::text_field(mqtt.host),
        codec::text_field(mqtt.client_id),
    );
    assert(a + b + c =~= a + (b + c));
}

/// The gateway payload builder writes the layout that the device reads.
pub proof fn gateway_payload_matches_the_hub_codec(gw: GatewaySpec)
    requires
        gw.fits(),
    ensures
        octets::le32(gw.frequency_hz) + seq![gw.spreading_factor] + octets::le32(gw.bandwidth_khz)
            + seq![gw.coding_rate] + octets::le16(gw.port) + string_field(gw.host)
            == codec::command_payload(CommandSpec::SetGatewayConfig(gw)),
{
    lemma_string_field(gw.host);
    lemma_six_in_a_row(
        octets::le32(gw.frequency_hz),
        seq![gw.spreading_factor],
        octets::le32(gw.bandwidth_khz),
        seq![gw.coding_rate],
        octets::le16(gw.port),
        codec::text_field(gw.host),
    );
}

/// The responses have these bytes, and each is read back from its own byte only.
pub proof fn response_bytes(value: u8, r: Result<ResponseId, u8>)
    requires
        call_ensures(ResponseId::try_from, (value,), r),
    ensures
        r == Ok::<ResponseId, u8>(ResponseId::Version) <==> value == 0x01,
        r == Ok::<ResponseId, u8>(ResponseId::TxComplete) <==> value == 0x10,
        r == Ok::<ResponseId, u8>(ResponseId::RxPacket) <==> value == 0x11,
        r == Ok::<ResponseId, u8>(ResponseId::RadioConfig) <==> value == 0x12,
        r == Ok::<ResponseId, u8>(ResponseId::TxRefused) <==> value == 0x13,
        r == Ok::<ResponseId, u8>(ResponseId::NetworkConfig) <==> value == 0x20,
        r == Ok::<ResponseId, u8>(ResponseId::HubStatus) <==> value == 0x21,
        r == Ok::<ResponseId, u8>(ResponseId::ConfigAck) <==> value == 0x22,
        r == Ok::<ResponseId, u8>(ResponseId::Error) <==> value == 0xFF,
        r is Err ==> r == Err::<ResponseId, u8>(value),
{
    assert(ResponseId::Version.byte() == 0x01);
    assert(ResponseId::TxComplete.byte() == 0x10);
    assert(ResponseId::RxPacket.byte() == 0x11);
    assert(ResponseId::RadioConfig.byte() == 0x12);
    assert(ResponseId::TxRefused.byte() == 0x13);
    assert(ResponseId::NetworkConfig.byte() == 0x20);
    assert(ResponseId::HubStatus.byte() == 0x21);
    assert(ResponseId::ConfigAck.byte() == 0x22);
    assert(ResponseId::Error.byte() == 0xFF);
}

/// A status payload has 22 bytes: the WiFi state, the four bytes of the address, the
/// MQTT state, and the uplinks, downlinks, drops and seconds of uptime in four bytes
/// each, low byte first. One of another length is refused with its length.
pub proof fn status_payloads_are_read(payload: &[u8], r: Result<HubStatus, HostError>)
    requires
        call_ensures(parse_hub_status, (payload,), r),
    ensures
        payload@.len() != 22 ==> r == Err::<HubStatus, HostError>(
            HostError::StatusLength { len: payload@.len() as usize },
        ),
        payload@.len() == 22 ==> ({
            let p = payload@;
            r matches Ok(status) && status.wifi_state == p[0] && status.ip@[0] == p[1]
                && status.ip@[1] == p[2] && status.ip@[2] == p[3] && status.ip@[3] == p[4]
                && status.mqtt_state == p[5] && status.uplink_count == p[6] + 256 * p[7] + 65_536
                * p[8] + 16_777_216 * p[9] && status.downlink_count == p[10] + 256 * p[11] + 65_536
                * p[12] + 16_777_216 * p[13] && status.dropped_count == p[14] + 256 * p[15]
                + 65_536 * p[16] + 16_777_216 * p[17] && status.uptime_secs == p[18] + 256 * p[19]
                + 65_536 * p[20] + 16_777_216 * p[21]
        }),
{
    if payload@.len() == 22 {
        assert(payload@.subrange(1, 5)[0] == payload@[1]);
        assert(payload@.subrange(1, 5)[1] == payload@[2]);
        assert(payload@.subrange(1, 5)[2] == payload@[3]);
        assert(payload@.subrange(1, 5)[3] == payload@[4]);
    }
}

/// A response is accepted exactly when it is complete, its checksum matches, its
/// version is 1 and its id is known, and gives that id and the bytes that its length
/// field counts; what is wrong is told in that order.
pub proof fn responses_are_checked(data: &[u8], r: Result<Response, HostError>)
    requires
        call_ensures(parse_response, (data,), r),
    ensures
        data@.len() < 6 ==> (r matches Err(HostError::TooShort { len }) && len == data@.len()),
        data@.len() >= 6 ==> ({
            let n = data@[2] + 256 * data@[3];
            let received = data@[4 + n] + 256 * data@[5 + n];
            let calculated = wire::crc16_xmodem(data@.take(4 + n));
            let complete = data@.len() >= n + 6;
            &&& !complete ==> (r matches Err(HostError::Incomplete { expected, got }) && expected
                == n + 6 && got == data@.len())
            &&& complete && received != calculated ==> (r matches Err(
                HostError::CrcMismatch { calculated: c, received: v },
            ) && c == calculated && v == received)
            &&& complete && received == calculated && data@[0] != 1 ==> (r matches Err(
                HostError::VersionMismatch { version },
            ) && version == data@[0])
            &&& complete && received == calculated && data@[0] == 1 ==> match r {
                Ok(response) => response.version == 1 && response.resp_id.byte() == data@[1]
                    && response.payload@ == data@.subrange(4, 4 + n),
                Err(e) => e == HostError::UnknownId(data@[1]) && forall|id: ResponseId|
                    id.byte() != data@[1],
            }
        }),
{
}

/// A WiFi payload holds the length of the name in one byte, the name, the length of
/// the password in one byte and the password.
pub proof fn wifi_payloads_are_laid_out(ssid: &str, password: &str, r: Vec<u8>)
    requires
        octets::utf8(ssid@).len() <= 255,
        octets::utf8(password@).len() <= 255,
        call_ensures(wifi_config_payload, (ssid, password), r),
    ensures
        ({
            let n = octets::utf8(ssid@).len() as int;
            let m = octets::utf8(password@).len() as int;
            &&& r@.len() == 2 + n + m
            &&& r@[0] == n
            &&& r@.subrange(1, 1 + n) == octets::utf8(ssid@)
            &&& r@[1 + n] == m
            &&& r@.skip(2 + n) == octets::utf8(password@)
        }),
{
}

/// An MQTT payload holds the port with the low byte first, then the host and the
/// client id, each behind its length.
pub proof fn mqtt_payloads_are_laid_out(host: &str, port: u16, client_id: &str, r: Vec<u8>)
    requires
        octets::utf8(host@).len() <= 255,
        octets::utf8(client_id@).len() <= 255,
        call_ensures(mqtt_config_payload, (host, port, client_id), r),
    ensures
        ({
            let n = octets::utf8(host@).len() as int;
            let m = octets::utf8(client_id@).len() as int;
            &&& r@.len() == 4 + n + m
            &&& r@[0] + 256 * r@[1] == port
            &&& r@[2] == n
            &&& r@.subrange(3, 3 + n) == octets::utf8(host@)
            &&& r@[3 + n] == m
            &&& r@.skip(4 + n) == octets::utf8(client_id@)
        }),
{
}

/// A gateway payload holds the frequency in four bytes, the spreading factor in one,
/// the bandwidth in four, the coding rate in one, the port in two, low bytes first,
/// and the host behind its length.
pub proof fn gateway_payloads_are_laid_out(
    freq_hz: u32,
    spreading_factor: u8,
    bandwidth_khz: u32,
    coding_rate: u8,
    host: &str,
    port: u16,
    r: Vec<u8>,
)
    requires
        octets::utf8(host@).len() <= 255,
        call_ensures(
            gateway_config_payload,
            (freq_hz, spreading_factor, bandwidth_khz, coding_rate, host, port),
            r,
        ),
    ensures
        r@.len() == 13 + octets::utf8(host@).len(),
        r@[0] + 256 * r@[1] + 65_536 * r@[2] + 16_777_216 * r@[3] == freq_hz,
        r@[4] == spreading_factor,
        r@[5] + 256 * r@[6] + 65_536 * r@[7] + 16_777_216 * r@[8] == bandwidth_khz,
        r@[9] == coding_rate,
        r@[10] + 256 * r@[11] == port,
        r@[12] == octets::utf8(host@).len(),
        r@.skip(13) == octets::utf8(host@),
{
    octets::byte_orders(port, freq_hz);
    octets::byte_orders(port, bandwidth_khz);
}

/// What the device decodes of a built command is a frame with the command's id and
/// payload.
pub proof fn built_commands_arrive(cmd_id: CommandId, payload: &[u8], r: Vec<u8>)
    requires
        payload@.len() <= 65_535,
        call_ensures(build_command, (cmd_id, payload), r),
    ensures
        wire::cobs_decoded(r@) matches Some(frame) && wire::frame_parts(frame) == Ok::<
            (u8, Seq<u8>),
            wire::ParseError,
        >((cmd_id.byte(), payload@)),
{
    wire::raw_frame_round_trip(cmd_id.byte(), payload@, Seq::empty());
    let frame = wire::raw_frame(cmd_id.byte(), payload@);
    assert(frame + Seq::<u8>::empty() =~= frame);
}

} // verus!
