//! Frame encode/decode for the hub command block.
//!
//! Frames have the layout of [`crate::wire`]. Strings are length prefixed with
//! a single byte, numbers are little-endian.
use crate::bounded::{Bytes, Text};
use crate::hub_protocol::types::{
    AckStatus, CommandSpec, GatewaySettings, GatewaySpec, HubCommand, HubCommandId, HubMode,
    HubResponse, HubResponseId, HubStatus, LinkState, MqttSettings, MqttSpec, ResponseSpec,
    StatusSpec, WifiSettings, WifiSpec,
};
use crate::octets;
use crate::wire;
use crate::wire::ParseError;
use crate::wt::{CommandId, ResponseStatus};
use vstd::prelude::*;
use vstd::utf8::*;

verus! {

/// A text as a payload field: its length in one byte, then its bytes.
pub open spec fn text_field(text: Seq<char>) -> Seq<u8> {
    seq![octets::utf8(text).len() as u8] + octets::utf8(text)
}

/// The gateway fields of fixed width: frequency, spreading factor, bandwidth,
/// coding rate and port.
pub open spec fn gateway_prefix(gw: GatewaySpec) -> Seq<u8> {
    octets::le32(gw.frequency_hz) + (seq![gw.spreading_factor] + (octets::le32(gw.bandwidth_khz) + (
    seq![gw.coding_rate] + octets::le16(gw.port))))
}

/// The payload of a command.
pub open spec fn command_payload(command: CommandSpec) -> Seq<u8> {
    match command {
        CommandSpec::SetWifiConfig(wifi) => text_field(wifi.ssid) + text_field(wifi.password),
        CommandSpec::SetMqttConfig(mqtt) => octets::le16(mqtt.port) + (text_field(mqtt.host)
            + text_field(mqtt.client_id)),
        CommandSpec::SetMode(mode) => seq![mode.byte()],
        CommandSpec::SetGatewayConfig(gw) => gateway_prefix(gw) + text_field(gw.host),
        CommandSpec::GetNetworkConfig
        | CommandSpec::GetHubStatus
        | CommandSpec::ClearNetworkConfig => Seq::empty(),
    }
}

/// The payload of a response.
pub open spec fn response_payload(response: ResponseSpec) -> Seq<u8> {
    match response {
        ResponseSpec::NetworkConfig(mode, ssid, mqtt, gw) => seq![mode.byte()] + (octets::le16(
            mqtt.port,
        ) + (gateway_prefix(gw) + (text_field(ssid) + (text_field(mqtt.host) + (text_field(
            mqtt.client_id,
        ) + text_field(gw.host)))))),
        ResponseSpec::HubStatus(status) => seq![status.wifi_state.byte()] + (status.ip + (seq![
            status.mqtt_state.byte(),
        ] + (octets::le32(status.uplink_count) + (octets::le32(status.downlink_count) + (
        octets::le32(status.dropped_count) + octets::le32(status.uptime_secs)))))),
        ResponseSpec::ConfigAck(status) => seq![status.byte()],
    }
}

/// A payload that is read field by field: what is left of it, and the first
/// thing that went wrong. After that nothing more is read.
#[verifier::ext_equal]
pub struct Cursor {
    /// The unread rest.
    pub rest: Seq<u8>,
    /// The first error.
    pub failed: Option<ParseError>,
}

impl Cursor {
    /// Reading begins.
    pub open spec fn over(payload: Seq<u8>) -> Cursor {
        Cursor { rest: payload, failed: None }
    }

    /// A condition on what was read so far.
    pub open spec fn check(self, holds: bool) -> Cursor {
        if self.failed is None && !holds {
            Cursor { rest: self.rest, failed: Some(ParseError::BadPayload) }
        } else {
            self
        }
    }

    /// The next `n` bytes.
    pub open spec fn bytes(self, n: int) -> (Seq<u8>, Cursor) {
        if self.failed is Some {
            (Seq::empty(), self)
        } else if self.rest.len() < n {
            (Seq::empty(), Cursor { rest: self.rest, failed: Some(ParseError::TooShort) })
        } else {
            (self.rest.take(n), Cursor { rest: self.rest.skip(n), failed: None })
        }
    }

    /// The next byte.
    pub open spec fn byte(self) -> (u8, Cursor) {
        let (b, c) = self.bytes(1);
        (b[0], c)
    }

    /// The next 16-bit number.
    pub open spec fn half(self) -> (u16, Cursor) {
        let (b, c) = self.bytes(2);
        (octets::from_le16(b[0], b[1]), c)
    }

    /// The next 32-bit number.
    pub open spec fn word(self) -> (u32, Cursor) {
        let (b, c) = self.bytes(4);
        (octets::from_le32(b[0], b[1], b[2], b[3]), c)
    }

    /// The next text, of at most `cap` bytes.
    #[verifier::opaque]
    pub open spec fn text(self, cap: int) -> (Seq<char>, Cursor) {
        let (n, c1) = self.byte();
        let (b, c2) = c1.check(n <= cap).bytes(n as int);
        (decode_utf8(b), c2.check(valid_utf8(b)))
    }

    /// The gateway fields of fixed width.
    #[verifier::opaque]
    pub open spec fn gateway(self) -> ((u32, u8, u32, u8, u16), Cursor) {
        let (frequency_hz, c1) = self.word();
        let (spreading_factor, c2) = c1.byte();
        let (bandwidth_khz, c3) = c2.word();
        let (coding_rate, c4) = c3.byte();
        let (port, c5) = c4.half();
        ((frequency_hz, spreading_factor, bandwidth_khz, coding_rate, port), c5)
    }

    /// Nothing may be left over.
    pub open spec fn finished(self) -> Cursor {
        self.check(self.rest.len() == 0)
    }

    /// What was read, unless something went wrong.
    pub open spec fn outcome<T>(self, value: T) -> Result<T, ParseError> {
        match self.failed {
            Some(e) => Err(e),
            None => Ok(value),
        }
    }
}

/// The gateway settings behind the fields of fixed width and a host.
pub open spec fn gateway_of(fields: (u32, u8, u32, u8, u16), host: Seq<char>) -> GatewaySpec {
    GatewaySpec {
        frequency_hz: fields.0,
        spreading_factor: fields.1,
        bandwidth_khz: fields.2,
        coding_rate: fields.3,
        host,
        port: fields.4,
    }
}

/// The response behind an id and a payload.
pub open spec fn response_of(id: u8, payload: Seq<u8>) -> Result<ResponseSpec, ParseError> {
    let start = Cursor::over(payload);
    if id == HubResponseId::NetworkConfig.byte() {
        let (mode, c1) = start.byte();
        let (mqtt_port, c2) = c1.check(HubMode::of_byte(mode) is Some).half();
        let (fields, c3) = c2.gateway();
        let (ssid, c4) = c3.text(32);
        let (host, c5) = c4.text(64);
        let (client_id, c6) = c5.text(32);
        let (gw_host, c7) = c6.text(64);
        c7.finished().outcome(
            ResponseSpec::NetworkConfig(
                HubMode::of_byte(mode)->Some_0,
                ssid,
                MqttSpec { host, port: mqtt_port, client_id },
                gateway_of(fields, gw_host),
            ),
        )
    } else if id == HubResponseId::HubStatus.byte() {
        let (wifi, c1) = start.byte();
        let (ip, c2) = c1.check(LinkState::of_byte(wifi) is Some).bytes(4);
        let (mqtt, c3) = c2.byte();
        let (uplink_count, c4) = c3.check(LinkState::of_byte(mqtt) is Some).word();
        let (downlink_count, c5) = c4.word();
        let (dropped_count, c6) = c5.word();
        let (uptime_secs, c7) = c6.word();
        c7.finished().outcome(
            ResponseSpec::HubStatus(
                StatusSpec {
                    wifi_state: LinkState::of_byte(wifi)->Some_0,
                    ip,
                    mqtt_state: LinkState::of_byte(mqtt)->Some_0,
                    uplink_count,
                    downlink_count,
                    dropped_count,
                    uptime_secs,
                },
            ),
        )
    } else if id == HubResponseId::ConfigAck.byte() {
        let (status, c1) = start.byte();
        c1.check(AckStatus::of_byte(status) is Some).finished().outcome(
            ResponseSpec::ConfigAck(AckStatus::of_byte(status)->Some_0),
        )
    } else {
        Err(ParseError::UnknownId(id))
    }
}

/// The response behind a raw frame.
pub open spec fn parsed_response(data: Seq<u8>) -> Result<ResponseSpec, ParseError> {
    match wire::frame_parts(data) {
        Err(e) => Err(e),
        Ok((id, payload)) => response_of(id, payload),
    }
}

/// What a device answers to a payload that it cannot read.
pub open spec fn or_invalid_length(read: Result<CommandSpec, ParseError>) -> Result<
    CommandSpec,
    ResponseStatus,
> {
    match read {
        Ok(command) => Ok(command),
        Err(_) => Err(ResponseStatus::InvalidLength),
    }
}

/// The command behind an id and a payload.
pub open spec fn command_of(id: u8, payload: Seq<u8>) -> Result<CommandSpec, ResponseStatus> {
    let start = Cursor::over(payload);
    if id == HubCommandId::SetWifiConfig.byte() {
        let (ssid, c1) = start.text(32);
        let (password, c2) = c1.text(64);
        or_invalid_length(
            c2.finished().outcome(CommandSpec::SetWifiConfig(WifiSpec { ssid, password })),
        )
    } else if id == HubCommandId::SetMqttConfig.byte() {
        let (port, c1) = start.half();
        let (host, c2) = c1.text(64);
        let (client_id, c3) = c2.text(32);
        or_invalid_length(
            c3.finished().outcome(CommandSpec::SetMqttConfig(MqttSpec { host, port, client_id })),
        )
    } else if id == HubCommandId::GetNetworkConfig.byte() {
        or_invalid_length(start.finished().outcome(CommandSpec::GetNetworkConfig))
    } else if id == HubCommandId::GetHubStatus.byte() {
        or_invalid_length(start.finished().outcome(CommandSpec::GetHubStatus))
    } else if id == HubCommandId::SetMode.byte() {
        let (mode, c1) = start.byte();
        if c1.failed is None && HubMode::of_byte(mode) is None {
            Err(ResponseStatus::InvalidParameter)
        } else {
            or_invalid_length(
                c1.finished().outcome(CommandSpec::SetMode(HubMode::of_byte(mode)->Some_0)),
            )
        }
    } else if id == HubCommandId::ClearNetworkConfig.byte() {
        or_invalid_length(start.finished().outcome(CommandSpec::ClearNetworkConfig))
    } else if id == HubCommandId::SetGatewayConfig.byte() {
        let (fields, c1) = start.gateway();
        let (host, c2) = c1.text(64);
        or_invalid_length(
            c2.finished().outcome(CommandSpec::SetGatewayConfig(gateway_of(fields, host))),
        )
    } else {
        Err(ResponseStatus::InvalidCommand)
    }
}

/// The command behind a raw frame, or the status to answer with.
pub open spec fn parsed_command(data: Seq<u8>) -> Result<CommandSpec, ResponseStatus> {
    match wire::frame_parts(data) {
        Err(ParseError::InvalidVersion) => Err(ResponseStatus::InvalidVersion),
        Err(ParseError::CrcError) => Err(ResponseStatus::CrcError),
        Err(_) => Err(ResponseStatus::InvalidLength),
        Ok((id, payload)) => command_of(id, payload),
    }
}

/// After an error nothing more is read.
proof fn lemma_failed_stays()
    ensures
        forall|c: Cursor, cap: int| c.failed is Some ==> (#[trigger] c.text(cap)).1 == c,
        forall|c: Cursor| c.failed is Some ==> (#[trigger] c.gateway()).1 == c,
{
    reveal(Cursor::text);
    reveal(Cursor::gateway);
}

/// Sequential reader over a payload for length-prefixed fields.
struct PayloadReader<'a> {
    data: &'a [u8],
    pos: usize,
}

impl<'a> PayloadReader<'a> {
    spec fn cursor(self) -> Cursor {
        Cursor::over(self.data@.skip(self.pos as int))
    }

    spec fn inside(self) -> bool {
        self.pos <= self.data@.len()
    }

    fn new(data: &'a [u8]) -> (r: Self)
        ensures
            r.inside(),
            r.cursor() == Cursor::over(data@),
    {
        assert(data@.skip(0) =~= data@);
        PayloadReader { data, pos: 0 }
    }

    fn take(&mut self, n: usize) -> (r: Result<&'a [u8], ParseError>)
        requires
            old(self).inside(),
        ensures
            final(self).inside(),
            match r {
                Ok(slice) => old(self).cursor().bytes(n as int) == (slice@, final(self).cursor()),
                Err(e) => old(self).cursor().bytes(n as int).1.failed == Some(e),
            },
    {
        if n > self.data.len() - self.pos {
            return Err(ParseError::TooShort);
        }
        let slice: &'a [u8] = &self.data[self.pos..self.pos + n];
        assert(slice@ =~= self.cursor().rest.take(n as int));
        assert(self.cursor().rest.skip(n as int) =~= self.data@.skip(self.pos + n));
        self.pos = self.pos + n;
        Ok(slice)
    }

    fn u8(&mut self) -> (r: Result<u8, ParseError>)
        requires
            old(self).inside(),
        ensures
            final(self).inside(),
            match r {
                Ok(v) => old(self).cursor().byte() == (v, final(self).cursor()),
                Err(e) => old(self).cursor().byte().1.failed == Some(e),
            },
    {
        match self.take(1) {
            Ok(b) => Ok(b[0]),
            Err(e) => Err(e),
        }
    }

    fn u16_le(&mut self) -> (r: Result<u16, ParseError>)
        requires
            old(self).inside(),
        ensures
            final(self).inside(),
            match r {
                Ok(v) => old(self).cursor().half() == (v, final(self).cursor()),
                Err(e) => old(self).cursor().half().1.failed == Some(e),
            },
    {
        match self.take(2) {
            Ok(b) => Ok(octets::join_le16(b[0], b[1])),
            Err(e) => Err(e),
        }
    }

    fn u32_le(&mut self) -> (r: Result<u32, ParseError>)
        requires
            old(self).inside(),
        ensures
            final(self).inside(),
            match r {
                Ok(v) => old(self).cursor().word() == (v, final(self).cursor()),
                Err(e) => old(self).cursor().word().1.failed == Some(e),
            },
    {
        match self.take(4) {
            Ok(b) => Ok(octets::join_le32(b[0], b[1], b[2], b[3])),
            Err(e) => Err(e),
        }
    }

    /// A one-byte-length-prefixed UTF-8 string capped at `N`.
    fn string<const N: usize>(&mut self) -> (r: Result<Text<N>, ParseError>)
        requires
            old(self).inside(),
        ensures
            final(self).inside(),
            match r {
                Ok(v) => old(self).cursor().text(N as int) == (v@, final(self).cursor()),
                Err(e) => old(self).cursor().text(N as int).1.failed == Some(e),
            },
    {
        proof {
            reveal(Cursor::text);
        }
        let len: u8 = match self.u8() {
            Ok(len) => len,
            Err(e) => {
                return Err(e);
            },
        };
        if len as usize > N {
            return Err(ParseError::BadPayload);
        }
        let bytes: &'a [u8] = match self.take(len as usize) {
            Ok(bytes) => bytes,
            Err(e) => {
                return Err(e);
            },
        };
        let text: &str = match octets::text_of(bytes) {
            Some(text) => text,
            None => {
                return Err(ParseError::BadPayload);
            },
        };
        proof {
            encode_utf8_decode_utf8(text@);
        }
        match Text::try_from(text) {
            Ok(out) => Ok(out),
            Err(_) => Err(ParseError::BadPayload),
        }
    }

    /// The fixed-width gateway fields (freq, sf, bw, cr, port), which precede
    /// the variable-length strings.
    fn gateway(&mut self) -> (r: Result<(u32, u8, u32, u8, u16), ParseError>)
        requires
            old(self).inside(),
        ensures
            final(self).inside(),
            match r {
                Ok(v) => old(self).cursor().gateway() == (v, final(self).cursor()),
                Err(e) => old(self).cursor().gateway().1.failed == Some(e),
            },
    {
        proof {
            reveal(Cursor::gateway);
        }
        let frequency_hz: u32 = self.u32_le()?;
        let spreading_factor: u8 = self.u8()?;
        let bandwidth_khz: u32 = self.u32_le()?;
        let coding_rate: u8 = self.u8()?;
        let port: u16 = self.u16_le()?;
        Ok((frequency_hz, spreading_factor, bandwidth_khz, coding_rate, port))
    }

    fn finished(&self) -> (r: bool)
        requires
            self.inside(),
        ensures
            r == (self.cursor().rest.len() == 0),
    {
        self.pos == self.data.len()
    }
}

fn push_string<const N: usize>(payload: &mut Vec<u8>, text: &Text<N>)
    requires
        N <= 255,
    ensures
        final(payload)@ == old(payload)@ + text_field(text@),
        final(payload)@.len() <= old(payload)@.len() + 1 + N,
        octets::utf8(text@).len() <= N,
{
    let ghost before = payload@;
    let s: &str = text.as_str();
    payload.push(s.as_bytes().len() as u8);
    octets::append_text(payload, s);
    assert(payload@ =~= before + text_field(text@));
}

fn encode_gateway_fields(payload: &mut Vec<u8>, gw: &GatewaySettings)
    ensures
        final(payload)@ == old(payload)@ + gateway_prefix(gw@),
        final(payload)@.len() == old(payload)@.len() + 12,
{
    let ghost before = payload@;
    octets::append_le32(payload, gw.frequency_hz);
    payload.push(gw.spreading_factor);
    octets::append_le32(payload, gw.bandwidth_khz);
    payload.push(gw.coding_rate);
    octets::append_le16(payload, gw.port);
    assert(payload@ =~= before + gateway_prefix(gw@));
}

/// Puts a message into a COBS frame ready for the wire.
fn framed(id: u8, payload: &[u8]) -> (r: Bytes<300>)
    requires
        payload@.len() <= 250,
    ensures
        r@ == wire::cobs_encoded(wire::raw_frame(id, payload@)),
        wire::cobs_decoded(r@) == Some(wire::raw_frame(id, payload@)),
{
    let raw: Vec<u8> = wire::build_raw(id, payload);
    let encoded: Vec<u8> = wire::cobs_encode(raw.as_slice());
    match Bytes::from_slice(encoded.as_slice()) {
        Ok(frame) => frame,
        Err(_) => Bytes::new(),
    }
}

// --- Host role: send commands, parse responses -------------------------------

/// Encode a hub command into a COBS frame ready for the wire.
pub fn encode_command(command: &HubCommand) -> (r: Bytes<300>)
    ensures
        r@ == wire::cobs_encoded(
            wire::raw_frame(command@.id().byte(), command_payload(command@)),
        ),
        wire::cobs_decoded(r@) == Some(
            wire::raw_frame(command@.id().byte(), command_payload(command@)),
        ),
{
    let mut payload: Vec<u8> = Vec::new();
    match command {
        HubCommand::SetWifiConfig(wifi) => {
            push_string(&mut payload, &wifi.ssid);
            push_string(&mut payload, &wifi.password);
        },
        HubCommand::SetMqttConfig(mqtt) => {
            octets::append_le16(&mut payload, mqtt.port);
            push_string(&mut payload, &mqtt.host);
            push_string(&mut payload, &mqtt.client_id);
        },
        HubCommand::GetNetworkConfig
        | HubCommand::GetHubStatus
        | HubCommand::ClearNetworkConfig => {},
        HubCommand::SetMode { mode } => {
            payload.push(mode.to_byte());
        },
        HubCommand::SetGatewayConfig(gw) => {
            encode_gateway_fields(&mut payload, gw);
            push_string(&mut payload, &gw.host);
        },
    }
    assert(payload@ =~= command_payload(command@));
    framed(command.id().to_byte(), payload.as_slice())
}

/// Reads a NetworkConfig payload.
fn parse_network_config(payload: &[u8]) -> (r: Result<HubResponse, ParseError>)
    ensures
        match r {
            Ok(response) => response_of(HubResponseId::NetworkConfig.byte(), payload@) == Ok::<
                ResponseSpec,
                ParseError,
            >(response@),
            Err(e) => response_of(HubResponseId::NetworkConfig.byte(), payload@) == Err::<
                ResponseSpec,
                ParseError,
            >(e),
        },
{
    proof {
        lemma_failed_stays();
    }
    let mut r: PayloadReader = PayloadReader::new(payload);
    let mode: HubMode = match HubMode::from_byte(r.u8()?) {
        Some(mode) => mode,
        None => {
            return Err(ParseError::BadPayload);
        },
    };
    let mqtt_port: u16 = r.u16_le()?;
    let fields: (u32, u8, u32, u8, u16) = r.gateway()?;
    let wifi_ssid: Text<32> = r.string()?;
    let mqtt_host: Text<64> = r.string()?;
    let client_id: Text<32> = r.string()?;
    let gw_host: Text<64> = r.string()?;
    if !r.finished() {
        return Err(ParseError::BadPayload);
    }
    Ok(
        HubResponse::NetworkConfig {
            mode,
            wifi_ssid,
            mqtt: MqttSettings { host: mqtt_host, port: mqtt_port, client_id },
            gateway: GatewaySettings {
                frequency_hz: fields.0,
                spreading_factor: fields.1,
                bandwidth_khz: fields.2,
                coding_rate: fields.3,
                host: gw_host,
                port: fields.4,
            },
        },
    )
}

/// Reads a HubStatus payload.
fn parse_status(payload: &[u8]) -> (r: Result<HubResponse, ParseError>)
    ensures
        match r {
            Ok(response) => response_of(HubResponseId::HubStatus.byte(), payload@) == Ok::<
                ResponseSpec,
                ParseError,
            >(response@),
            Err(e) => response_of(HubResponseId::HubStatus.byte(), payload@) == Err::<
                ResponseSpec,
                ParseError,
            >(e),
        },
{
    let mut r: PayloadReader = PayloadReader::new(payload);
    let wifi_state: LinkState = match LinkState::from_byte(r.u8()?) {
        Some(state) => state,
        None => {
            return Err(ParseError::BadPayload);
        },
    };
    let ip: &[u8] = r.take(4)?;
    let mqtt_state: LinkState = match LinkState::from_byte(r.u8()?) {
        Some(state) => state,
        None => {
            return Err(ParseError::BadPayload);
        },
    };
    let uplink_count: u32 = r.u32_le()?;
    let downlink_count: u32 = r.u32_le()?;
    let dropped_count: u32 = r.u32_le()?;
    let uptime_secs: u32 = r.u32_le()?;
    if !r.finished() {
        return Err(ParseError::BadPayload);
    }
    let address: [u8; 4] = [ip[0], ip[1], ip[2], ip[3]];
    assert(address@ =~= ip@);
    Ok(
        HubResponse::HubStatus(
            HubStatus {
                wifi_state,
                ip: address,
                mqtt_state,
                uplink_count,
                downlink_count,
                dropped_count,
                uptime_secs,
            },
        ),
    )
}

/// Reads a ConfigAck payload.
fn parse_ack(payload: &[u8]) -> (r: Result<HubResponse, ParseError>)
    ensures
        match r {
            Ok(response) => response_of(HubResponseId::ConfigAck.byte(), payload@) == Ok::<
                ResponseSpec,
                ParseError,
            >(response@),
            Err(e) => response_of(HubResponseId::ConfigAck.byte(), payload@) == Err::<
                ResponseSpec,
                ParseError,
            >(e),
        },
{
    let mut r: PayloadReader = PayloadReader::new(payload);
    let status: AckStatus = match AckStatus::from_byte(r.u8()?) {
        Some(status) => status,
        None => {
            return Err(ParseError::BadPayload);
        },
    };
    if !r.finished() {
        return Err(ParseError::BadPayload);
    }
    Ok(HubResponse::ConfigAck { status })
}

/// Parse a COBS-decoded frame into a hub response.
pub fn parse_response(data: &[u8]) -> (r: Result<HubResponse, ParseError>)
    ensures
        match r {
            Ok(response) => parsed_response(data@) == Ok::<ResponseSpec, ParseError>(response@),
            Err(e) => parsed_response(data@) == Err::<ResponseSpec, ParseError>(e),
        },
{
    let (id, payload): (u8, &[u8]) = wire::parse_raw(data)?;
    match HubResponseId::from_byte(id) {
        Some(HubResponseId::NetworkConfig) => parse_network_config(payload),
        Some(HubResponseId::HubStatus) => parse_status(payload),
        Some(HubResponseId::ConfigAck) => parse_ack(payload),
        None => {
            assert(HubResponseId::NetworkConfig.byte() != id);
            assert(HubResponseId::HubStatus.byte() != id);
            assert(HubResponseId::ConfigAck.byte() != id);
            Err(ParseError::UnknownId(id))
        },
    }
}

// --- Device role: parse commands, send responses -----------------------------

/// A reading failure as the status that the device answers with.
fn read<T>(value: Result<T, ParseError>) -> (r: Result<T, ResponseStatus>)
    ensures
        match value {
            Ok(v) => r == Ok::<T, ResponseStatus>(v),
            Err(_) => r == Err::<T, ResponseStatus>(ResponseStatus::InvalidLength),
        },
{
    match value {
        Ok(v) => Ok(v),
        Err(_) => Err(ResponseStatus::InvalidLength),
    }
}

/// Parse a COBS-decoded frame into a hub command. Errors are protocol status
/// codes so the device can reply with a matching `Response::Error`.
pub fn parse_command(data: &[u8]) -> (r: Result<HubCommand, ResponseStatus>)
    ensures
        match r {
            Ok(command) => parsed_command(data@) == Ok::<CommandSpec, ResponseStatus>(command@),
            Err(status) => parsed_command(data@) == Err::<CommandSpec, ResponseStatus>(status),
        },
{
    let (id, payload): (u8, &[u8]) = match wire::parse_raw(data) {
        Ok(parts) => parts,
        Err(ParseError::InvalidVersion) => {
            return Err(ResponseStatus::InvalidVersion);
        },
        Err(ParseError::CrcError) => {
            return Err(ResponseStatus::CrcError);
        },
        Err(_) => {
            return Err(ResponseStatus::InvalidLength);
        },
    };
    let id: HubCommandId = match HubCommandId::from_byte(id) {
        Some(id) => id,
        None => {
            assert(HubCommandId::SetWifiConfig.byte() != id);
            assert(HubCommandId::SetMqttConfig.byte() != id);
            assert(HubCommandId::GetNetworkConfig.byte() != id);
            assert(HubCommandId::GetHubStatus.byte() != id);
            assert(HubCommandId::SetMode.byte() != id);
            assert(HubCommandId::ClearNetworkConfig.byte() != id);
            assert(HubCommandId::SetGatewayConfig.byte() != id);
            return Err(ResponseStatus::InvalidCommand);
        },
    };
    proof {
        lemma_failed_stays();
    }
    let mut r: PayloadReader = PayloadReader::new(payload);
    let command: HubCommand = match id {
        HubCommandId::SetWifiConfig => {
            let ssid: Text<32> = read(r.string())?;
            let password: Text<64> = read(r.string())?;
            HubCommand::SetWifiConfig(WifiSettings { ssid, password })
        },
        HubCommandId::SetMqttConfig => {
            let port: u16 = read(r.u16_le())?;
            let host: Text<64> = read(r.string())?;
            let client_id: Text<32> = read(r.string())?;
            HubCommand::SetMqttConfig(MqttSettings { host, port, client_id })
        },
        HubCommandId::GetNetworkConfig => HubCommand::GetNetworkConfig,
        HubCommandId::GetHubStatus => HubCommand::GetHubStatus,
        HubCommandId::SetMode => {
            match HubMode::from_byte(read(r.u8())?) {
                Some(mode) => HubCommand::SetMode { mode },
                None => {
                    return Err(ResponseStatus::InvalidParameter);
                },
            }
        },
        HubCommandId::ClearNetworkConfig => HubCommand::ClearNetworkConfig,
        HubCommandId::SetGatewayConfig => {
            let fields: (u32, u8, u32, u8, u16) = read(r.gateway())?;
            let host: Text<64> = read(r.string())?;
            HubCommand::SetGatewayConfig(
                GatewaySettings {
                    frequency_hz: fields.0,
                    spreading_factor: fields.1,
                    bandwidth_khz: fields.2,
                    coding_rate: fields.3,
                    host,
                    port: fields.4,
                },
            )
        },
    };
    if !r.finished() {
        return Err(ResponseStatus::InvalidLength);
    }
    Ok(command)
}

/// Encode a hub response into a COBS frame ready for the wire.
pub fn encode_response(response: &HubResponse) -> (r: Bytes<300>)
    ensures
        r@ == wire::cobs_encoded(
            wire::raw_frame(response@.id().byte(), response_payload(response@)),
        ),
        wire::cobs_decoded(r@) == Some(
            wire::raw_frame(response@.id().byte(), response_payload(response@)),
        ),
{
    let mut payload: Vec<u8> = Vec::new();
    let id: HubResponseId = match response {
        HubResponse::NetworkConfig { mode, wifi_ssid, mqtt, gateway } => {
            payload.push(mode.to_byte());
            octets::append_le16(&mut payload, mqtt.port);
            encode_gateway_fields(&mut payload, gateway);
            push_string(&mut payload, wifi_ssid);
            push_string(&mut payload, &mqtt.host);
            push_string(&mut payload, &mqtt.client_id);
            push_string(&mut payload, &gateway.host);
            HubResponseId::NetworkConfig
        },
        HubResponse::HubStatus(status) => {
            payload.push(status.wifi_state.to_byte());
            octets::append(&mut payload, &status.ip);
            payload.push(status.mqtt_state.to_byte());
            octets::append_le32(&mut payload, status.uplink_count);
            octets::append_le32(&mut payload, status.downlink_count);
            octets::append_le32(&mut payload, status.dropped_count);
            octets::append_le32(&mut payload, status.uptime_secs);
            HubResponseId::HubStatus
        },
        HubResponse::ConfigAck { status } => {
            payload.push(status.to_byte());
            HubResponseId::ConfigAck
        },
    };
    assert(payload@ =~= response_payload(response@));
    framed(id.to_byte(), payload.as_slice())
}

// --- Laws --------------------------------------------------------------------

proof fn lemma_bytes_field(bytes: Seq<u8>, rest: Seq<u8>)
    ensures
        Cursor::over(bytes + rest).bytes(bytes.len() as int) == (bytes, Cursor::over(rest)),
{
    assert((bytes + rest).take(bytes.len() as int) =~= bytes);
    assert((bytes + rest).skip(bytes.len() as int) =~= rest);
}

proof fn lemma_byte_field(b: u8, rest: Seq<u8>)
    ensures
        Cursor::over(seq![b] + rest).byte() == (b, Cursor::over(rest)),
{
    lemma_bytes_field(seq![b], rest);
}

proof fn lemma_half_field(x: u16, rest: Seq<u8>)
    ensures
        Cursor::over(octets::le16(x) + rest).half() == (x, Cursor::over(rest)),
{
    lemma_bytes_field(octets::le16(x), rest);
    octets::le16_round_trip(x);
}

proof fn lemma_word_field(x: u32, rest: Seq<u8>)
    ensures
        Cursor::over(octets::le32(x) + rest).word() == (x, Cursor::over(rest)),
{
    lemma_bytes_field(octets::le32(x), rest);
    octets::le32_round_trip(x);
}

proof fn lemma_text_field(text: Seq<char>, cap: int, rest: Seq<u8>)
    requires
        octets::utf8(text).len() <= cap <= 255,
    ensures
        Cursor::over(text_field(text) + rest).text(cap) == (text, Cursor::over(rest)),
{
    reveal(Cursor::text);
    let b = octets::utf8(text);
    assert(text_field(text) + rest =~= seq![b.len() as u8] + (b + rest));
    lemma_byte_field(b.len() as u8, b + rest);
    lemma_bytes_field(b, rest);
    encode_utf8_decode_utf8(text);
    encode_utf8_valid_utf8(text);
}

proof fn lemma_gateway_fields(gw: GatewaySpec, rest: Seq<u8>)
    ensures
        Cursor::over(gateway_prefix(gw) + rest).gateway() == (
            (gw.frequency_hz, gw.spreading_factor, gw.bandwidth_khz, gw.coding_rate, gw.port),
            Cursor::over(rest),
        ),
{
    reveal(Cursor::gateway);
    let r5 = rest;
    let r4 = octets::le16(gw.port) + r5;
    let r3 = seq![gw.coding_rate] + r4;
    let r2 = octets::le32(gw.bandwidth_khz) + r3;
    let r1 = seq![gw.spreading_factor] + r2;
    assert(gateway_prefix(gw) + rest =~= octets::le32(gw.frequency_hz) + r1);
    lemma_word_field(gw.frequency_hz, r1);
    lemma_byte_field(gw.spreading_factor, r2);
    lemma_word_field(gw.bandwidth_khz, r3);
    lemma_byte_field(gw.coding_rate, r4);
    lemma_half_field(gw.port, r5);
}

/// A payload fits a frame of any length field.
proof fn lemma_command_payload_len(command: CommandSpec)
    requires
        command.fits(),
    ensures
        command_payload(command).len() <= 250,
{
}

proof fn lemma_response_payload_len(response: ResponseSpec)
    requires
        response.fits(),
    ensures
        response_payload(response).len() <= 250,
{
}

/// A frame read back hands its payload to the response reader.
proof fn lemma_framed_response(id: u8, payload: Seq<u8>)
    requires
        payload.len() <= u16::MAX,
    ensures
        parsed_response(wire::raw_frame(id, payload)) == response_of(id, payload),
{
    wire::raw_frame_round_trip(id, payload, Seq::empty());
    assert(wire::raw_frame(id, payload) + Seq::<u8>::empty() =~= wire::raw_frame(id, payload));
}

proof fn lemma_command_of(command: CommandSpec)
    requires
        command.fits(),
    ensures
        command_of(command.id().byte(), command_payload(command)) == Ok::<
            CommandSpec,
            ResponseStatus,
        >(command),
{
    let none = Seq::<u8>::empty();
    match command {
        CommandSpec::SetWifiConfig(wifi) => {
            let r1 = text_field(wifi.password) + none;
            assert(command_payload(command) =~= text_field(wifi.ssid) + r1);
            lemma_text_field(wifi.ssid, 32, r1);
            lemma_text_field(wifi.password, 64, none);
        },
        CommandSpec::SetMqttConfig(mqtt) => {
            let r2 = text_field(mqtt.client_id) + none;
            let r1 = text_field(mqtt.host) + r2;
            assert(command_payload(command) =~= octets::le16(mqtt.port) + r1);
            lemma_half_field(mqtt.port, r1);
            lemma_text_field(mqtt.host, 64, r2);
            lemma_text_field(mqtt.client_id, 32, none);
        },
        CommandSpec::SetMode(mode) => {
            assert(command_payload(command) =~= seq![mode.byte()] + none);
            lemma_byte_field(mode.byte(), none);
        },
        CommandSpec::SetGatewayConfig(gw) => {
            let r1 = text_field(gw.host) + none;
            assert(command_payload(command) =~= gateway_prefix(gw) + r1);
            lemma_gateway_fields(gw, r1);
            lemma_text_field(gw.host, 64, none);
        },
        _ => {},
    }
}

proof fn lemma_response_of(response: ResponseSpec)
    requires
        response.fits(),
    ensures
        response_of(response.id().byte(), response_payload(response)) == Ok::<
            ResponseSpec,
            ParseError,
        >(response),
{
    let none = Seq::<u8>::empty();
    match response {
        ResponseSpec::NetworkConfig(mode, ssid, mqtt, gw) => {
            let r6 = text_field(gw.host) + none;
            let r5 = text_field(mqtt.client_id) + r6;
            let r4 = text_field(mqtt.host) + r5;
            let r3 = text_field(ssid) + r4;
            let r2 = gateway_prefix(gw) + r3;
            let r1 = octets::le16(mqtt.port) + r2;
            assert(response_payload(response) =~= seq![mode.byte()] + r1);
            lemma_byte_field(mode.byte(), r1);
            lemma_half_field(mqtt.port, r2);
            lemma_gateway_fields(gw, r3);
            lemma_text_field(ssid, 32, r4);
            lemma_text_field(mqtt.host, 64, r5);
            lemma_text_field(mqtt.client_id, 32, r6);
            lemma_text_field(gw.host, 64, none);
        },
        ResponseSpec::HubStatus(status) => {
            let r6 = octets::le32(status.uptime_secs) + none;
            let r5 = octets::le32(status.dropped_count) + r6;
            let r4 = octets::le32(status.downlink_count) + r5;
            let r3 = octets::le32(status.uplink_count) + r4;
            let r2 = seq![status.mqtt_state.byte()] + r3;
            let r1 = status.ip + r2;
            assert(response_payload(response) =~= seq![status.wifi_state.byte()] + r1);
            lemma_byte_field(status.wifi_state.byte(), r1);
            lemma_bytes_field(status.ip, r2);
            lemma_byte_field(status.mqtt_state.byte(), r3);
            lemma_word_field(status.uplink_count, r4);
            lemma_word_field(status.downlink_count, r5);
            lemma_word_field(status.dropped_count, r6);
            lemma_word_field(status.uptime_secs, none);
        },
        ResponseSpec::ConfigAck(status) => {
            assert(response_payload(response) =~= seq![status.byte()] + none);
            lemma_byte_field(status.byte(), none);
        },
    }
}

/// Commands round trip: the device reads from the frame the very command that
/// the host encoded.
pub proof fn commands_round_trip(command: CommandSpec)
    requires
        command.fits(),
    ensures
        parsed_command(wire::raw_frame(command.id().byte(), command_payload(command))) == Ok::<
            CommandSpec,
            ResponseStatus,
        >(command),
{
    let payload = command_payload(command);
    lemma_command_payload_len(command);
    wire::raw_frame_round_trip(command.id().byte(), payload, Seq::empty());
    assert(wire::raw_frame(command.id().byte(), payload) + Seq::<u8>::empty() =~= wire::raw_frame(
        command.id().byte(),
        payload,
    ));
    lemma_command_of(command);
}

/// Responses round trip: the host reads from the frame the very response that
/// the device encoded.
pub proof fn responses_round_trip(response: ResponseSpec)
    requires
        response.fits(),
    ensures
        parsed_response(wire::raw_frame(response.id().byte(), response_payload(response))) == Ok::<
            ResponseSpec,
            ParseError,
        >(response),
{
    lemma_response_payload_len(response);
    lemma_framed_response(response.id().byte(), response_payload(response));
    lemma_response_of(response);
}

/// A stock command is never a hub command: its frame falls through with
/// `InvalidCommand`, so the two-stage parser routes it to the stock codec.
pub proof fn stock_ids_are_not_hub_commands(id: CommandId, payload: Seq<u8>)
    requires
        payload.len() <= u16::MAX,
    ensures
        parsed_command(wire::raw_frame(id.byte(), payload)) == Err::<CommandSpec, ResponseStatus>(
            ResponseStatus::InvalidCommand,
        ),
{
    wire::raw_frame_round_trip(id.byte(), payload, Seq::empty());
    assert(wire::raw_frame(id.byte(), payload) + Seq::<u8>::empty() =~= wire::raw_frame(
        id.byte(),
        payload,
    ));
}

/// A frame whose checksum field does not match is refused by both roles.
pub proof fn corrupt_frames_are_refused(data: Seq<u8>)
    requires
        data.len() >= wire::FRAME_OVERHEAD,
        data[0] == wire::PROTOCOL_VERSION,
        data.len() >= wire::frame_length(data) + wire::FRAME_OVERHEAD,
        wire::crc16_xmodem(data.take(4 + wire::frame_length(data))) != wire::frame_crc(data),
    ensures
        parsed_command(data) == Err::<CommandSpec, ResponseStatus>(ResponseStatus::CrcError),
        parsed_response(data) == Err::<ResponseSpec, ParseError>(ParseError::CrcError),
{
}

/// What is read as a text is that text as a field.
proof fn lemma_text_read(c: Cursor, cap: int)
    requires
        c.text(cap).1.failed is None,
        cap <= 255,
    ensures
        c.failed is None,
        c.rest == text_field(c.text(cap).0) + c.text(cap).1.rest,
        octets::utf8(c.text(cap).0).len() <= cap,
{
    reveal(Cursor::text);
    let (n, c1) = c.byte();
    let b = c1.rest.take(n as int);
    decode_utf8_encode_utf8(b);
    assert(c.rest =~= seq![n] + c1.rest);
    assert(c1.rest =~= b + c1.rest.skip(n as int));
    assert(c.rest =~= text_field(c.text(cap).0) + c.text(cap).1.rest);
}

/// The bytes of the number behind four bytes are those bytes.
proof fn lemma_le32_of(a: u8, b: u8, c: u8, d: u8)
    ensures
        octets::le32(octets::from_le32(a, b, c, d)) == seq![a, b, c, d],
{
    let x = octets::from_le32(a, b, c, d);
    assert(x == a + 256 * b + 65_536 * c + 16_777_216 * d);
    assert(x / 256 == b + 256 * c + 65_536 * d);
    assert(x / 65_536 == c + 256 * d);
    assert(octets::le32(x) =~= seq![a, b, c, d]);
}

/// What is read as a 16-bit number is that number as a field.
proof fn lemma_half_read(c: Cursor)
    requires
        c.half().1.failed is None,
    ensures
        c.failed is None,
        c.rest == octets::le16(c.half().0) + c.half().1.rest,
{
    let b = c.rest.take(2);
    assert(octets::le16(octets::from_le16(b[0], b[1])) =~= b);
    assert(c.rest =~= b + c.rest.skip(2));
}

/// What is read as a 32-bit number is that number as a field.
proof fn lemma_word_read(c: Cursor)
    requires
        c.word().1.failed is None,
    ensures
        c.failed is None,
        c.rest == octets::le32(c.word().0) + c.word().1.rest,
{
    let b = c.rest.take(4);
    lemma_le32_of(b[0], b[1], b[2], b[3]);
    assert(b =~= seq![b[0], b[1], b[2], b[3]]);
    assert(c.rest =~= b + c.rest.skip(4));
}

/// What is read as a byte is that byte as a field.
proof fn lemma_byte_read(c: Cursor)
    requires
        c.byte().1.failed is None,
    ensures
        c.failed is None,
        c.rest == seq![c.byte().0] + c.byte().1.rest,
{
    assert(c.rest =~= seq![c.byte().0] + c.byte().1.rest);
}

/// What is read as gateway fields are those settings as fields.
proof fn lemma_gateway_read(c: Cursor, host: Seq<char>)
    requires
        c.gateway().1.failed is None,
    ensures
        c.failed is None,
        c.rest == gateway_prefix(gateway_of(c.gateway().0, host)) + c.gateway().1.rest,
{
    reveal(Cursor::gateway);
    let (_, c1) = c.word();
    let (_, c2) = c1.byte();
    let (_, c3) = c2.word();
    let (_, c4) = c3.byte();
    lemma_half_read(c4);
    lemma_byte_read(c3);
    lemma_word_read(c2);
    lemma_byte_read(c1);
    lemma_word_read(c);
    assert(c.rest =~= gateway_prefix(gateway_of(c.gateway().0, host)) + c.gateway().1.rest);
}

/// A payload is read as a command only if it is the payload of that command and came
/// under its id: nothing is left over, left out or made up.
pub proof fn commands_have_one_payload(id: u8, payload: Seq<u8>, command: CommandSpec)
    requires
        command_of(id, payload) == Ok::<CommandSpec, ResponseStatus>(command),
    ensures
        id == command.id().byte(),
        payload == command_payload(command),
        command.fits(),
{
    lemma_failed_stays();
    let start = Cursor::over(payload);
    match command {
        CommandSpec::SetWifiConfig(_) => {
            let c1 = start.text(32).1;
            lemma_text_read(c1, 64);
            lemma_text_read(start, 32);
        },
        CommandSpec::SetMqttConfig(_) => {
            let c1 = start.half().1;
            let c2 = c1.text(64).1;
            lemma_text_read(c2, 32);
            lemma_text_read(c1, 64);
            lemma_half_read(start);
        },
        CommandSpec::SetMode(_) => {
            lemma_byte_read(start);
        },
        CommandSpec::SetGatewayConfig(gw) => {
            let c1 = start.gateway().1;
            lemma_text_read(c1, 64);
            lemma_gateway_read(start, gw.host);
        },
        _ => {},
    }
    assert(payload =~= command_payload(command));
}

/// A payload is read as a response only if it is the payload of that response and
/// came under its id.
pub proof fn responses_have_one_payload(id: u8, payload: Seq<u8>, response: ResponseSpec)
    requires
        response_of(id, payload) == Ok::<ResponseSpec, ParseError>(response),
    ensures
        id == response.id().byte(),
        payload == response_payload(response),
        response.fits(),
{
    lemma_failed_stays();
    let start = Cursor::over(payload);
    let (first, c1) = start.byte();
    match response {
        ResponseSpec::NetworkConfig(mode, _, _, gw) => {
            let k = c1.check(HubMode::of_byte(first) is Some);
            let c2 = k.half().1;
            let c3 = c2.gateway().1;
            let c4 = c3.text(32).1;
            let c5 = c4.text(64).1;
            let c6 = c5.text(32).1;
            lemma_text_read(c6, 64);
            lemma_text_read(c5, 32);
            lemma_text_read(c4, 64);
            lemma_text_read(c3, 32);
            lemma_gateway_read(c2, gw.host);
            lemma_half_read(k);
            lemma_byte_read(start);
        },
        ResponseSpec::HubStatus(status) => {
            let k = c1.check(LinkState::of_byte(first) is Some);
            let c2 = k.bytes(4).1;
            let c3 = c2.byte().1;
            let l = c3.check(LinkState::of_byte(c2.byte().0) is Some);
            let c4 = l.word().1;
            let c5 = c4.word().1;
            let c6 = c5.word().1;
            lemma_word_read(c6);
            lemma_word_read(c5);
            lemma_word_read(c4);
            lemma_word_read(l);
            lemma_byte_read(c2);
            assert(k.rest =~= status.ip + c2.rest);
            lemma_byte_read(start);
        },
        ResponseSpec::ConfigAck(_) => {
            lemma_byte_read(start);
        },
    }
    assert(payload =~= response_payload(response));
}

/// A frame that is no command is answered with the reason: a wrong version, a wrong
/// checksum, an id outside 0x20 to 0x26, a mode that does not exist, or else a length
/// that does not fit.
pub proof fn bad_commands_are_answered(data: &[u8], r: Result<HubCommand, ResponseStatus>)
    requires
        call_ensures(parse_command, (data,), r),
        r is Err,
    ensures
        match wire::frame_parts(data@) {
            Err(ParseError::InvalidVersion) => r->Err_0 == ResponseStatus::InvalidVersion,
            Err(ParseError::CrcError) => r->Err_0 == ResponseStatus::CrcError,
            Err(_) => r->Err_0 == ResponseStatus::InvalidLength,
            Ok((id, payload)) => if !(0x20 <= id <= 0x26) {
                r->Err_0 == ResponseStatus::InvalidCommand
            } else if id == 0x24 && payload.len() > 0 && payload[0] > 1 {
                r->Err_0 == ResponseStatus::InvalidParameter
            } else {
                r->Err_0 == ResponseStatus::InvalidLength
            },
        },
{
}

/// Every command that a device reads came in a frame with its id and its payload, and
/// every such frame is read as that command.
pub proof fn commands_are_read_from_their_frames(
    data: &[u8],
    r: Result<HubCommand, ResponseStatus>,
    command: CommandSpec,
)
    requires
        call_ensures(parse_command, (data,), r),
        command.fits(),
    ensures
        (r is Ok && r->Ok_0@ == command) <==> wire::frame_parts(data@) == Ok::<
            (u8, Seq<u8>),
            ParseError,
        >((command.id().byte(), command_payload(command))),
{
    lemma_command_of(command);
    if r is Ok {
        let parts = wire::frame_parts(data@)->Ok_0;
        commands_have_one_payload(parts.0, parts.1, r->Ok_0@);
    }
}

/// Every response that a host reads came in a frame with its id and its payload, and
/// every such frame is read as that response.
pub proof fn responses_are_read_from_their_frames(
    data: &[u8],
    r: Result<HubResponse, ParseError>,
    response: ResponseSpec,
)
    requires
        call_ensures(parse_response, (data,), r),
        response.fits(),
    ensures
        (r is Ok && r->Ok_0@ == response) <==> wire::frame_parts(data@) == Ok::<
            (u8, Seq<u8>),
            ParseError,
        >((response.id().byte(), response_payload(response))),
{
    lemma_response_of(response);
    if r is Ok {
        let parts = wire::frame_parts(data@)->Ok_0;
        responses_have_one_payload(parts.0, parts.1, r->Ok_0@);
    }
}

/// The payloads of the commands: texts behind their lengths in one byte, a port in two
/// bytes before the host and the client id, a mode in one byte, and the gateway's
/// frequency in four bytes, spreading factor in one, bandwidth in four, coding rate in
/// one and port in two before its host, low bytes first.
pub proof fn command_payloads_are_laid_out(command: CommandSpec)
    requires
        command.fits(),
    ensures
        match command {
            CommandSpec::SetWifiConfig(wifi) => {
                let p = command_payload(command);
                let n = octets::utf8(wifi.ssid).len() as int;
                &&& p[0] == n && n <= 32
                &&& p.subrange(1, 1 + n) == octets::utf8(wifi.ssid)
                &&& p[1 + n] == octets::utf8(wifi.password).len() && p[1 + n] <= 64
                &&& p.skip(2 + n) == octets::utf8(wifi.password)
            },
            CommandSpec::SetMqttConfig(mqtt) => {
                let p = command_payload(command);
                let n = octets::utf8(mqtt.host).len() as int;
                &&& p[0] + 256 * p[1] == mqtt.port
                &&& p[2] == n && n <= 64
                &&& p.subrange(3, 3 + n) == octets::utf8(mqtt.host)
                &&& p[3 + n] == octets::utf8(mqtt.client_id).len() && p[3 + n] <= 32
                &&& p.skip(4 + n) == octets::utf8(mqtt.client_id)
            },
            CommandSpec::SetMode(mode) => command_payload(command) == seq![
                if mode == HubMode::Bridge {
                    0u8
                } else {
                    1u8
                },
            ],
            CommandSpec::SetGatewayConfig(gw) => {
                let p = command_payload(command);
                &&& p[0] + 256 * p[1] + 65_536 * p[2] + 16_777_216 * p[3] == gw.frequency_hz
                &&& p[4] == gw.spreading_factor
                &&& p[5] + 256 * p[6] + 65_536 * p[7] + 16_777_216 * p[8] == gw.bandwidth_khz
                &&& p[9] == gw.coding_rate
                &&& p[10] + 256 * p[11] == gw.port
                &&& p[12] == octets::utf8(gw.host).len() && p[12] <= 64
                &&& p.skip(13) == octets::utf8(gw.host)
            },
            _ => command_payload(command).len() == 0,
        },
{
}

/// A field stands where what is before it ends.
proof fn lemma_field_at(p: Seq<u8>, at: int, part: Seq<u8>, rest: Seq<u8>)
    requires
        0 <= at <= p.len(),
        p.skip(at) == part + rest,
    ensures
        at + part.len() <= p.len(),
        p.subrange(at, at + part.len()) == part,
        p.skip(at + part.len()) == rest,
{
    assert(p.skip(at).len() == part.len() + rest.len());
    assert forall|i: int| 0 <= i < part.len() implies p[at + i] == part[i] by {
        assert(p.skip(at)[i] == part[i]);
    }
    assert forall|i: int| 0 <= i < rest.len() implies p[at + part.len() + i] == rest[i] by {
        assert(p.skip(at)[part.len() + i] == rest[i]);
    }
    assert(p.subrange(at, at + part.len()) =~= part);
    assert(p.skip(at + part.len()) =~= rest);
}

proof fn lemma_byte_at(p: Seq<u8>, at: int, b: u8, rest: Seq<u8>)
    requires
        0 <= at <= p.len(),
        p.skip(at) == seq![b] + rest,
    ensures
        p.len() > at,
        p[at] == b,
        p.skip(at + 1) == rest,
{
    lemma_field_at(p, at, seq![b], rest);
    assert(p.subrange(at, at + 1)[0] == b);
}

proof fn lemma_half_at(p: Seq<u8>, at: int, x: u16, rest: Seq<u8>)
    requires
        0 <= at <= p.len(),
        p.skip(at) == octets::le16(x) + rest,
    ensures
        p.len() >= at + 2,
        p[at] + 256 * p[at + 1] == x,
        p.skip(at + 2) == rest,
{
    lemma_field_at(p, at, octets::le16(x), rest);
    assert(p.subrange(at, at + 2)[0] == octets::le16(x)[0]);
    assert(p.subrange(at, at + 2)[1] == octets::le16(x)[1]);
}

proof fn lemma_word_at(p: Seq<u8>, at: int, x: u32, rest: Seq<u8>)
    requires
        0 <= at <= p.len(),
        p.skip(at) == octets::le32(x) + rest,
    ensures
        p.len() >= at + 4,
        p[at] + 256 * p[at + 1] + 65_536 * p[at + 2] + 16_777_216 * p[at + 3] == x,
        p.skip(at + 4) == rest,
{
    lemma_field_at(p, at, octets::le32(x), rest);
    assert(p.subrange(at, at + 4)[0] == octets::le32(x)[0]);
    assert(p.subrange(at, at + 4)[1] == octets::le32(x)[1]);
    assert(p.subrange(at, at + 4)[2] == octets::le32(x)[2]);
    assert(p.subrange(at, at + 4)[3] == octets::le32(x)[3]);
}

proof fn lemma_text_at(p: Seq<u8>, at: int, text: Seq<char>, rest: Seq<u8>)
    requires
        0 <= at <= p.len(),
        octets::utf8(text).len() <= 255,
        p.skip(at) == text_field(text) + rest,
    ensures
        p.len() >= at + 1 + octets::utf8(text).len(),
        p[at] == octets::utf8(text).len(),
        p.subrange(at + 1, at + 1 + octets::utf8(text).len()) == octets::utf8(text),
        p.skip(at + 1 + octets::utf8(text).len()) == rest,
{
    let b = octets::utf8(text);
    assert(text_field(text) + rest =~= seq![b.len() as u8] + (b + rest));
    lemma_byte_at(p, at, b.len() as u8, b + rest);
    lemma_field_at(p, at + 1, b, rest);
}

/// Five fields before a rest, however they are bracketed.
proof fn lemma_fields_before(
    a: Seq<u8>,
    b: Seq<u8>,
    c: Seq<u8>,
    d: Seq<u8>,
    e: Seq<u8>,
    rest: Seq<u8>,
)
    ensures
        (a + (b + (c + (d + e)))) + rest == a + (b + (c + (d + (e + rest)))),
{
    assert((a + (b + (c + (d + e)))) + rest =~= a + (b + (c + (d + (e + rest)))));
}

/// Four texts at the end of a payload.
proof fn lemma_texts_at(
    p: Seq<u8>,
    at: int,
    ssid: Seq<char>,
    host: Seq<char>,
    client_id: Seq<char>,
    gw_host: Seq<char>,
)
    requires
        0 <= at <= p.len(),
        octets::utf8(ssid).len() <= 255,
        octets::utf8(host).len() <= 255,
        octets::utf8(client_id).len() <= 255,
        octets::utf8(gw_host).len() <= 255,
        p.skip(at) == text_field(ssid) + (text_field(host) + (text_field(client_id) + text_field(
            gw_host,
        ))),
    ensures
        ({
            let a = octets::utf8(ssid).len() as int;
            let b = octets::utf8(host).len() as int;
            let c = octets::utf8(client_id).len() as int;
            let d = octets::utf8(gw_host).len() as int;
            &&& p.len() == at + 4 + a + b + c + d
            &&& p[at] == a
            &&& p.subrange(at + 1, at + 1 + a) == octets::utf8(ssid)
            &&& p[at + 1 + a] == b
            &&& p.subrange(at + 2 + a, at + 2 + a + b) == octets::utf8(host)
            &&& p[at + 2 + a + b] == c
            &&& p.subrange(at + 3 + a + b, at + 3 + a + b + c) == octets::utf8(client_id)
            &&& p[at + 3 + a + b + c] == d
            &&& p.skip(at + 4 + a + b + c) == octets::utf8(gw_host)
        }),
{
    let none = Seq::<u8>::empty();
    let r3 = text_field(gw_host);
    let r2 = text_field(client_id) + r3;
    let r1 = text_field(host) + r2;
    let a = octets::utf8(ssid).len() as int;
    let b = octets::utf8(host).len() as int;
    let c = octets::utf8(client_id).len() as int;
    let d = octets::utf8(gw_host).len() as int;
    assert(r3 =~= r3 + none);
    lemma_text_at(p, at, ssid, r1);
    lemma_text_at(p, at + 1 + a, host, r2);
    lemma_text_at(p, at + 2 + a + b, client_id, r3);
    lemma_text_at(p, at + 3 + a + b + c, gw_host, none);
    assert(p.skip(at + 4 + a + b + c + d).len() == 0);
    assert(p.skip(at + 4 + a + b + c) =~= p.subrange(at + 4 + a + b + c, at + 4 + a + b + c + d));
}

/// A NetworkConfig payload holds the mode in one byte, the broker's port in two, the
/// gateway's frequency, spreading factor, bandwidth, coding rate and port in four, one,
/// four, one and two, and then the network's name, the broker's host, the client id and
/// the gateway's host, each behind its length.
pub proof fn network_config_payloads_are_laid_out(
    mode: HubMode,
    ssid: Seq<char>,
    mqtt: MqttSpec,
    gw: GatewaySpec,
)
    requires
        ResponseSpec::NetworkConfig(mode, ssid, mqtt, gw).fits(),
    ensures
        ({
            let p = response_payload(ResponseSpec::NetworkConfig(mode, ssid, mqtt, gw));
            let a = octets::utf8(ssid).len() as int;
            let b = octets::utf8(mqtt.host).len() as int;
            let c = octets::utf8(mqtt.client_id).len() as int;
            let d = octets::utf8(gw.host).len() as int;
            &&& p.len() == 19 + a + b + c + d
            &&& p[0] == (if mode == HubMode::Bridge {
                0int
            } else {
                1int
            })
            &&& p[1] + 256 * p[2] == mqtt.port
            &&& p[3] + 256 * p[4] + 65_536 * p[5] + 16_777_216 * p[6] == gw.frequency_hz
            &&& p[7] == gw.spreading_factor
            &&& p[8] + 256 * p[9] + 65_536 * p[10] + 16_777_216 * p[11] == gw.bandwidth_khz
            &&& p[12] == gw.coding_rate
            &&& p[13] + 256 * p[14] == gw.port
            &&& p[15] == a
            &&& p.subrange(16, 16 + a) == octets::utf8(ssid)
            &&& p[16 + a] == b
            &&& p.subrange(17 + a, 17 + a + b) == octets::utf8(mqtt.host)
            &&& p[17 + a + b] == c
            &&& p.subrange(18 + a + b, 18 + a + b + c) == octets::utf8(mqtt.client_id)
            &&& p[18 + a + b + c] == d
            &&& p.skip(19 + a + b + c) == octets::utf8(gw.host)
        }),
{
    let p = response_payload(ResponseSpec::NetworkConfig(mode, ssid, mqtt, gw));
    let r7 = text_field(ssid) + (text_field(mqtt.host) + (text_field(mqtt.client_id) + text_field(
        gw.host,
    )));
    let r6 = octets::le16(gw.port) + r7;
    let r5 = seq![gw.coding_rate] + r6;
    let r4 = octets::le32(gw.bandwidth_khz) + r5;
    let r3 = seq![gw.spreading_factor] + r4;
    let r2 = octets::le32(gw.frequency_hz) + r3;
    let r1 = octets::le16(mqtt.port) + r2;
    lemma_fields_before(
        octets::le32(gw.frequency_hz),
        seq![gw.spreading_factor],
        octets::le32(gw.bandwidth_khz),
        seq![gw.coding_rate],
        octets::le16(gw.port),
        r7,
    );
    assert(p.skip(0) =~= p);
    lemma_byte_at(p, 0, mode.byte(), r1);
    lemma_half_at(p, 1, mqtt.port, r2);
    lemma_word_at(p, 3, gw.frequency_hz, r3);
    lemma_byte_at(p, 7, gw.spreading_factor, r4);
    lemma_word_at(p, 8, gw.bandwidth_khz, r5);
    lemma_byte_at(p, 12, gw.coding_rate, r6);
    lemma_half_at(p, 13, gw.port, r7);
    lemma_texts_at(p, 15, ssid, mqtt.host, mqtt.client_id, gw.host);
}


/// A HubStatus payload holds the state of the WiFi link, the address, the state of the
/// MQTT session, and the uplinks, downlinks, drops and seconds of uptime in four bytes
/// each, low byte first. A ConfigAck payload is its status.
pub proof fn status_payloads_are_laid_out(status: StatusSpec, ack: AckStatus)
    requires
        status.ip.len() == 4,
    ensures
        ({
            let p = response_payload(ResponseSpec::HubStatus(status));
            &&& p.len() == 22
            &&& LinkState::of_byte(p[0]) == Some(status.wifi_state)
            &&& p.subrange(1, 5) == status.ip
            &&& LinkState::of_byte(p[5]) == Some(status.mqtt_state)
            &&& p[6] + 256 * p[7] + 65_536 * p[8] + 16_777_216 * p[9] == status.uplink_count
            &&& p[10] + 256 * p[11] + 65_536 * p[12] + 16_777_216 * p[13] == status.downlink_count
            &&& p[14] + 256 * p[15] + 65_536 * p[16] + 16_777_216 * p[17] == status.dropped_count
            &&& p[18] + 256 * p[19] + 65_536 * p[20] + 16_777_216 * p[21] == status.uptime_secs
        }),
        ({
            let p = response_payload(ResponseSpec::ConfigAck(ack));
            p.len() == 1 && AckStatus::of_byte(p[0]) == Some(ack)
        }),
{
    let p = response_payload(ResponseSpec::HubStatus(status));
    let r6 = octets::le32(status.uptime_secs);
    let r5 = octets::le32(status.dropped_count) + r6;
    let r4 = octets::le32(status.downlink_count) + r5;
    let r3 = octets::le32(status.uplink_count) + r4;
    let r2 = seq![status.mqtt_state.byte()] + r3;
    assert(p.skip(0) =~= p);
    lemma_byte_at(p, 0, status.wifi_state.byte(), status.ip + r2);
    lemma_field_at(p, 1, status.ip, r2);
    lemma_byte_at(p, 5, status.mqtt_state.byte(), r3);
    lemma_word_at(p, 6, status.uplink_count, r4);
    lemma_word_at(p, 10, status.downlink_count, r5);
    lemma_word_at(p, 14, status.dropped_count, r6);
    assert(r6 =~= r6 + Seq::<u8>::empty());
    lemma_word_at(p, 18, status.uptime_secs, Seq::empty());
    assert(p.skip(22).len() == 0);
}


/// What the other side decodes of an encoded message is a frame with its id and payload.
pub proof fn encoded_messages_arrive(
    command: &HubCommand,
    c: Bytes<300>,
    response: &HubResponse,
    r: Bytes<300>,
)
    requires
        call_ensures(encode_command, (command,), c),
        call_ensures(encode_response, (response,), r),
        command@.fits(),
        response@.fits(),
    ensures
        wire::cobs_decoded(c@) matches Some(frame) && wire::frame_parts(frame) == Ok::<
            (u8, Seq<u8>),
            ParseError,
        >((command@.id().byte(), command_payload(command@))) && parsed_command(frame) == Ok::<
            CommandSpec,
            ResponseStatus,
        >(command@),
        wire::cobs_decoded(r@) matches Some(frame) && wire::frame_parts(frame) == Ok::<
            (u8, Seq<u8>),
            ParseError,
        >((response@.id().byte(), response_payload(response@))) && parsed_response(frame) == Ok::<
            ResponseSpec,
            ParseError,
        >(response@),
{
    lemma_command_payload_len(command@);
    lemma_response_payload_len(response@);
    commands_round_trip(command@);
    responses_round_trip(response@);
    let sent = wire::raw_frame(command@.id().byte(), command_payload(command@));
    let answered = wire::raw_frame(response@.id().byte(), response_payload(response@));
    wire::raw_frame_round_trip(command@.id().byte(), command_payload(command@), Seq::empty());
    wire::raw_frame_round_trip(response@.id().byte(), response_payload(response@), Seq::empty());
    assert(sent + Seq::<u8>::empty() =~= sent);
    assert(answered + Seq::<u8>::empty() =~= answered);
}

} // verus!
