//! Hub command and response types.
use crate::bounded::Text;
use crate::octets;
use vstd::prelude::*;

verus! {

/// Maximum WiFi SSID length in bytes.
pub const MAX_SSID_LEN: usize = 32;

/// Maximum WiFi password length in bytes.
pub const MAX_PASSWORD_LEN: usize = 64;

/// Maximum broker / network-server hostname length in bytes.
pub const MAX_HOST_LEN: usize = 64;

/// Maximum MQTT client id length in bytes.
pub const MAX_CLIENT_ID_LEN: usize = 32;

/// Hub command IDs (host -> hub), reserved block 0x20..=0x2F.
#[derive(Debug, Clone, Copy, PartialEq, Eq, Structural)]
pub enum HubCommandId {
    /// Set WiFi credentials.
    SetWifiConfig,
    /// Set MQTT broker settings.
    SetMqttConfig,
    /// Read the stored network configuration (password never included).
    GetNetworkConfig,
    /// Read live hub status (link states, counters, uptime).
    GetHubStatus,
    /// Select the operating mode (bridge / LoRaWAN gateway).
    SetMode,
    /// Erase all stored network configuration.
    ClearNetworkConfig,
    /// Set LoRaWAN gateway radio and network-server settings.
    SetGatewayConfig,
}

impl HubCommandId {
    /// The id on the wire.
    pub open spec fn byte(self) -> u8 {
        match self {
            HubCommandId::SetWifiConfig => 0x20,
            HubCommandId::SetMqttConfig => 0x21,
            HubCommandId::GetNetworkConfig => 0x22,
            HubCommandId::GetHubStatus => 0x23,
            HubCommandId::SetMode => 0x24,
            HubCommandId::ClearNetworkConfig => 0x25,
            HubCommandId::SetGatewayConfig => 0x26,
        }
    }

    /// The id on the wire.
    pub fn to_byte(self) -> (r: u8)
        ensures
            r == self.byte(),
    {
        match self {
            HubCommandId::SetWifiConfig => 0x20,
            HubCommandId::SetMqttConfig => 0x21,
            HubCommandId::GetNetworkConfig => 0x22,
            HubCommandId::GetHubStatus => 0x23,
            HubCommandId::SetMode => 0x24,
            HubCommandId::ClearNetworkConfig => 0x25,
            HubCommandId::SetGatewayConfig => 0x26,
        }
    }

    /// The command id behind a byte, if there is one.
    pub fn from_byte(byte: u8) -> (r: Option<Self>)
        ensures
            match r {
                Some(id) => id.byte() == byte,
                None => forall|id: Self| id.byte() != byte,
            },
    {
        match byte {
            0x20 => Some(HubCommandId::SetWifiConfig),
            0x21 => Some(HubCommandId::SetMqttConfig),
            0x22 => Some(HubCommandId::GetNetworkConfig),
            0x23 => Some(HubCommandId::GetHubStatus),
            0x24 => Some(HubCommandId::SetMode),
            0x25 => Some(HubCommandId::ClearNetworkConfig),
            0x26 => Some(HubCommandId::SetGatewayConfig),
            _ => None,
        }
    }
}

/// Hub response IDs (hub -> host), reserved block 0x20..=0x2F.
#[derive(Debug, Clone, Copy, PartialEq, Eq, Structural)]
pub enum HubResponseId {
    /// The stored configuration.
    NetworkConfig,
    /// The live status.
    HubStatus,
    /// The outcome of a set or clear command.
    ConfigAck,
}

impl HubResponseId {
    /// The id on the wire.
    pub open spec fn byte(self) -> u8 {
        match self {
            HubResponseId::NetworkConfig => 0x20,
            HubResponseId::HubStatus => 0x21,
            HubResponseId::ConfigAck => 0x22,
        }
    }

    /// The id on the wire.
    pub fn to_byte(self) -> (r: u8)
        ensures
            r == self.byte(),
    {
        match self {
            HubResponseId::NetworkConfig => 0x20,
            HubResponseId::HubStatus => 0x21,
            HubResponseId::ConfigAck => 0x22,
        }
    }

    /// The response id behind a byte, if there is one.
    pub fn from_byte(byte: u8) -> (r: Option<Self>)
        ensures
            match r {
                Some(id) => id.byte() == byte,
                None => forall|id: Self| id.byte() != byte,
            },
    {
        match byte {
            0x20 => Some(HubResponseId::NetworkConfig),
            0x21 => Some(HubResponseId::HubStatus),
            0x22 => Some(HubResponseId::ConfigAck),
            _ => None,
        }
    }
}

/// Hub operating mode.
#[derive(Debug, Clone, Copy, PartialEq, Eq, Structural)]
pub enum HubMode {
    /// Raw LoRa <-> MQTT bridge (walkie-textie packets).
    Bridge,
    /// Single-channel LoRaWAN gateway (Semtech UDP packet forwarder).
    LorawanGateway,
}

impl Default for HubMode {
    fn default() -> (r: Self)
        ensures
            r == HubMode::Bridge,
    {
        HubMode::Bridge
    }
}

impl HubMode {
    /// The mode on the wire.
    pub open spec fn byte(self) -> u8 {
        match self {
            HubMode::Bridge => 0,
            HubMode::LorawanGateway => 1,
        }
    }

    /// The mode on the wire.
    pub fn to_byte(self) -> (r: u8)
        ensures
            r == self.byte(),
    {
        match self {
            HubMode::Bridge => 0,
            HubMode::LorawanGateway => 1,
        }
    }

    /// The mode behind a byte, if there is one.
    pub open spec fn of_byte(byte: u8) -> Option<HubMode> {
        if byte == 0 {
            Some(HubMode::Bridge)
        } else if byte == 1 {
            Some(HubMode::LorawanGateway)
        } else {
            None
        }
    }

    /// The mode behind a byte, if there is one.
    pub fn from_byte(byte: u8) -> (r: Option<Self>)
        ensures
            r == Self::of_byte(byte),
            match r {
                Some(mode) => mode.byte() == byte,
                None => forall|mode: Self| mode.byte() != byte,
            },
    {
        match byte {
            0 => Some(HubMode::Bridge),
            1 => Some(HubMode::LorawanGateway),
            _ => None,
        }
    }
}

/// State of a network link (WiFi association or MQTT session).
#[derive(Debug, Clone, Copy, PartialEq, Eq, Structural)]
pub enum LinkState {
    /// No configuration stored; the link is not attempted.
    Unprovisioned,
    /// An attempt is under way.
    Connecting,
    /// The link is up.
    Connected,
    /// The link was lost or could not be made.
    Disconnected,
}

impl Default for LinkState {
    fn default() -> (r: Self)
        ensures
            r == LinkState::Unprovisioned,
    {
        LinkState::Unprovisioned
    }
}

impl LinkState {
    /// The state on the wire.
    pub open spec fn byte(self) -> u8 {
        match self {
            LinkState::Unprovisioned => 0,
            LinkState::Connecting => 1,
            LinkState::Connected => 2,
            LinkState::Disconnected => 3,
        }
    }

    /// The state on the wire.
    pub fn to_byte(self) -> (r: u8)
        ensures
            r == self.byte(),
    {
        match self {
            LinkState::Unprovisioned => 0,
            LinkState::Connecting => 1,
            LinkState::Connected => 2,
            LinkState::Disconnected => 3,
        }
    }

    /// The state behind a byte, if there is one.
    pub open spec fn of_byte(byte: u8) -> Option<LinkState> {
        if byte == 0 {
            Some(LinkState::Unprovisioned)
        } else if byte == 1 {
            Some(LinkState::Connecting)
        } else if byte == 2 {
            Some(LinkState::Connected)
        } else if byte == 3 {
            Some(LinkState::Disconnected)
        } else {
            None
        }
    }

    /// The state behind a byte, if there is one.
    pub fn from_byte(byte: u8) -> (r: Option<Self>)
        ensures
            r == Self::of_byte(byte),
            match r {
                Some(state) => state.byte() == byte,
                None => forall|state: Self| state.byte() != byte,
            },
    {
        match byte {
            0 => Some(LinkState::Unprovisioned),
            1 => Some(LinkState::Connecting),
            2 => Some(LinkState::Connected),
            3 => Some(LinkState::Disconnected),
            _ => None,
        }
    }
}

/// Outcome of a set/clear configuration command.
#[derive(Debug, Clone, Copy, PartialEq, Eq, Structural)]
pub enum AckStatus {
    /// The setting is stored.
    Success,
    /// The value was rejected (e.g. port 0, out-of-range radio parameter).
    InvalidValue,
    /// Persisting to flash failed; the setting is not stored.
    StorageError,
}

impl AckStatus {
    /// The status on the wire.
    pub open spec fn byte(self) -> u8 {
        match self {
            AckStatus::Success => 0,
            AckStatus::InvalidValue => 1,
            AckStatus::StorageError => 2,
        }
    }

    /// The status on the wire.
    pub fn to_byte(self) -> (r: u8)
        ensures
            r == self.byte(),
    {
        match self {
            AckStatus::Success => 0,
            AckStatus::InvalidValue => 1,
            AckStatus::StorageError => 2,
        }
    }

    /// The status behind a byte, if there is one.
    pub open spec fn of_byte(byte: u8) -> Option<AckStatus> {
        if byte == 0 {
            Some(AckStatus::Success)
        } else if byte == 1 {
            Some(AckStatus::InvalidValue)
        } else if byte == 2 {
            Some(AckStatus::StorageError)
        } else {
            None
        }
    }

    /// The status behind a byte, if there is one.
    pub fn from_byte(byte: u8) -> (r: Option<Self>)
        ensures
            r == Self::of_byte(byte),
            match r {
                Some(status) => status.byte() == byte,
                None => forall|status: Self| status.byte() != byte,
            },
    {
        match byte {
            0 => Some(AckStatus::Success),
            1 => Some(AckStatus::InvalidValue),
            2 => Some(AckStatus::StorageError),
            _ => None,
        }
    }
}

/// WiFi credentials.
#[derive(PartialEq)]
pub struct WifiSettings {
    /// Network name.
    pub ssid: Text<32>,
    /// Pre-shared key.
    pub password: Text<64>,
}

/// What [`WifiSettings`] hold.
pub struct WifiSpec {
    /// Network name.
    pub ssid: Seq<char>,
    /// Pre-shared key.
    pub password: Seq<char>,
}

impl View for WifiSettings {
    type V = WifiSpec;

    open spec fn view(&self) -> WifiSpec {
        WifiSpec { ssid: self.ssid@, password: self.password@ }
    }
}

impl WifiSpec {
    /// No credentials.
    pub open spec fn empty() -> WifiSpec {
        WifiSpec { ssid: Seq::empty(), password: Seq::empty() }
    }

    /// Every field fits its place.
    pub open spec fn fits(self) -> bool {
        octets::utf8(self.ssid).len() <= MAX_SSID_LEN && octets::utf8(self.password).len()
            <= MAX_PASSWORD_LEN
    }
}

impl Default for WifiSettings {
    fn default() -> (r: Self)
        ensures
            r@ == WifiSpec::empty(),
    {
        WifiSettings { ssid: Text::new(), password: Text::new() }
    }
}

impl Clone for WifiSettings {
    fn clone(&self) -> (r: Self)
        ensures
            r@ == self@,
    {
        WifiSettings { ssid: self.ssid.clone(), password: self.password.clone() }
    }
}

/// MQTT broker settings.
#[derive(PartialEq)]
pub struct MqttSettings {
    /// Broker host name or address.
    pub host: Text<64>,
    /// Broker port.
    pub port: u16,
    /// Empty means derive `wt-hub-XXXXXX` from the device id.
    pub client_id: Text<32>,
}

/// What [`MqttSettings`] hold.
pub struct MqttSpec {
    /// Broker host name or address.
    pub host: Seq<char>,
    /// Broker port.
    pub port: u16,
    /// Client id, empty for the derived one.
    pub client_id: Seq<char>,
}

impl View for MqttSettings {
    type V = MqttSpec;

    open spec fn view(&self) -> MqttSpec {
        MqttSpec { host: self.host@, port: self.port, client_id: self.client_id@ }
    }
}

impl MqttSpec {
    /// No broker.
    pub open spec fn empty() -> MqttSpec {
        MqttSpec { host: Seq::empty(), port: 0, client_id: Seq::empty() }
    }

    /// Every field fits its place.
    pub open spec fn fits(self) -> bool {
        octets::utf8(self.host).len() <= MAX_HOST_LEN && octets::utf8(self.client_id).len()
            <= MAX_CLIENT_ID_LEN
    }
}

impl Default for MqttSettings {
    fn default() -> (r: Self)
        ensures
            r@ == MqttSpec::empty(),
    {
        MqttSettings { host: Text::new(), port: 0, client_id: Text::new() }
    }
}

impl Clone for MqttSettings {
    fn clone(&self) -> (r: Self)
        ensures
            r@ == self@,
    {
        MqttSettings {
            host: self.host.clone(),
            port: self.port,
            client_id: self.client_id.clone(),
        }
    }
}

/// LoRaWAN gateway radio and network-server settings.
#[derive(PartialEq)]
pub struct GatewaySettings {
    /// Uplink listen frequency.
    pub frequency_hz: u32,
    /// Spreading factor of the uplink channel.
    pub spreading_factor: u8,
    /// Bandwidth of the uplink channel.
    pub bandwidth_khz: u32,
    /// Coding rate denominator (5 for 4/5).
    pub coding_rate: u8,
    /// Semtech UDP network server (e.g. ChirpStack gateway bridge).
    pub host: Text<64>,
    /// Port of the network server.
    pub port: u16,
}

/// What [`GatewaySettings`] hold.
pub struct GatewaySpec {
    /// Uplink listen frequency.
    pub frequency_hz: u32,
    /// Spreading factor of the uplink channel.
    pub spreading_factor: u8,
    /// Bandwidth of the uplink channel.
    pub bandwidth_khz: u32,
    /// Coding rate denominator.
    pub coding_rate: u8,
    /// Network server host.
    pub host: Seq<char>,
    /// Network server port.
    pub port: u16,
}

impl View for GatewaySettings {
    type V = GatewaySpec;

    open spec fn view(&self) -> GatewaySpec {
        GatewaySpec {
            frequency_hz: self.frequency_hz,
            spreading_factor: self.spreading_factor,
            bandwidth_khz: self.bandwidth_khz,
            coding_rate: self.coding_rate,
            host: self.host@,
            port: self.port,
        }
    }
}

impl GatewaySpec {
    /// EU868 single-channel gateway convention: 868.1 MHz SF7BW125 CR4/5, and
    /// no network server.
    pub open spec fn standard() -> GatewaySpec {
        GatewaySpec {
            frequency_hz: 868_100_000,
            spreading_factor: 7,
            bandwidth_khz: 125,
            coding_rate: 5,
            host: Seq::empty(),
            port: 1700,
        }
    }

    /// Every field fits its place.
    pub open spec fn fits(self) -> bool {
        octets::utf8(self.host).len() <= MAX_HOST_LEN
    }
}

impl Default for GatewaySettings {
    fn default() -> (r: Self)
        ensures
            r@ == GatewaySpec::standard(),
    {
        GatewaySettings {
            frequency_hz: 868_100_000,
            spreading_factor: 7,
            bandwidth_khz: 125,
            coding_rate: 5,
            host: Text::new(),
            port: 1700,
        }
    }
}

impl Clone for GatewaySettings {
    fn clone(&self) -> (r: Self)
        ensures
            r@ == self@,
    {
        GatewaySettings {
            frequency_hz: self.frequency_hz,
            spreading_factor: self.spreading_factor,
            bandwidth_khz: self.bandwidth_khz,
            coding_rate: self.coding_rate,
            host: self.host.clone(),
            port: self.port,
        }
    }
}

/// Live hub status snapshot.
#[derive(Debug, Clone, Copy, PartialEq, Eq)]
pub struct HubStatus {
    /// State of the WiFi link.
    pub wifi_state: LinkState,
    /// Station IPv4 address, zeroes when not connected.
    pub ip: [u8; 4],
    /// State of the MQTT session.
    pub mqtt_state: LinkState,
    /// LoRa packets published to MQTT / forwarded to the network server.
    pub uplink_count: u32,
    /// LoRa transmissions performed for MQTT / network-server requests.
    pub downlink_count: u32,
    /// Messages dropped because a queue was full or a link was down.
    pub dropped_count: u32,
    /// Seconds since boot.
    pub uptime_secs: u32,
}

impl Default for HubStatus {
    fn default() -> (r: Self)
        ensures
            r.wifi_state == LinkState::Unprovisioned,
            r.ip@ == seq![0u8, 0, 0, 0],
            r.mqtt_state == LinkState::Unprovisioned,
            r.uplink_count == 0,
            r.downlink_count == 0,
            r.dropped_count == 0,
            r.uptime_secs == 0,
    {
        HubStatus {
            wifi_state: LinkState::Unprovisioned,
            ip: [0, 0, 0, 0],
            mqtt_state: LinkState::Unprovisioned,
            uplink_count: 0,
            downlink_count: 0,
            dropped_count: 0,
            uptime_secs: 0,
        }
    }
}

/// What a [`HubStatus`] holds.
pub struct StatusSpec {
    /// State of the WiFi link.
    pub wifi_state: LinkState,
    /// Station IPv4 address.
    pub ip: Seq<u8>,
    /// State of the MQTT session.
    pub mqtt_state: LinkState,
    /// Uplinks.
    pub uplink_count: u32,
    /// Downlinks.
    pub downlink_count: u32,
    /// Dropped messages.
    pub dropped_count: u32,
    /// Seconds since boot.
    pub uptime_secs: u32,
}

impl View for HubStatus {
    type V = StatusSpec;

    open spec fn view(&self) -> StatusSpec {
        StatusSpec {
            wifi_state: self.wifi_state,
            ip: self.ip@,
            mqtt_state: self.mqtt_state,
            uplink_count: self.uplink_count,
            downlink_count: self.downlink_count,
            dropped_count: self.dropped_count,
            uptime_secs: self.uptime_secs,
        }
    }
}

/// A hub command parsed from (or to be sent over) the wire.
#[derive(PartialEq)]
pub enum HubCommand {
    /// Set WiFi credentials.
    SetWifiConfig(WifiSettings),
    /// Set MQTT broker settings.
    SetMqttConfig(MqttSettings),
    /// Read the stored network configuration.
    GetNetworkConfig,
    /// Read live hub status.
    GetHubStatus,
    /// Select the operating mode.
    SetMode {
        /// The mode to operate in.
        mode: HubMode,
    },
    /// Erase all stored network configuration.
    ClearNetworkConfig,
    /// Set LoRaWAN gateway settings.
    SetGatewayConfig(GatewaySettings),
}

/// What a [`HubCommand`] says.
pub enum CommandSpec {
    /// Set WiFi credentials.
    SetWifiConfig(WifiSpec),
    /// Set MQTT broker settings.
    SetMqttConfig(MqttSpec),
    /// Read the stored network configuration.
    GetNetworkConfig,
    /// Read live hub status.
    GetHubStatus,
    /// Select the operating mode.
    SetMode(HubMode),
    /// Erase all stored network configuration.
    ClearNetworkConfig,
    /// Set LoRaWAN gateway settings.
    SetGatewayConfig(GatewaySpec),
}

impl View for HubCommand {
    type V = CommandSpec;

    open spec fn view(&self) -> CommandSpec {
        match self {
            HubCommand::SetWifiConfig(wifi) => CommandSpec::SetWifiConfig(wifi@),
            HubCommand::SetMqttConfig(mqtt) => CommandSpec::SetMqttConfig(mqtt@),
            HubCommand::GetNetworkConfig => CommandSpec::GetNetworkConfig,
            HubCommand::GetHubStatus => CommandSpec::GetHubStatus,
            HubCommand::SetMode { mode } => CommandSpec::SetMode(*mode),
            HubCommand::ClearNetworkConfig => CommandSpec::ClearNetworkConfig,
            HubCommand::SetGatewayConfig(gw) => CommandSpec::SetGatewayConfig(gw@),
        }
    }
}

impl CommandSpec {
    /// The id of the command.
    pub open spec fn id(self) -> HubCommandId {
        match self {
            CommandSpec::SetWifiConfig(_) => HubCommandId::SetWifiConfig,
            CommandSpec::SetMqttConfig(_) => HubCommandId::SetMqttConfig,
            CommandSpec::GetNetworkConfig => HubCommandId::GetNetworkConfig,
            CommandSpec::GetHubStatus => HubCommandId::GetHubStatus,
            CommandSpec::SetMode(_) => HubCommandId::SetMode,
            CommandSpec::ClearNetworkConfig => HubCommandId::ClearNetworkConfig,
            CommandSpec::SetGatewayConfig(_) => HubCommandId::SetGatewayConfig,
        }
    }

    /// Every field fits its place.
    pub open spec fn fits(self) -> bool {
        match self {
            CommandSpec::SetWifiConfig(wifi) => wifi.fits(),
            CommandSpec::SetMqttConfig(mqtt) => mqtt.fits(),
            CommandSpec::SetGatewayConfig(gw) => gw.fits(),
            _ => true,
        }
    }
}

impl HubCommand {
    /// The id of the command.
    pub fn id(&self) -> (r: HubCommandId)
        ensures
            r == self@.id(),
    {
        match self {
            HubCommand::SetWifiConfig(_) => HubCommandId::SetWifiConfig,
            HubCommand::SetMqttConfig(_) => HubCommandId::SetMqttConfig,
            HubCommand::GetNetworkConfig => HubCommandId::GetNetworkConfig,
            HubCommand::GetHubStatus => HubCommandId::GetHubStatus,
            HubCommand::SetMode { .. } => HubCommandId::SetMode,
            HubCommand::ClearNetworkConfig => HubCommandId::ClearNetworkConfig,
            HubCommand::SetGatewayConfig(_) => HubCommandId::SetGatewayConfig,
        }
    }
}

impl Clone for HubCommand {
    fn clone(&self) -> (r: Self)
        ensures
            r@ == self@,
    {
        match self {
            HubCommand::SetWifiConfig(wifi) => HubCommand::SetWifiConfig(wifi.clone()),
            HubCommand::SetMqttConfig(mqtt) => HubCommand::SetMqttConfig(mqtt.clone()),
            HubCommand::GetNetworkConfig => HubCommand::GetNetworkConfig,
            HubCommand::GetHubStatus => HubCommand::GetHubStatus,
            HubCommand::SetMode { mode } => HubCommand::SetMode { mode: *mode },
            HubCommand::ClearNetworkConfig => HubCommand::ClearNetworkConfig,
            HubCommand::SetGatewayConfig(gw) => HubCommand::SetGatewayConfig(gw.clone()),
        }
    }
}

/// A hub response parsed from (or to be sent over) the wire.
#[derive(PartialEq)]
pub enum HubResponse {
    /// The stored configuration. The WiFi password is never echoed.
    NetworkConfig {
        /// Operating mode.
        mode: HubMode,
        /// WiFi network name.
        wifi_ssid: Text<32>,
        /// Broker settings.
        mqtt: MqttSettings,
        /// Gateway settings.
        gateway: GatewaySettings,
    },
    /// The live status.
    HubStatus(HubStatus),
    /// Acknowledges a set/clear command.
    ConfigAck {
        /// The outcome.
        status: AckStatus,
    },
}

/// What a [`HubResponse`] says.
pub enum ResponseSpec {
    /// The stored configuration.
    NetworkConfig(HubMode, Seq<char>, MqttSpec, GatewaySpec),
    /// The live status.
    HubStatus(StatusSpec),
    /// The outcome of a set or clear command.
    ConfigAck(AckStatus),
}

impl View for HubResponse {
    type V = ResponseSpec;

    open spec fn view(&self) -> ResponseSpec {
        match self {
            HubResponse::NetworkConfig { mode, wifi_ssid, mqtt, gateway } =>
                ResponseSpec::NetworkConfig(*mode, wifi_ssid@, mqtt@, gateway@),
            HubResponse::HubStatus(status) => ResponseSpec::HubStatus(status@),
            HubResponse::ConfigAck { status } => ResponseSpec::ConfigAck(*status),
        }
    }
}

impl ResponseSpec {
    /// The id of the response.
    pub open spec fn id(self) -> HubResponseId {
        match self {
            ResponseSpec::NetworkConfig(_, _, _, _) => HubResponseId::NetworkConfig,
            ResponseSpec::HubStatus(_) => HubResponseId::HubStatus,
            ResponseSpec::ConfigAck(_) => HubResponseId::ConfigAck,
        }
    }

    /// Every field fits its place.
    pub open spec fn fits(self) -> bool {
        match self {
            ResponseSpec::NetworkConfig(_, ssid, mqtt, gateway) => octets::utf8(ssid).len()
                <= MAX_SSID_LEN && mqtt.fits() && gateway.fits(),
            ResponseSpec::HubStatus(status) => status.ip.len() == 4,
            ResponseSpec::ConfigAck(_) => true,
        }
    }
}

/// The ids on the wire: commands from 0x20 to 0x26, responses from 0x20 to 0x22.
pub proof fn message_ids()
    ensures
        HubCommandId::SetWifiConfig.byte() == 0x20,
        HubCommandId::SetMqttConfig.byte() == 0x21,
        HubCommandId::GetNetworkConfig.byte() == 0x22,
        HubCommandId::GetHubStatus.byte() == 0x23,
        HubCommandId::SetMode.byte() == 0x24,
        HubCommandId::ClearNetworkConfig.byte() == 0x25,
        HubCommandId::SetGatewayConfig.byte() == 0x26,
        HubResponseId::NetworkConfig.byte() == 0x20,
        HubResponseId::HubStatus.byte() == 0x21,
        HubResponseId::ConfigAck.byte() == 0x22,
{
}

/// The values on the wire: 0 is the bridge and 1 the gateway; links go from
/// unprovisioned over connecting and connected to disconnected; and a command
/// succeeded, had an invalid value or could not be stored.
pub proof fn state_bytes()
    ensures
        HubMode::Bridge.byte() == 0 && HubMode::LorawanGateway.byte() == 1,
        LinkState::Unprovisioned.byte() == 0 && LinkState::Connecting.byte() == 1,
        LinkState::Connected.byte() == 2 && LinkState::Disconnected.byte() == 3,
        AckStatus::Success.byte() == 0 && AckStatus::InvalidValue.byte() == 1,
        AckStatus::StorageError.byte() == 2,
        forall|mode: HubMode| HubMode::of_byte(#[trigger] mode.byte()) == Some(mode),
        forall|state: LinkState| LinkState::of_byte(#[trigger] state.byte()) == Some(state),
        forall|status: AckStatus| AckStatus::of_byte(#[trigger] status.byte()) == Some(status),
        forall|b: u8| b > 1 ==> #[trigger] HubMode::of_byte(b) is None,
        forall|b: u8| b > 3 ==> #[trigger] LinkState::of_byte(b) is None,
        forall|b: u8| b > 2 ==> #[trigger] AckStatus::of_byte(b) is None,
{
}

/// A gateway that was not told otherwise listens on 868.1 MHz with SF7, 125 kHz
/// and 4/5, and has no network server but port 1700.
pub proof fn gateway_defaults()
    ensures
        GatewaySpec::standard().frequency_hz == 868_100_000,
        GatewaySpec::standard().spreading_factor == 7,
        GatewaySpec::standard().bandwidth_khz == 125,
        GatewaySpec::standard().coding_rate == 5,
        GatewaySpec::standard().host.len() == 0,
        GatewaySpec::standard().port == 1700,
        WifiSpec::empty().ssid.len() == 0 && WifiSpec::empty().password.len() == 0,
        MqttSpec::empty().host.len() == 0 && MqttSpec::empty().client_id.len() == 0,
{
}

/// A command goes out under its own id.
pub proof fn commands_have_their_ids(wifi: WifiSpec, mqtt: MqttSpec, gw: GatewaySpec, mode: HubMode)
    ensures
        CommandSpec::SetWifiConfig(wifi).id().byte() == 0x20,
        CommandSpec::SetMqttConfig(mqtt).id().byte() == 0x21,
        CommandSpec::GetNetworkConfig.id().byte() == 0x22,
        CommandSpec::GetHubStatus.id().byte() == 0x23,
        CommandSpec::SetMode(mode).id().byte() == 0x24,
        CommandSpec::ClearNetworkConfig.id().byte() == 0x25,
        CommandSpec::SetGatewayConfig(gw).id().byte() == 0x26,
{
}

/// A response goes out under its own id.
pub proof fn responses_have_their_ids(
    mode: HubMode,
    ssid: Seq<char>,
    mqtt: MqttSpec,
    gw: GatewaySpec,
    status: StatusSpec,
    ack: AckStatus,
)
    ensures
        ResponseSpec::NetworkConfig(mode, ssid, mqtt, gw).id().byte() == 0x20,
        ResponseSpec::HubStatus(status).id().byte() == 0x21,
        ResponseSpec::ConfigAck(ack).id().byte() == 0x22,
{
}

} // verus!
