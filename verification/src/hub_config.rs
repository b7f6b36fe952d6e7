//! Hub configuration: build-time defaults with a stored override.
//!
//! Defaults are baked at build time so a hub can ship pre-provisioned; anything
//! set at runtime over the host link is persisted and takes precedence on the
//! next boot. Settings apply at boot only (reboot after changing them).
use crate::bounded::Text;
use crate::decimal;
use crate::hub_protocol::types::{
    AckStatus, CommandSpec, GatewaySettings, GatewaySpec, HubCommand, HubMode, HubResponse,
    MqttSettings, MqttSpec, ResponseSpec, WifiSettings, WifiSpec,
};
use crate::octets;
use vstd::prelude::*;

verus! {

/// Bump when the stored layout changes; a mismatch falls back to defaults.
pub const CONFIG_SCHEMA_VERSION: u8 = 1;

/// MQTT port of a hub that was not told another one.
pub const DEFAULT_MQTT_PORT: u16 = 1883;

/// The full persisted hub configuration.
#[derive(PartialEq)]
pub struct HubConfig {
    /// Schema version of the stored layout.
    pub version: u8,
    /// Operating mode.
    pub mode: HubMode,
    /// WiFi credentials.
    pub wifi: WifiSettings,
    /// Broker settings.
    pub mqtt: MqttSettings,
    /// Gateway settings.
    pub gateway: GatewaySettings,
}

/// What a [`HubConfig`] holds.
pub struct ConfigSpec {
    /// Schema version of the stored layout.
    pub version: u8,
    /// Operating mode.
    pub mode: HubMode,
    /// WiFi credentials.
    pub wifi: WifiSpec,
    /// Broker settings.
    pub mqtt: MqttSpec,
    /// Gateway settings.
    pub gateway: GatewaySpec,
}

impl View for HubConfig {
    type V = ConfigSpec;

    open spec fn view(&self) -> ConfigSpec {
        ConfigSpec {
            version: self.version,
            mode: self.mode,
            wifi: self.wifi@,
            mqtt: self.mqtt@,
            gateway: self.gateway@,
        }
    }
}

impl Clone for HubConfig {
    fn clone(&self) -> (r: Self)
        ensures
            r@ == self@,
    {
        HubConfig {
            version: self.version,
            mode: self.mode,
            wifi: self.wifi.clone(),
            mqtt: self.mqtt.clone(),
            gateway: self.gateway.clone(),
        }
    }
}

/// Settings fixed at build time, each of them optional.
pub struct BakedSettings<'a> {
    /// WiFi network name.
    pub wifi_ssid: Option<&'a str>,
    /// WiFi password.
    pub wifi_password: Option<&'a str>,
    /// Broker host.
    pub mqtt_host: Option<&'a str>,
    /// Broker port in decimal.
    pub mqtt_port: Option<&'a str>,
    /// MQTT client id.
    pub mqtt_client_id: Option<&'a str>,
    /// `bridge` or `gateway`.
    pub mode: Option<&'a str>,
    /// Network server host.
    pub gw_host: Option<&'a str>,
    /// Network server port in decimal.
    pub gw_port: Option<&'a str>,
}

/// A baked text: empty when unset or over the cap of its field.
pub open spec fn baked_text(value: Option<&str>, cap: int) -> Seq<char> {
    match value {
        Some(text) => if octets::utf8(text@).len() <= cap {
            text@
        } else {
            Seq::empty()
        },
        None => Seq::empty(),
    }
}

/// A baked port, if it is set and spells a 16-bit number.
pub open spec fn baked_port(value: Option<&str>) -> Option<u16> {
    match value {
        Some(text) => match decimal::parsed(octets::utf8(text@), u16::MAX as nat) {
            Some(n) => Some(n as u16),
            None => None,
        },
        None => None,
    }
}

/// A baked mode: the gateway only when asked for by name.
pub open spec fn baked_mode(value: Option<&str>) -> HubMode {
    match value {
        Some(text) => if text@ == "gateway"@ {
            HubMode::LorawanGateway
        } else {
            HubMode::Bridge
        },
        None => HubMode::Bridge,
    }
}

impl<'a> BakedSettings<'a> {
    /// The configuration of a hub on which nothing is stored.
    pub open spec fn config(self) -> ConfigSpec {
        ConfigSpec {
            version: CONFIG_SCHEMA_VERSION,
            mode: baked_mode(self.mode),
            wifi: WifiSpec {
                ssid: baked_text(self.wifi_ssid, 32),
                password: baked_text(self.wifi_password, 64),
            },
            mqtt: MqttSpec {
                host: baked_text(self.mqtt_host, 64),
                port: match baked_port(self.mqtt_port) {
                    Some(port) => port,
                    None => DEFAULT_MQTT_PORT,
                },
                client_id: baked_text(self.mqtt_client_id, 32),
            },
            gateway: GatewaySpec {
                host: baked_text(self.gw_host, 64),
                port: match baked_port(self.gw_port) {
                    Some(port) => port,
                    None => GatewaySpec::standard().port,
                },
                ..GatewaySpec::standard()
            },
        }
    }
}

/// A baked string, empty when unset or over the field cap.
pub fn baked_str<const N: usize>(value: Option<&str>) -> (r: Text<N>)
    ensures
        r@ == baked_text(value, N as int),
{
    match value {
        Some(text) => match Text::try_from(text) {
            Ok(held) => held,
            Err(_) => Text::new(),
        },
        None => Text::new(),
    }
}

/// A port in decimal, if the value is one.
pub fn parse_port(value: Option<&str>) -> (r: Option<u16>)
    ensures
        r == baked_port(value),
{
    match value {
        Some(text) => match decimal::parse(text.as_bytes(), u16::MAX as u64) {
            Some(port) => Some(port as u16),
            None => None,
        },
        None => None,
    }
}

/// The operating mode by name.
pub fn parse_mode(value: Option<&str>) -> (r: HubMode)
    ensures
        r == baked_mode(value),
{
    match value {
        Some(text) => if octets::same_text(text, "gateway") {
            HubMode::LorawanGateway
        } else {
            HubMode::Bridge
        },
        None => HubMode::Bridge,
    }
}

impl ConfigSpec {
    /// The configuration of a hub with nothing baked in and nothing stored.
    pub open spec fn standard() -> ConfigSpec {
        ConfigSpec {
            version: CONFIG_SCHEMA_VERSION,
            mode: HubMode::Bridge,
            wifi: WifiSpec::empty(),
            mqtt: MqttSpec { port: DEFAULT_MQTT_PORT, ..MqttSpec::empty() },
            gateway: GatewaySpec::standard(),
        }
    }
}

impl Default for HubConfig {
    /// The configuration of a hub with nothing baked in.
    fn default() -> (r: Self)
        ensures
            r@ == ConfigSpec::standard(),
    {
        HubConfig {
            version: CONFIG_SCHEMA_VERSION,
            mode: HubMode::Bridge,
            wifi: WifiSettings::default(),
            mqtt: MqttSettings {
                host: Text::new(),
                port: DEFAULT_MQTT_PORT,
                client_id: Text::new(),
            },
            gateway: GatewaySettings::default(),
        }
    }
}

impl HubConfig {
    /// The build-time defaults (all optional).
    pub fn from_baked(baked: &BakedSettings) -> (r: Self)
        ensures
            r@ == baked.config(),
    {
        let standard: GatewaySettings = GatewaySettings::default();
        HubConfig {
            version: CONFIG_SCHEMA_VERSION,
            mode: parse_mode(baked.mode),
            wifi: WifiSettings {
                ssid: baked_str(baked.wifi_ssid),
                password: baked_str(baked.wifi_password),
            },
            mqtt: MqttSettings {
                host: baked_str(baked.mqtt_host),
                port: match parse_port(baked.mqtt_port) {
                    Some(port) => port,
                    None => DEFAULT_MQTT_PORT,
                },
                client_id: baked_str(baked.mqtt_client_id),
            },
            gateway: GatewaySettings {
                frequency_hz: standard.frequency_hz,
                spreading_factor: standard.spreading_factor,
                bandwidth_khz: standard.bandwidth_khz,
                coding_rate: standard.coding_rate,
                host: baked_str(baked.gw_host),
                port: match parse_port(baked.gw_port) {
                    Some(port) => port,
                    None => standard.port,
                },
            },
        }
    }

    /// WiFi is only attempted once an SSID exists.
    pub fn wifi_provisioned(&self) -> (r: bool)
        ensures
            r == (self@.wifi.ssid.len() > 0),
    {
        !self.wifi.ssid.is_empty()
    }
}

/// Which configuration is active: a stored one wins over the defaults, unless
/// its schema version does not match.
pub open spec fn selected(stored: Option<ConfigSpec>, defaults: ConfigSpec) -> ConfigSpec {
    match stored {
        Some(config) => if config.version == CONFIG_SCHEMA_VERSION {
            config
        } else {
            defaults
        },
        None => defaults,
    }
}

/// Pick the active configuration: a stored value wins over the baked
/// defaults, unless its schema version does not match.
pub fn select_config(stored: Option<HubConfig>, defaults: HubConfig) -> (r: HubConfig)
    ensures
        r@ == selected(
            match stored {
                Some(config) => Some(config@),
                None => None,
            },
            defaults@,
        ),
{
    match stored {
        Some(config) => if config.version == CONFIG_SCHEMA_VERSION {
            config
        } else {
            defaults
        },
        None => defaults,
    }
}

/// Storage operation a hub command requires after validation.
#[derive(Debug, Clone, Copy, PartialEq, Eq, Structural)]
pub enum ConfigAction {
    /// Read-only command; nothing to persist.
    Nothing,
    /// Persist the updated config.
    Save,
    /// Erase the stored config.
    Clear,
}

/// A storage operation failed.
#[derive(Debug, Clone, Copy, PartialEq, Eq, Structural)]
pub enum StoreError {
    /// No partition table or no nvs partition on this flash layout.
    NoNvsPartition,
    /// The nvs partition cannot host a sequential-storage map.
    BadPartition,
    /// A flash read/write/erase failed.
    Flash,
}

/// Whether gateway settings can be applied: a frequency the radio can tune to,
/// a permitted modulation, and a port.
pub open spec fn gateway_valid(gw: GatewaySpec) -> bool {
    &&& 150_000_000 <= gw.frequency_hz <= 960_000_000
    &&& 7 <= gw.spreading_factor <= 12
    &&& gw.bandwidth_khz == 125 || gw.bandwidth_khz == 250 || gw.bandwidth_khz == 500
    &&& 5 <= gw.coding_rate <= 8
    &&& gw.port != 0
}

/// What a command makes of the pending configuration, and the storage
/// operation it requires, or the status to report.
pub open spec fn applied(
    pending: ConfigSpec,
    command: CommandSpec,
    defaults: ConfigSpec,
) -> (ConfigSpec, Result<ConfigAction, AckStatus>) {
    match command {
        CommandSpec::SetWifiConfig(wifi) => (
            ConfigSpec { wifi, ..pending },
            Ok(ConfigAction::Save),
        ),
        CommandSpec::SetMqttConfig(mqtt) => if mqtt.port == 0 {
            (pending, Err(AckStatus::InvalidValue))
        } else {
            (ConfigSpec { mqtt, ..pending }, Ok(ConfigAction::Save))
        },
        CommandSpec::SetGatewayConfig(gateway) => if !gateway_valid(gateway) {
            (pending, Err(AckStatus::InvalidValue))
        } else {
            (ConfigSpec { gateway, ..pending }, Ok(ConfigAction::Save))
        },
        CommandSpec::SetMode(mode) => (ConfigSpec { mode, ..pending }, Ok(ConfigAction::Save)),
        CommandSpec::ClearNetworkConfig => (defaults, Ok(ConfigAction::Clear)),
        CommandSpec::GetNetworkConfig | CommandSpec::GetHubStatus => (
            pending,
            Ok(ConfigAction::Nothing),
        ),
    }
}

/// Apply a hub command to the pending configuration. On a validation error
/// the config is left untouched and the ack status to report is returned.
pub fn apply_command(pending: &mut HubConfig, command: &HubCommand, defaults: &HubConfig) -> (r:
    Result<ConfigAction, AckStatus>)
    ensures
        (final(pending)@, r) == applied(old(pending)@, command@, defaults@),
{
    match command {
        HubCommand::SetWifiConfig(wifi) => {
            pending.wifi = wifi.clone();
            Ok(ConfigAction::Save)
        },
        HubCommand::SetMqttConfig(mqtt) => {
            if mqtt.port == 0 {
                return Err(AckStatus::InvalidValue);
            }
            pending.mqtt = mqtt.clone();
            Ok(ConfigAction::Save)
        },
        HubCommand::SetGatewayConfig(gw) => {
            if !gateway_settings_valid(gw) {
                return Err(AckStatus::InvalidValue);
            }
            pending.gateway = gw.clone();
            Ok(ConfigAction::Save)
        },
        HubCommand::SetMode { mode } => {
            pending.mode = *mode;
            Ok(ConfigAction::Save)
        },
        HubCommand::ClearNetworkConfig => {
            *pending = defaults.clone();
            Ok(ConfigAction::Clear)
        },
        HubCommand::GetNetworkConfig | HubCommand::GetHubStatus => Ok(ConfigAction::Nothing),
    }
}

fn gateway_settings_valid(gw: &GatewaySettings) -> (r: bool)
    ensures
        r == gateway_valid(gw@),
{
    let freq_ok: bool = 150_000_000 <= gw.frequency_hz && gw.frequency_hz <= 960_000_000;
    let sf_ok: bool = 7 <= gw.spreading_factor && gw.spreading_factor <= 12;
    let bw_ok: bool = gw.bandwidth_khz == 125 || gw.bandwidth_khz == 250 || gw.bandwidth_khz == 500;
    let cr_ok: bool = 5 <= gw.coding_rate && gw.coding_rate <= 8;
    freq_ok && sf_ok && bw_ok && cr_ok && gw.port != 0
}

/// The `GetNetworkConfig` reply for a configuration.
pub open spec fn network_config(config: ConfigSpec) -> ResponseSpec {
    ResponseSpec::NetworkConfig(config.mode, config.wifi.ssid, config.mqtt, config.gateway)
}

/// The `GetNetworkConfig` reply for a configuration. Never includes the WiFi
/// password.
pub fn network_config_response(config: &HubConfig) -> (r: HubResponse)
    ensures
        r@ == network_config(config@),
{
    HubResponse::NetworkConfig {
        mode: config.mode,
        wifi_ssid: config.wifi.ssid.clone(),
        mqtt: config.mqtt.clone(),
        gateway: config.gateway.clone(),
    }
}

/// A configuration with another WiFi password.
pub open spec fn with_password(config: ConfigSpec, password: Seq<char>) -> ConfigSpec {
    ConfigSpec { wifi: WifiSpec { password, ..config.wifi }, ..config }
}

/// The reply to `GetNetworkConfig` says nothing of the WiFi password: it is
/// the same whatever the password is, and so is its frame.
pub proof fn network_config_hides_the_password(config: ConfigSpec, password: Seq<char>)
    ensures
        network_config(with_password(config, password)) == network_config(config),
        crate::hub_protocol::codec::response_payload(
            network_config(with_password(config, password)),
        ) == crate::hub_protocol::codec::response_payload(network_config(config)),
{
}

/// A refused command leaves the configuration untouched.
pub proof fn refused_command_changes_nothing(
    pending: ConfigSpec,
    command: CommandSpec,
    defaults: ConfigSpec,
)
    ensures
        applied(pending, command, defaults).1 is Err ==> applied(pending, command, defaults).0
            == pending,
{
}

/// Commands keep the gateway settings valid and the broker port set.
pub proof fn commands_keep_settings_valid(
    pending: ConfigSpec,
    command: CommandSpec,
    defaults: ConfigSpec,
)
    requires
        gateway_valid(pending.gateway),
        gateway_valid(defaults.gateway),
        pending.mqtt.port != 0,
        defaults.mqtt.port != 0,
    ensures
        gateway_valid(applied(pending, command, defaults).0.gateway),
        applied(pending, command, defaults).0.mqtt.port != 0,
{
}

/// Commands never change the schema version, so that what they save is read
/// back at the next boot.
pub proof fn saved_config_is_selected(
    pending: ConfigSpec,
    command: CommandSpec,
    defaults: ConfigSpec,
)
    requires
        pending.version == CONFIG_SCHEMA_VERSION,
        defaults.version == CONFIG_SCHEMA_VERSION,
    ensures
        selected(Some(applied(pending, command, defaults).0), defaults) == applied(
            pending,
            command,
            defaults,
        ).0,
{
}

/// What a command does to the configuration: it sets the group of settings that
/// it is for to what it says, and nothing else, and is to be saved. A broker
/// without a port is refused. Clearing goes back to the defaults, and reading
/// changes nothing.
pub proof fn commands_set_their_own_settings(
    pending: &mut HubConfig,
    command: &HubCommand,
    defaults: &HubConfig,
    r: Result<ConfigAction, AckStatus>,
)
    requires
        call_ensures(apply_command, (pending, command, defaults), r),
    ensures
        ({
            let before = old(pending)@;
            let after = final(pending)@;
            match command@ {
                CommandSpec::SetWifiConfig(wifi) => {
                    &&& r == Ok::<ConfigAction, AckStatus>(ConfigAction::Save)
                    &&& after.wifi == wifi
                    &&& after.mode == before.mode && after.mqtt == before.mqtt && after.gateway
                        == before.gateway
                    &&& after.version == before.version
                },
                CommandSpec::SetMqttConfig(mqtt) => {
                    &&& mqtt.port == 0 ==> r == Err::<ConfigAction, AckStatus>(
                        AckStatus::InvalidValue,
                    ) && after == before
                    &&& mqtt.port != 0 ==> r == Ok::<ConfigAction, AckStatus>(ConfigAction::Save)
                        && after.mqtt == mqtt
                    &&& after.mode == before.mode && after.wifi == before.wifi && after.gateway
                        == before.gateway
                    &&& after.version == before.version
                },
                CommandSpec::SetGatewayConfig(gateway) => {
                    &&& r is Err ==> r->Err_0 == AckStatus::InvalidValue && after == before
                    &&& r is Ok ==> r->Ok_0 == ConfigAction::Save && after.gateway == gateway
                    &&& after.mode == before.mode && after.wifi == before.wifi && after.mqtt
                        == before.mqtt
                    &&& after.version == before.version
                },
                CommandSpec::SetMode(mode) => {
                    &&& r == Ok::<ConfigAction, AckStatus>(ConfigAction::Save)
                    &&& after.mode == mode
                    &&& after.wifi == before.wifi && after.mqtt == before.mqtt && after.gateway
                        == before.gateway
                    &&& after.version == before.version
                },
                CommandSpec::ClearNetworkConfig => r == Ok::<ConfigAction, AckStatus>(
                    ConfigAction::Clear,
                ) && after == defaults@,
                CommandSpec::GetNetworkConfig | CommandSpec::GetHubStatus => r == Ok::<
                    ConfigAction,
                    AckStatus,
                >(ConfigAction::Nothing) && after == before,
            }
        }),
{
}

/// Gateway settings are taken exactly if the radio can tune to the frequency
/// (150 to 960 MHz), the spreading factor is 7 to 12, the bandwidth 125, 250 or
/// 500 kHz, the coding rate 4/5 to 4/8, and the server has a port.
pub proof fn gateway_settings_are_checked(
    pending: ConfigSpec,
    gateway: GatewaySpec,
    defaults: ConfigSpec,
)
    ensures
        applied(pending, CommandSpec::SetGatewayConfig(gateway), defaults).1 is Ok <==> {
            &&& 150_000_000 <= gateway.frequency_hz <= 960_000_000
            &&& 7 <= gateway.spreading_factor <= 12
            &&& gateway.bandwidth_khz == 125 || gateway.bandwidth_khz == 250
                || gateway.bandwidth_khz == 500
            &&& 5 <= gateway.coding_rate <= 8
            &&& gateway.port > 0
        },
{
}

/// A stored configuration is used if its layout is version 1, else the defaults.
pub proof fn stored_configurations_win(stored: ConfigSpec, defaults: ConfigSpec)
    ensures
        stored.version == 1 ==> selected(Some(stored), defaults) == stored,
        stored.version != 1 ==> selected(Some(stored), defaults) == defaults,
        selected(None, defaults) == defaults,
{
}

/// Settings fixed at build time are the defaults: each text that fits its field
/// as it is and otherwise as none, ports that are numbers as they are and
/// otherwise 1883 for the broker and 1700 for the network server, and the gateway
/// mode only by its name. The radio channel of the gateway is the standard one.
pub proof fn baked_settings_are_the_defaults(baked: BakedSettings, text: &str, port: u16)
    ensures
        ({
            let config = baked.config();
            &&& config.version == 1
            &&& config.gateway.frequency_hz == 868_100_000 && config.gateway.spreading_factor == 7
            &&& config.gateway.bandwidth_khz == 125 && config.gateway.coding_rate == 5
            &&& baked.wifi_ssid is None ==> config.wifi.ssid.len() == 0
            &&& baked.wifi_ssid == Some(text) && octets::utf8(text@).len() <= 32
                ==> config.wifi.ssid == text@
            &&& baked.wifi_ssid == Some(text) && octets::utf8(text@).len() > 32
                ==> config.wifi.ssid.len() == 0
            &&& baked.wifi_password is None ==> config.wifi.password.len() == 0
            &&& baked.wifi_password == Some(text) && octets::utf8(text@).len() <= 64
                ==> config.wifi.password == text@
            &&& baked.mqtt_host is None ==> config.mqtt.host.len() == 0
            &&& baked.mqtt_host == Some(text) && octets::utf8(text@).len() <= 64
                ==> config.mqtt.host == text@
            &&& baked.mqtt_client_id is None ==> config.mqtt.client_id.len() == 0
            &&& baked.mqtt_client_id == Some(text) && octets::utf8(text@).len() <= 32
                ==> config.mqtt.client_id == text@
            &&& baked.gw_host is None ==> config.gateway.host.len() == 0
            &&& baked.gw_host == Some(text) && octets::utf8(text@).len() <= 64
                ==> config.gateway.host == text@
            &&& baked.mqtt_port is None ==> config.mqtt.port == 1883
            &&& baked.mqtt_port == Some(text) && octets::utf8(text@) == decimal::digits(port as nat)
                ==> config.mqtt.port == port
            &&& baked.gw_port is None ==> config.gateway.port == 1700
            &&& baked.gw_port == Some(text) && octets::utf8(text@) == decimal::digits(port as nat)
                ==> config.gateway.port == port
            &&& baked.mode is None ==> config.mode == HubMode::Bridge
            &&& baked.mode == Some(text) ==> (config.mode == HubMode::LorawanGateway <==> text@
                == "gateway"@)
        }),
{
    decimal::lemma_digits_parsed(port as nat);
}

/// The reply to `GetNetworkConfig` tells the mode, the network name, the broker
/// and the gateway settings as they are.
pub proof fn network_config_tells_the_settings(config: &HubConfig, r: HubResponse)
    requires
        call_ensures(network_config_response, (config,), r),
    ensures
        r matches HubResponse::NetworkConfig { mode, wifi_ssid, mqtt, gateway } && mode
            == config.mode && wifi_ssid@ == config.wifi.ssid@ && mqtt@ == config.mqtt@ && gateway@
            == config.gateway@,
{
}

/// A hub has a network to join exactly if it has a name for it.
pub proof fn networks_need_a_name(config: &HubConfig, r: bool)
    requires
        call_ensures(HubConfig::wifi_provisioned, (config,), r),
    ensures
        r <==> config@.wifi.ssid.len() > 0,
{
}

} // verus!
