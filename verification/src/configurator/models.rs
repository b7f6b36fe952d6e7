//! Typed views of the hub's provisioning API.
use vstd::prelude::*;

verus! {

/// `GET /api/config` (the hub never includes the WiFi password).
#[derive(Debug, PartialEq, Eq)]
pub struct HubConfigView {
    /// Operating mode by name.
    pub mode: String,
    /// WiFi network name.
    pub wifi_ssid: String,
    /// Broker host.
    pub mqtt_host: String,
    /// Broker port.
    pub mqtt_port: u16,
    /// MQTT client id.
    pub client_id: String,
    /// Uplink frequency.
    pub gw_freq_hz: u32,
    /// Uplink spreading factor.
    pub gw_sf: u8,
    /// Uplink bandwidth.
    pub gw_bw_khz: u32,
    /// Uplink coding rate.
    pub gw_cr: u8,
    /// Network server host.
    pub gw_host: String,
    /// Network server port.
    pub gw_port: u16,
}

/// What a [`HubConfigView`] says.
#[verifier::ext_equal]
pub struct ConfigViewSpec {
    /// Operating mode by name.
    pub mode: Seq<char>,
    /// WiFi network name.
    pub wifi_ssid: Seq<char>,
    /// Broker host.
    pub mqtt_host: Seq<char>,
    /// Broker port.
    pub mqtt_port: u16,
    /// MQTT client id.
    pub client_id: Seq<char>,
    /// Uplink frequency.
    pub gw_freq_hz: u32,
    /// Uplink spreading factor.
    pub gw_sf: u8,
    /// Uplink bandwidth.
    pub gw_bw_khz: u32,
    /// Uplink coding rate.
    pub gw_cr: u8,
    /// Network server host.
    pub gw_host: Seq<char>,
    /// Network server port.
    pub gw_port: u16,
}

impl View for HubConfigView {
    type V = ConfigViewSpec;

    open spec fn view(&self) -> ConfigViewSpec {
        ConfigViewSpec {
            mode: self.mode@,
            wifi_ssid: self.wifi_ssid@,
            mqtt_host: self.mqtt_host@,
            mqtt_port: self.mqtt_port,
            client_id: self.client_id@,
            gw_freq_hz: self.gw_freq_hz,
            gw_sf: self.gw_sf,
            gw_bw_khz: self.gw_bw_khz,
            gw_cr: self.gw_cr,
            gw_host: self.gw_host@,
            gw_port: self.gw_port,
        }
    }
}

impl Clone for HubConfigView {
    fn clone(&self) -> (r: Self)
        ensures
            r@ == self@,
    {
        HubConfigView {
            mode: self.mode.clone(),
            wifi_ssid: self.wifi_ssid.clone(),
            mqtt_host: self.mqtt_host.clone(),
            mqtt_port: self.mqtt_port,
            client_id: self.client_id.clone(),
            gw_freq_hz: self.gw_freq_hz,
            gw_sf: self.gw_sf,
            gw_bw_khz: self.gw_bw_khz,
            gw_cr: self.gw_cr,
            gw_host: self.gw_host.clone(),
            gw_port: self.gw_port,
        }
    }
}

/// `GET /api/status`.
#[derive(Debug, PartialEq, Eq)]
pub struct HubStatusView {
    /// State of the WiFi link.
    pub wifi_state: u8,
    /// State of the MQTT session.
    pub mqtt_state: u8,
    /// Station address.
    pub ip: String,
    /// Uplinks.
    pub uplink: u32,
    /// Downlinks.
    pub downlink: u32,
    /// Dropped messages.
    pub dropped: u32,
    /// Seconds since boot.
    pub uptime_secs: u32,
}

/// What a [`HubStatusView`] says.
#[verifier::ext_equal]
pub struct StatusViewSpec {
    /// State of the WiFi link.
    pub wifi_state: u8,
    /// State of the MQTT session.
    pub mqtt_state: u8,
    /// Station address.
    pub ip: Seq<char>,
    /// Uplinks.
    pub uplink: u32,
    /// Downlinks.
    pub downlink: u32,
    /// Dropped messages.
    pub dropped: u32,
    /// Seconds since boot.
    pub uptime_secs: u32,
}

impl View for HubStatusView {
    type V = StatusViewSpec;

    open spec fn view(&self) -> StatusViewSpec {
        StatusViewSpec {
            wifi_state: self.wifi_state,
            mqtt_state: self.mqtt_state,
            ip: self.ip@,
            uplink: self.uplink,
            downlink: self.downlink,
            dropped: self.dropped,
            uptime_secs: self.uptime_secs,
        }
    }
}

impl Clone for HubStatusView {
    fn clone(&self) -> (r: Self)
        ensures
            r@ == self@,
    {
        HubStatusView {
            wifi_state: self.wifi_state,
            mqtt_state: self.mqtt_state,
            ip: self.ip.clone(),
            uplink: self.uplink,
            downlink: self.downlink,
            dropped: self.dropped,
            uptime_secs: self.uptime_secs,
        }
    }
}

/// `POST /api/config` body: only the present fields change.
#[derive(Debug, PartialEq, Eq)]
pub struct ConfigUpdate {
    /// WiFi network name.
    pub wifi_ssid: Option<String>,
    /// WiFi password.
    pub wifi_password: Option<String>,
    /// Broker host.
    pub mqtt_host: Option<String>,
    /// Broker port.
    pub mqtt_port: Option<u16>,
    /// MQTT client id.
    pub client_id: Option<String>,
    /// Operating mode by name.
    pub mode: Option<String>,
    /// Uplink frequency.
    pub gw_freq_hz: Option<u32>,
    /// Uplink spreading factor.
    pub gw_sf: Option<u8>,
    /// Uplink bandwidth.
    pub gw_bw_khz: Option<u32>,
    /// Uplink coding rate.
    pub gw_cr: Option<u8>,
    /// Network server host.
    pub gw_host: Option<String>,
    /// Network server port.
    pub gw_port: Option<u16>,
}

/// What a [`ConfigUpdate`] says.
pub struct UpdateSpec {
    /// WiFi network name.
    pub wifi_ssid: Option<Seq<char>>,
    /// WiFi password.
    pub wifi_password: Option<Seq<char>>,
    /// Broker host.
    pub mqtt_host: Option<Seq<char>>,
    /// Broker port.
    pub mqtt_port: Option<u16>,
    /// MQTT client id.
    pub client_id: Option<Seq<char>>,
    /// Operating mode by name.
    pub mode: Option<Seq<char>>,
    /// Uplink frequency.
    pub gw_freq_hz: Option<u32>,
    /// Uplink spreading factor.
    pub gw_sf: Option<u8>,
    /// Uplink bandwidth.
    pub gw_bw_khz: Option<u32>,
    /// Uplink coding rate.
    pub gw_cr: Option<u8>,
    /// Network server host.
    pub gw_host: Option<Seq<char>>,
    /// Network server port.
    pub gw_port: Option<u16>,
}

/// The characters of an optional text.
pub open spec fn chars_of(text: Option<String>) -> Option<Seq<char>> {
    match text {
        Some(text) => Some(text@),
        None => None,
    }
}

impl View for ConfigUpdate {
    type V = UpdateSpec;

    open spec fn view(&self) -> UpdateSpec {
        UpdateSpec {
            wifi_ssid: chars_of(self.wifi_ssid),
            wifi_password: chars_of(self.wifi_password),
            mqtt_host: chars_of(self.mqtt_host),
            mqtt_port: self.mqtt_port,
            client_id: chars_of(self.client_id),
            mode: chars_of(self.mode),
            gw_freq_hz: self.gw_freq_hz,
            gw_sf: self.gw_sf,
            gw_bw_khz: self.gw_bw_khz,
            gw_cr: self.gw_cr,
            gw_host: chars_of(self.gw_host),
            gw_port: self.gw_port,
        }
    }
}

impl UpdateSpec {
    /// An update without any field.
    pub open spec fn empty() -> UpdateSpec {
        UpdateSpec {
            wifi_ssid: None,
            wifi_password: None,
            mqtt_host: None,
            mqtt_port: None,
            client_id: None,
            mode: None,
            gw_freq_hz: None,
            gw_sf: None,
            gw_bw_khz: None,
            gw_cr: None,
            gw_host: None,
            gw_port: None,
        }
    }
}

impl Default for ConfigUpdate {
    fn default() -> (r: Self)
        ensures
            r@ == UpdateSpec::empty(),
    {
        ConfigUpdate {
            wifi_ssid: None,
            wifi_password: None,
            mqtt_host: None,
            mqtt_port: None,
            client_id: None,
            mode: None,
            gw_freq_hz: None,
            gw_sf: None,
            gw_bw_khz: None,
            gw_cr: None,
            gw_host: None,
            gw_port: None,
        }
    }
}

fn copied_text(text: &Option<String>) -> (r: Option<String>)
    ensures
        chars_of(r) == chars_of(*text),
{
    match text {
        Some(text) => Some(text.clone()),
        None => None,
    }
}

impl Clone for ConfigUpdate {
    fn clone(&self) -> (r: Self)
        ensures
            r@ == self@,
    {
        ConfigUpdate {
            wifi_ssid: copied_text(&self.wifi_ssid),
            wifi_password: copied_text(&self.wifi_password),
            mqtt_host: copied_text(&self.mqtt_host),
            mqtt_port: self.mqtt_port,
            client_id: copied_text(&self.client_id),
            mode: copied_text(&self.mode),
            gw_freq_hz: self.gw_freq_hz,
            gw_sf: self.gw_sf,
            gw_bw_khz: self.gw_bw_khz,
            gw_cr: self.gw_cr,
            gw_host: copied_text(&self.gw_host),
            gw_port: self.gw_port,
        }
    }
}

/// `POST /api/config` reply.
#[derive(Debug, Clone, Copy, PartialEq, Eq, Structural)]
pub struct ApplyOutcome {
    /// Whether the update was applied.
    pub ok: bool,
    /// Whether the hub restarts to apply it.
    pub rebooting: bool,
}

/// Both halves of what the connect screen needs in one round trip.
#[derive(Debug, PartialEq, Eq)]
pub struct HubSnapshot {
    /// The configuration.
    pub config: HubConfigView,
    /// The live status.
    pub status: HubStatusView,
}

impl Clone for HubSnapshot {
    fn clone(&self) -> (r: Self)
        ensures
            r.config@ == self.config@,
            r.status@ == self.status@,
    {
        HubSnapshot { config: self.config.clone(), status: self.status.clone() }
    }
}

} // verus!
