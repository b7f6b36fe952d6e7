//! WiFi manager decisions: station connection with backoff, and the provisioning
//! access point.
//!
//! Unprovisioned hubs (no SSID) start straight in access point mode so a phone
//! can join `LoRaMqttHub-XXXXXX` and configure them. Provisioned hubs run as a
//! station; if the network stays unreachable through repeated attempts the hub
//! falls back to the access point.
use crate::bounded::Text;
use crate::hex;
use crate::hub_config::HubConfig;
use crate::hub_protocol::types::{LinkState, StatusSpec};
use crate::net::station;
use crate::net::station::{StationAction, StationSpec, StationSupervisor};
use crate::net::stats::HubStats;
use crate::octets;
use vstd::prelude::*;

verus! {

/// Name prefix of the provisioning access point.
pub const AP_SSID_PREFIX: &'static str = "LoRaMqttHub-";

/// The name of the provisioning access point: the prefix and the device id in
/// upper case hex.
pub fn access_point_ssid(device_id: [u8; 3]) -> (r: Text<32>)
    ensures
        r@ == AP_SSID_PREFIX@ + hex::device_chars(device_id@),
{
    proof {
        reveal_strlit("LoRaMqttHub-");
        reveal_strlit("");
        vstd::utf8::is_ascii_chars_encode_utf8("LoRaMqttHub-"@);
        vstd::utf8::is_ascii_chars_encode_utf8(""@);
    }
    let name: Text<32> = hex::device_name(AP_SSID_PREFIX, device_id, "");
    assert(name@ =~= AP_SSID_PREFIX@ + hex::device_chars(device_id@));
    name
}

/// Whether the configured network is joined without authentication: when no
/// password is set.
pub fn open_network(config: &HubConfig) -> (r: bool)
    ensures
        r == (config@.wifi.password.len() == 0),
{
    config.wifi.password.is_empty()
}

/// What the WiFi task does next.
#[derive(Debug, Clone, Copy, PartialEq, Eq, Structural)]
pub enum WifiStep {
    /// Run the provisioning access point from now on.
    AccessPoint,
    /// Apply the station configuration, which starts the driver.
    Start,
    /// Associate with the configured network.
    Connect,
}

/// What follows an attempt to associate.
#[derive(Debug, Clone, Copy, PartialEq, Eq, Structural)]
pub enum ConnectStep {
    /// Stay until the network is lost.
    Stay,
    /// Wait this many seconds before the next attempt.
    Pause(u32),
}

/// The manager.
pub struct WifiManager {
    provisioned: bool,
    supervisor: StationSupervisor,
}

/// The manager as a mathematical value.
pub struct ManagerSpec {
    /// Whether there is a network to join.
    pub provisioned: bool,
    /// The station.
    pub station: StationSpec,
}

impl View for WifiManager {
    type V = ManagerSpec;

    closed spec fn view(&self) -> ManagerSpec {
        ManagerSpec { provisioned: self.provisioned, station: self.supervisor@ }
    }
}

impl ManagerSpec {
    /// What the task does next.
    pub open spec fn step(self) -> WifiStep {
        if !self.provisioned {
            WifiStep::AccessPoint
        } else {
            match self.station.action() {
                StationAction::FallbackToAccessPoint => WifiStep::AccessPoint,
                StationAction::Start => WifiStep::Start,
                StationAction::Connect => WifiStep::Connect,
            }
        }
    }
}

/// The link state that a step is reported as, if it changes.
pub open spec fn reported(step: WifiStep) -> Option<LinkState> {
    match step {
        WifiStep::AccessPoint => Some(LinkState::Unprovisioned),
        WifiStep::Start => None,
        WifiStep::Connect => Some(LinkState::Connecting),
    }
}

/// A status with another WiFi state, if there is one.
pub open spec fn with_wifi(status: StatusSpec, state: Option<LinkState>) -> StatusSpec {
    match state {
        Some(wifi_state) => StatusSpec { wifi_state, ..status },
        None => status,
    }
}

impl WifiManager {
    /// A manager for a configuration; nothing was tried yet.
    pub fn new(config: &HubConfig) -> (r: Self)
        ensures
            r@ == (ManagerSpec {
                provisioned: config@.wifi.ssid.len() > 0,
                station: StationSpec::fresh(),
            }),
    {
        WifiManager { provisioned: config.wifi_provisioned(), supervisor: StationSupervisor::new() }
    }

    /// What to do next; the link state is reported.
    pub fn next(&self, stats: &mut HubStats) -> (r: WifiStep)
        ensures
            r == self@.step(),
            final(stats)@ == with_wifi(old(stats)@, reported(r)),
    {
        if !self.provisioned {
            stats.set_wifi_state(LinkState::Unprovisioned);
            return WifiStep::AccessPoint;
        }
        match self.supervisor.next_action() {
            StationAction::FallbackToAccessPoint => {
                stats.set_wifi_state(LinkState::Unprovisioned);
                WifiStep::AccessPoint
            },
            StationAction::Start => WifiStep::Start,
            StationAction::Connect => {
                stats.set_wifi_state(LinkState::Connecting);
                WifiStep::Connect
            },
        }
    }

    /// The station was started or not; seconds to wait before the next attempt
    /// if not.
    pub fn on_start(&mut self, succeeded: bool) -> (r: Option<u32>)
        requires
            !succeeded ==> old(self)@.station.failures < u32::MAX,
        ensures
            if succeeded {
                r is None && final(self)@ == (ManagerSpec {
                    station: StationSpec { started: true, ..old(self)@.station },
                    ..old(self)@
                })
            } else {
                r is Some && r->Some_0 as int == old(self)@.station.delay && final(self)@ == (
                ManagerSpec { station: old(self)@.station.after_failure(), ..old(self)@ })
            },
    {
        if succeeded {
            self.supervisor.started();
            None
        } else {
            Some(self.supervisor.failed())
        }
    }

    /// Associating succeeded or not; the link state is reported.
    pub fn on_connect(&mut self, succeeded: bool, stats: &mut HubStats) -> (r: ConnectStep)
        requires
            !succeeded ==> old(self)@.station.failures < u32::MAX,
        ensures
            if succeeded {
                &&& r == ConnectStep::Stay
                &&& final(self)@ == (ManagerSpec {
                    station: old(self)@.station.after_success(),
                    ..old(self)@
                })
                &&& final(stats)@ == with_wifi(old(stats)@, Some(LinkState::Connected))
            } else {
                &&& r is Pause && r->Pause_0 as int == old(self)@.station.delay
                &&& final(self)@ == (ManagerSpec {
                    station: old(self)@.station.after_failure(),
                    ..old(self)@
                })
                &&& final(stats)@ == with_wifi(old(stats)@, Some(LinkState::Disconnected))
            },
    {
        if succeeded {
            self.supervisor.connected();
            stats.set_wifi_state(LinkState::Connected);
            ConnectStep::Stay
        } else {
            stats.set_wifi_state(LinkState::Disconnected);
            ConnectStep::Pause(self.supervisor.failed())
        }
    }

    /// The network was lost; the link state is reported.
    pub fn on_disconnect(&self, stats: &mut HubStats)
        ensures
            final(stats)@ == with_wifi(old(stats)@, Some(LinkState::Disconnected)),
    {
        stats.set_wifi_state(LinkState::Disconnected);
    }
}

/// A hub can always be provisioned again: without a network name it runs the
/// access point at once, and with one after ten failures in a row. Fewer keep
/// the station trying.
pub proof fn access_point_is_reached(manager: ManagerSpec, failures: nat)
    ensures
        !manager.provisioned ==> manager.step() == WifiStep::AccessPoint,
        manager.provisioned ==> ((ManagerSpec {
            station: station::after_failures(manager.station.after_success(), failures),
            ..manager
        }).step() == WifiStep::AccessPoint) == (failures >= station::MAX_STA_FAILURES),
{
    station::failure_budget(manager.station, failures);
}

/// What the hub reports of its WiFi while it goes on: without a network name it
/// runs the access point and is unprovisioned; with one it is connecting while
/// it associates, and starting the driver changes nothing. Nothing else of the
/// status is touched.
pub proof fn wifi_state_is_reported(manager: ManagerSpec, status: StatusSpec)
    ensures
        !manager.provisioned ==> manager.step() == WifiStep::AccessPoint,
        manager.provisioned ==> {
            &&& manager.step() == WifiStep::AccessPoint <==> manager.station.failures >= 10
            &&& manager.step() == WifiStep::Start <==> manager.station.failures < 10
                && !manager.station.started
            &&& manager.step() == WifiStep::Connect <==> manager.station.failures < 10
                && manager.station.started
        },
        with_wifi(status, reported(WifiStep::AccessPoint)).wifi_state == LinkState::Unprovisioned,
        with_wifi(status, reported(WifiStep::Connect)).wifi_state == LinkState::Connecting,
        with_wifi(status, reported(WifiStep::Start)) == status,
        forall|state: LinkState|
            (#[trigger] with_wifi(status, Some(state))) == (StatusSpec {
                wifi_state: state,
                ..status
            }),
{
}

/// The access point is `LoRaMqttHub-` and the three bytes in upper case hex. A network
/// without a password is an open one.
pub proof fn networks_are_named(
    device_id: [u8; 3],
    ssid: Text<32>,
    config: &HubConfig,
    open: bool,
)
    requires
        call_ensures(access_point_ssid, (device_id,), ssid),
        call_ensures(open_network, (config,), open),
    ensures
        ssid@ == "LoRaMqttHub-"@ + octets::ascii_chars(hex::upper(device_id@)),
        open <==> config@.wifi.password.len() == 0,
{
}

/// An attempt that fails is one more failure and is tried again after the delay, which
/// doubles up to a minute; a connection is reported, takes the failures back to none and
/// the delay to a second. A failed or lost connection is reported too.
pub proof fn attempts_are_counted(
    manager: &mut WifiManager,
    connected: bool,
    stats: &mut HubStats,
    r: ConnectStep,
    lost: &WifiManager,
    after: &mut HubStats,
)
    requires
        call_ensures(WifiManager::on_connect, (manager, connected, stats), r),
        call_ensures(WifiManager::on_disconnect, (lost, after), ()),
        1 <= old(manager)@.station.delay <= 60,
    ensures
        connected ==> r == ConnectStep::Stay && final(stats)@.wifi_state == LinkState::Connected
            && final(manager)@.station.failures == 0 && final(manager)@.station.delay == 1,
        !connected ==> r is Pause && r->Pause_0 == old(manager)@.station.delay
            && final(stats)@.wifi_state == LinkState::Disconnected
            && final(manager)@.station.failures == old(manager)@.station.failures + 1
            && final(manager)@.station.delay == (if old(manager)@.station.delay <= 30 {
            2 * old(manager)@.station.delay
        } else {
            60
        }),
        final(manager)@.provisioned == old(manager)@.provisioned,
        final(stats)@.mqtt_state == old(stats)@.mqtt_state,
        final(stats)@.dropped_count == old(stats)@.dropped_count,
        final(after)@.wifi_state == LinkState::Disconnected,
        final(after)@.mqtt_state == old(after)@.mqtt_state,
        final(after)@.dropped_count == old(after)@.dropped_count,
{
}

/// A driver that started stays started; one that did not is one more failure. A hub has a
/// network to join exactly if it was told a name.
pub proof fn starts_are_counted(
    manager: &mut WifiManager,
    succeeded: bool,
    r: Option<u32>,
    config: &HubConfig,
    fresh: WifiManager,
)
    requires
        call_ensures(WifiManager::on_start, (manager, succeeded), r),
        call_ensures(WifiManager::new, (config,), fresh),
    ensures
        succeeded ==> r is None && final(manager)@.station.started
            && final(manager)@.station.failures == old(manager)@.station.failures
            && final(manager)@.station.delay == old(manager)@.station.delay,
        !succeeded ==> r is Some && r->Some_0 == old(manager)@.station.delay
            && final(manager)@.station.failures == old(manager)@.station.failures + 1
            && final(manager)@.station.started == old(manager)@.station.started,
        final(manager)@.provisioned == old(manager)@.provisioned,
        fresh@.provisioned <==> config@.wifi.ssid.len() > 0,
        fresh@.station.failures == 0 && !fresh@.station.started && fresh@.station.delay == 1,
{
}

} // verus!
