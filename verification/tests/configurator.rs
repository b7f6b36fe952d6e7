use lora_mqtt_hub::configurator::client::{ApiError, FakeHub, HubApi};
use lora_mqtt_hub::configurator::engine::{load_snapshot, save_config, validate_update};
use lora_mqtt_hub::configurator::models::{
    ApplyOutcome, ConfigUpdate, HubConfigView, HubStatusView,
};
use lora_mqtt_hub::configurator::session::{base_address, endpoint, initial, readdressed, Backend};
use std::cell::RefCell;

/// A hub whose answers are set by the test, and which records what it is asked.
struct ScriptedHub {
    config: Result<HubConfigView, ApiError>,
    status: Result<HubStatusView, ApiError>,
    outcome: Result<ApplyOutcome, ApiError>,
    config_calls: RefCell<u32>,
    status_calls: RefCell<u32>,
    applied: Vec<ConfigUpdate>,
}

impl ScriptedHub {
    fn new() -> Self {
        ScriptedHub {
            config: Ok(config()),
            status: Ok(status()),
            outcome: Ok(ApplyOutcome { ok: true, rebooting: true }),
            config_calls: RefCell::new(0),
            status_calls: RefCell::new(0),
            applied: Vec::new(),
        }
    }
}

impl HubApi for ScriptedHub {
    fn fetch_config(&self) -> Result<HubConfigView, ApiError> {
        *self.config_calls.borrow_mut() += 1;
        self.config.clone()
    }

    fn fetch_status(&self) -> Result<HubStatusView, ApiError> {
        *self.status_calls.borrow_mut() += 1;
        self.status.clone()
    }

    fn apply_config(&mut self, update: ConfigUpdate) -> Result<ApplyOutcome, ApiError> {
        self.applied.push(update);
        self.outcome.clone()
    }
}

fn config() -> HubConfigView {
    HubConfigView {
        mode: "bridge".into(),
        wifi_ssid: "Net".into(),
        mqtt_host: "10.0.0.2".into(),
        mqtt_port: 1883,
        client_id: String::new(),
        gw_freq_hz: 868_100_000,
        gw_sf: 7,
        gw_bw_khz: 125,
        gw_cr: 5,
        gw_host: String::new(),
        gw_port: 1700,
    }
}

fn status() -> HubStatusView {
    HubStatusView {
        wifi_state: 2,
        mqtt_state: 2,
        ip: "192.168.1.9".into(),
        uplink: 1,
        downlink: 0,
        dropped: 0,
        uptime_secs: 60,
    }
}

#[test]
fn load_snapshot_combines_both_calls() {
    let api = ScriptedHub::new();
    let snapshot = load_snapshot(&api).unwrap();
    assert_eq!(snapshot.config, config());
    assert_eq!(snapshot.status, status());
    assert_eq!(*api.config_calls.borrow(), 1);
    assert_eq!(*api.status_calls.borrow(), 1);
}

#[test]
fn load_snapshot_surfaces_unreachable() {
    let mut api = ScriptedHub::new();
    api.config = Err(ApiError::Unreachable("timeout".into()));
    let err = load_snapshot(&api).unwrap_err();
    assert!(err.contains("unreachable"));
    assert_eq!(err, "hub unreachable: timeout");
    assert_eq!(*api.status_calls.borrow(), 0);
}

#[test]
fn load_snapshot_surfaces_a_status_error() {
    let mut api = ScriptedHub::new();
    api.status = Err(ApiError::Rejected("HTTP 500".into()));
    assert_eq!(load_snapshot(&api).unwrap_err(), "hub rejected the request: HTTP 500");
}

#[test]
fn save_sends_the_validated_update() {
    let update = ConfigUpdate {
        wifi_ssid: Some("Net".into()),
        wifi_password: Some("pw".into()),
        mode: Some("gateway".into()),
        ..ConfigUpdate::default()
    };
    let mut api = ScriptedHub::new();
    let outcome = save_config(&mut api, update.clone()).unwrap();
    assert!(outcome.ok && outcome.rebooting);
    assert_eq!(api.applied, vec![update]);
}

#[test]
fn invalid_updates_never_reach_the_network() {
    let mut api = ScriptedHub::new();

    for update in [
        ConfigUpdate { gw_sf: Some(6), ..Default::default() },
        ConfigUpdate { gw_bw_khz: Some(100), ..Default::default() },
        ConfigUpdate { mqtt_port: Some(0), ..Default::default() },
        ConfigUpdate { mode: Some("nonsense".into()), ..Default::default() },
        ConfigUpdate { wifi_ssid: Some("x".repeat(33)), ..Default::default() },
    ] {
        assert!(save_config(&mut api, update).is_err());
    }
    assert!(api.applied.is_empty());
}

#[test]
fn rejected_apply_surfaces_the_reason() {
    let mut api = ScriptedHub::new();
    api.outcome = Err(ApiError::Rejected("HTTP 422".into()));
    let err = save_config(
        &mut api,
        ConfigUpdate { wifi_ssid: Some("Net".into()), ..Default::default() },
    )
    .unwrap_err();
    assert!(err.contains("422"));
}

#[test]
fn every_complaint_has_its_words() {
    let long = |n: usize| Some("x".repeat(n));
    for (update, message) in [
        (
            ConfigUpdate { wifi_ssid: long(33), ..Default::default() },
            "WiFi name is longer than 32 bytes",
        ),
        (
            ConfigUpdate { wifi_password: long(65), ..Default::default() },
            "WiFi password is longer than 64 bytes",
        ),
        (
            ConfigUpdate { mqtt_host: long(65), ..Default::default() },
            "broker host is longer than 64 bytes",
        ),
        (
            ConfigUpdate { client_id: long(33), ..Default::default() },
            "client id is longer than 32 bytes",
        ),
        (
            ConfigUpdate { gw_host: long(65), ..Default::default() },
            "network server host is longer than 64 bytes",
        ),
        (ConfigUpdate { gw_port: Some(0), ..Default::default() }, "port cannot be 0"),
        (
            ConfigUpdate { mode: Some("Bridge".into()), ..Default::default() },
            "mode must be bridge or gateway",
        ),
        (
            ConfigUpdate { gw_sf: Some(13), ..Default::default() },
            "spreading factor must be 7 to 12",
        ),
        (
            ConfigUpdate { gw_bw_khz: Some(0), ..Default::default() },
            "bandwidth must be 125, 250 or 500 kHz",
        ),
        (
            ConfigUpdate { gw_freq_hz: Some(149_999_999), ..Default::default() },
            "frequency out of the radio's range",
        ),
        (ConfigUpdate { gw_cr: Some(9), ..Default::default() }, "coding rate must be 5 to 8"),
    ] {
        assert_eq!(validate_update(&update), Err(message.to_string()));
    }
    let edge = ConfigUpdate {
        wifi_ssid: long(32),
        wifi_password: long(64),
        mqtt_port: Some(1),
        gw_freq_hz: Some(960_000_000),
        gw_sf: Some(12),
        gw_bw_khz: Some(500),
        gw_cr: Some(8),
        ..Default::default()
    };
    assert_eq!(validate_update(&edge), Ok(()));
    assert_eq!(validate_update(&ConfigUpdate::default()), Ok(()));
}

#[test]
fn the_fake_hub_remembers_what_is_saved() {
    let mut hub = FakeHub::new();
    let fresh = load_snapshot(&hub).unwrap();
    assert_eq!(fresh.config.mode, "bridge");
    assert_eq!(fresh.config.gw_port, 1700);
    assert_eq!(fresh.status.wifi_state, 0);
    assert_eq!(fresh.status.ip, "0.0.0.0");

    let update = ConfigUpdate {
        wifi_ssid: Some("Net".into()),
        mqtt_port: Some(1884),
        ..Default::default()
    };
    assert!(save_config(&mut hub, update).unwrap().rebooting);

    let after = load_snapshot(&hub).unwrap();
    assert_eq!(after.config.wifi_ssid, "Net");
    assert_eq!(after.config.mqtt_port, 1884);
    assert_eq!(after.config.mode, "bridge");
    assert_eq!(after.status.mqtt_state, 2);
    assert_eq!(after.status.ip, "192.168.1.50");
    assert_eq!(after.status.uptime_secs, 4200);
}

#[test]
fn addresses_lose_their_slashes() {
    assert_eq!(base_address("http://192.168.4.1/"), "http://192.168.4.1");
    assert_eq!(base_address("http://hub.local///"), "http://hub.local");
    assert_eq!(base_address("///"), "");
    assert_eq!(base_address("http://h\u{fc}b/"), "http://h\u{fc}b");
    assert_eq!(endpoint("http://192.168.4.1", "/api/config"), "http://192.168.4.1/api/config");
}

#[test]
fn the_mock_hub_stays_at_any_address() {
    let mock = initial("http://192.168.4.1", true);
    assert_eq!(mock, Backend::Fake);
    assert_eq!(readdressed(Some(&mock), "http://10.0.0.1"), Ok(Backend::Fake));

    let real = initial("http://192.168.4.1/", false);
    assert_eq!(real, Backend::Http("http://192.168.4.1".into()));
    assert_eq!(
        readdressed(Some(&real), "http://10.0.0.1/"),
        Ok(Backend::Http("http://10.0.0.1".into()))
    );
    assert_eq!(
        readdressed(None, "http://10.0.0.1"),
        Err("Not initialised. Call frbInit first.".to_string())
    );
}

#[test]
fn an_http_status_is_a_rejection() {
    assert_eq!(ApiError::from_status(422), ApiError::Rejected("HTTP 422".into()));
}
