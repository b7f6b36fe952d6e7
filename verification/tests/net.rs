use lora_mqtt_hub::hub_protocol::types::LinkState;
use lora_mqtt_hub::net::backoff::Backoff;
use lora_mqtt_hub::net::station::{StationAction, StationSupervisor, MAX_STA_FAILURES};
use lora_mqtt_hub::net::stats::HubStats;
use lora_mqtt_hub::net::address::{dotted_text, parse_ipv4};


#[test]
fn doubles_to_cap() {
    let mut backoff = Backoff::new();
    let delays: [u32; 8] = core::array::from_fn(|_| backoff.next_secs());
    assert_eq!(delays, [1, 2, 4, 8, 16, 32, 60, 60]);
}

#[test]
fn reset_restarts_from_initial() {
    let mut backoff = Backoff::new();
    for _ in 0..5 {
        backoff.next_secs();
    }
    backoff.reset();
    assert_eq!(backoff.next_secs(), 1);
    assert_eq!(backoff.next_secs(), 2);
}

#[test]
fn starts_before_connecting() {
    let mut sup = StationSupervisor::new();
    assert_eq!(sup.next_action(), StationAction::Start);
    sup.started();
    assert_eq!(sup.next_action(), StationAction::Connect);
}

#[test]
fn start_failure_is_retried_with_backoff() {
    let mut sup = StationSupervisor::new();
    assert_eq!(sup.next_action(), StationAction::Start);
    assert_eq!(sup.failed(), 1);
    assert_eq!(sup.next_action(), StationAction::Start);
    assert_eq!(sup.failed(), 2);
    assert_eq!(sup.next_action(), StationAction::Start);
    sup.started();
    assert_eq!(sup.next_action(), StationAction::Connect);
}

#[test]
fn connect_failures_back_off_and_reset_on_success() {
    let mut sup = StationSupervisor::new();
    sup.started();
    assert_eq!(sup.failed(), 1);
    assert_eq!(sup.failed(), 2);
    assert_eq!(sup.failed(), 4);
    sup.connected();
    assert_eq!(sup.next_action(), StationAction::Connect);
    // Backoff restarts and the failure budget is full again.
    assert_eq!(sup.failed(), 1);
    for _ in 0..MAX_STA_FAILURES - 2 {
        sup.failed();
    }
    assert_eq!(sup.next_action(), StationAction::Connect);
}

#[test]
fn falls_back_to_access_point_after_max_failures() {
    let mut sup = StationSupervisor::new();
    sup.started();
    for _ in 0..MAX_STA_FAILURES - 1 {
        sup.failed();
        assert_eq!(sup.next_action(), StationAction::Connect);
    }
    sup.failed();
    assert_eq!(sup.next_action(), StationAction::FallbackToAccessPoint);
}

#[test]
fn start_and_connect_failures_share_the_budget() {
    let mut sup = StationSupervisor::new();
    for _ in 0..MAX_STA_FAILURES / 2 {
        sup.failed();
    }
    sup.started();
    for _ in 0..MAX_STA_FAILURES / 2 {
        sup.failed();
    }
    assert_eq!(sup.next_action(), StationAction::FallbackToAccessPoint);
}

#[test]
fn a_reconnect_after_drop_keeps_the_driver_started() {
    let mut sup = StationSupervisor::new();
    sup.started();
    sup.connected();
    // A later disconnect only needs a fresh connect, never a restart.
    assert_eq!(sup.next_action(), StationAction::Connect);
}

#[test]
fn snapshot_reflects_updates() {
    let mut stats = HubStats::new();
    stats.set_wifi_state(LinkState::Connected);
    stats.set_mqtt_state(LinkState::Connecting);
    stats.set_ip([192, 168, 1, 42]);
    stats.count_uplink();
    stats.count_uplink();
    stats.count_downlink();
    stats.count_dropped(3);

    let snap = stats.snapshot(120);
    assert_eq!(snap.wifi_state, LinkState::Connected);
    assert_eq!(snap.mqtt_state, LinkState::Connecting);
    assert_eq!(snap.ip, [192, 168, 1, 42]);
    assert_eq!(snap.uplink_count, 2);
    assert_eq!(snap.downlink_count, 1);
    assert_eq!(snap.dropped_count, 3);
    assert_eq!(snap.uptime_secs, 120);
}

#[test]
fn counters_wrap() {
    let mut stats = HubStats::new();
    stats.count_dropped(u32::MAX);
    stats.count_dropped(2);
    stats.set_ip([10, 0, 0, 1]);
    stats.clear_ip();
    let snap = stats.snapshot(0);
    assert_eq!(snap.dropped_count, 1);
    assert_eq!(snap.ip, [0, 0, 0, 0]);
    assert_eq!(snap.wifi_state, LinkState::Unprovisioned);
}

#[test]
fn addresses_are_read_in_their_plain_form_only() {
    assert_eq!(parse_ipv4("192.168.4.1"), Some([192, 168, 4, 1]));
    assert_eq!(parse_ipv4("0.0.0.0"), Some([0, 0, 0, 0]));
    assert_eq!(parse_ipv4("255.255.255.255"), Some([255, 255, 255, 255]));
    for host in [
        "", "192.168.4", "192.168.4.1.", "192.168.4.256", "192.168.04.1", "192.168.4.1 ", "+1.2.3.4",
        "broker.local", "1..2.3", "1.2.3.4.5",
    ] {
        assert_eq!(parse_ipv4(host), None, "{host:?} is no address");
    }
    assert_eq!(dotted_text(&[10, 0, 0, 255]), b"10.0.0.255");
}
