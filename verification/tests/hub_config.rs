use lora_mqtt_hub::bounded::Text;
use lora_mqtt_hub::hub_config::{
    apply_command, baked_str, network_config_response, parse_mode, parse_port, select_config,
    BakedSettings, ConfigAction, HubConfig, CONFIG_SCHEMA_VERSION,
};
use lora_mqtt_hub::hub_protocol::codec::encode_response;
use lora_mqtt_hub::hub_protocol::types::{
    AckStatus, GatewaySettings, HubCommand, HubMode, MqttSettings, WifiSettings,
};

fn stored(version: u8) -> HubConfig {
    let mut config = HubConfig {
        version,
        ..HubConfig::default()
    };
    config.wifi.ssid = Text::try_from("StoredNet").unwrap();
    config
}

#[test]
fn stored_config_wins_over_defaults() {
    let active = select_config(Some(stored(CONFIG_SCHEMA_VERSION)), HubConfig::default());
    assert_eq!(active.wifi.ssid.as_str(), "StoredNet");
}

#[test]
fn version_mismatch_falls_back_to_defaults() {
    let active = select_config(Some(stored(CONFIG_SCHEMA_VERSION + 1)), HubConfig::default());
    assert_ne!(active.wifi.ssid.as_str(), "StoredNet");
}

#[test]
fn no_stored_config_uses_defaults() {
    let active = select_config(None, HubConfig::default());
    assert!(active == HubConfig::default());
}

#[test]
fn baked_string_over_cap_is_empty() {
    let over: Text<4> = baked_str(Some("too long for four"));
    assert!(over.is_empty());
}

#[test]
fn port_and_mode_parsing() {
    assert_eq!(parse_port(Some("1883")), Some(1883));
    assert_eq!(parse_port(Some("nope")), None);
    assert_eq!(parse_port(None), None);
    assert_eq!(parse_mode(Some("gateway")), HubMode::LorawanGateway);
    assert_eq!(parse_mode(Some("bridge")), HubMode::Bridge);
    assert_eq!(parse_mode(None), HubMode::Bridge);
}

#[test]
fn set_commands_update_pending_and_request_save() {
    let mut pending = HubConfig::default();
    let wifi = WifiSettings {
        ssid: Text::try_from("Net").unwrap(),
        password: Text::try_from("pw").unwrap(),
    };
    let action = apply_command(&mut pending, &HubCommand::SetWifiConfig(wifi.clone()), &HubConfig::default());
    assert_eq!(action, Ok(ConfigAction::Save));
    assert!(pending.wifi == wifi);

    let action =
        apply_command(&mut pending, &HubCommand::SetMode { mode: HubMode::LorawanGateway }, &HubConfig::default());
    assert_eq!(action, Ok(ConfigAction::Save));
    assert_eq!(pending.mode, HubMode::LorawanGateway);
}

#[test]
fn invalid_values_are_rejected_and_leave_config_untouched() {
    let mut pending = HubConfig::default();
    let before = pending.clone();

    let mqtt = MqttSettings { port: 0, ..MqttSettings::default() };
    assert_eq!(
        apply_command(&mut pending, &HubCommand::SetMqttConfig(mqtt), &HubConfig::default()),
        Err(AckStatus::InvalidValue)
    );

    let gw = GatewaySettings { spreading_factor: 6, ..GatewaySettings::default() };
    assert_eq!(
        apply_command(&mut pending, &HubCommand::SetGatewayConfig(gw), &HubConfig::default()),
        Err(AckStatus::InvalidValue)
    );

    let gw = GatewaySettings { bandwidth_khz: 100, ..GatewaySettings::default() };
    assert_eq!(
        apply_command(&mut pending, &HubCommand::SetGatewayConfig(gw), &HubConfig::default()),
        Err(AckStatus::InvalidValue)
    );

    assert!(pending == before);
}

#[test]
fn clear_resets_to_defaults_and_requests_clear() {
    let mut pending = stored(CONFIG_SCHEMA_VERSION);
    let action = apply_command(&mut pending, &HubCommand::ClearNetworkConfig, &HubConfig::default());
    assert_eq!(action, Ok(ConfigAction::Clear));
    assert!(pending == HubConfig::default());
}

#[test]
fn network_config_response_never_contains_password() {
    let mut config = HubConfig::default();
    config.wifi.password = Text::try_from("secret").unwrap();
    let response = network_config_response(&config);
    let frame = encode_response(&response);
    let haystack: &[u8] = frame.as_slice();
    assert!(!haystack.windows(6).any(|w| w == b"secret"));
}

#[test]
fn baked_settings_become_the_defaults() {
    let baked = BakedSettings {
        wifi_ssid: Some("Net"),
        wifi_password: None,
        mqtt_host: Some("10.0.0.2"),
        mqtt_port: Some("1884"),
        mqtt_client_id: None,
        mode: Some("gateway"),
        gw_host: Some("10.0.0.3"),
        gw_port: Some("nope"),
    };
    let config = HubConfig::from_baked(&baked);
    assert_eq!(config.version, CONFIG_SCHEMA_VERSION);
    assert_eq!(config.mode, HubMode::LorawanGateway);
    assert_eq!(config.wifi.ssid.as_str(), "Net");
    assert!(config.wifi.password.is_empty());
    assert_eq!(config.mqtt.port, 1884);
    assert_eq!(config.gateway.host.as_str(), "10.0.0.3");
    assert_eq!(config.gateway.port, 1700);
    assert!(config.wifi_provisioned());
    assert!(!HubConfig::default().wifi_provisioned());
}

#[test]
fn ports_are_sixteen_bits_wide() {
    assert_eq!(parse_port(Some("65535")), Some(65_535));
    assert_eq!(parse_port(Some("65536")), None);
    assert_eq!(parse_port(Some("+80")), Some(80));
    assert_eq!(parse_port(Some("-80")), None);
    assert_eq!(parse_port(Some("")), None);
    assert_eq!(parse_port(Some(" 80")), None);
}

#[test]
fn saved_settings_survive_a_reboot() {
    let defaults = HubConfig::default();
    let mut pending = HubConfig::default();
    let wifi = WifiSettings {
        ssid: Text::try_from("Net").unwrap(),
        password: Text::try_from("pw").unwrap(),
    };
    let _ = apply_command(&mut pending, &HubCommand::SetWifiConfig(wifi), &defaults);
    let active = select_config(Some(pending.clone()), defaults);
    assert!(active == pending);
}

#[test]
fn gateway_limits_are_inclusive() {
    let defaults = HubConfig::default();
    for (freq, ok) in
        [(149_999_999, false), (150_000_000, true), (960_000_000, true), (960_000_001, false)]
    {
        let mut pending = HubConfig::default();
        let gw = GatewaySettings { frequency_hz: freq, ..GatewaySettings::default() };
        let result = apply_command(&mut pending, &HubCommand::SetGatewayConfig(gw), &defaults);
        assert_eq!(result.is_ok(), ok);
    }
    for (rate, ok) in [(4, false), (5, true), (8, true), (9, false)] {
        let mut pending = HubConfig::default();
        let gw = GatewaySettings { coding_rate: rate, ..GatewaySettings::default() };
        let result = apply_command(&mut pending, &HubCommand::SetGatewayConfig(gw), &defaults);
        assert_eq!(result.is_ok(), ok);
    }
}
