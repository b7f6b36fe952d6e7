use lora_mqtt_hub::bounded::Text;
use lora_mqtt_hub::hub_config::HubConfig;
use lora_mqtt_hub::hub_protocol::types::{HubCommand, HubMode};
use lora_mqtt_hub::portal::http::{
    commands_from_update, config_json, route, status_json, try_parse, ConfigUpdate, ParseOutcome,
    Route, UpdateError, MAX_REQUEST,
};
use serde::de::{Deserialize, Deserializer, IgnoredAny, MapAccess, Visitor};
use std::fmt;

/// The body of an update as it stands in JSON.
#[derive(Default)]
struct Body<'a> {
    wifi_ssid: Option<&'a str>,
    wifi_password: Option<&'a str>,
    mqtt_host: Option<&'a str>,
    mqtt_port: Option<u16>,
    client_id: Option<&'a str>,
    mode: Option<&'a str>,
    gw_freq_hz: Option<u32>,
    gw_sf: Option<u8>,
    gw_bw_khz: Option<u32>,
    gw_cr: Option<u8>,
    gw_host: Option<&'a str>,
    gw_port: Option<u16>,
}

struct BodyVisitor;

impl<'de> Visitor<'de> for BodyVisitor {
    type Value = Body<'de>;

    fn expecting(&self, f: &mut fmt::Formatter<'_>) -> fmt::Result {
        f.write_str("an update")
    }

    fn visit_map<A: MapAccess<'de>>(self, mut map: A) -> Result<Body<'de>, A::Error> {
        let mut body = Body::default();
        while let Some(key) = map.next_key::<&'de str>()? {
            match key {
                "wifi_ssid" => body.wifi_ssid = map.next_value()?,
                "wifi_password" => body.wifi_password = map.next_value()?,
                "mqtt_host" => body.mqtt_host = map.next_value()?,
                "mqtt_port" => body.mqtt_port = map.next_value()?,
                "client_id" => body.client_id = map.next_value()?,
                "mode" => body.mode = map.next_value()?,
                "gw_freq_hz" => body.gw_freq_hz = map.next_value()?,
                "gw_sf" => body.gw_sf = map.next_value()?,
                "gw_bw_khz" => body.gw_bw_khz = map.next_value()?,
                "gw_cr" => body.gw_cr = map.next_value()?,
                "gw_host" => body.gw_host = map.next_value()?,
                "gw_port" => body.gw_port = map.next_value()?,
                _ => {
                    map.next_value::<IgnoredAny>()?;
                }
            }
        }
        Ok(body)
    }
}

impl<'de> Deserialize<'de> for Body<'de> {
    fn deserialize<D: Deserializer<'de>>(deserializer: D) -> Result<Self, D::Error> {
        deserializer.deserialize_struct("Body", &[], BodyVisitor)
    }
}

fn read(json: &[u8]) -> Option<ConfigUpdate<'_>> {
    let (body, _) = serde_json_core::from_slice::<Body>(json).ok()?;
    Some(ConfigUpdate {
        wifi_ssid: body.wifi_ssid,
        wifi_password: body.wifi_password,
        mqtt_host: body.mqtt_host,
        mqtt_port: body.mqtt_port,
        client_id: body.client_id,
        mode: body.mode,
        gw_freq_hz: body.gw_freq_hz,
        gw_sf: body.gw_sf,
        gw_bw_khz: body.gw_bw_khz,
        gw_cr: body.gw_cr,
        gw_host: body.gw_host,
        gw_port: body.gw_port,
    })
}

fn commands(json: &[u8], current: &HubConfig) -> Result<Vec<HubCommand>, UpdateError> {
    commands_from_update(read(json).as_ref(), current)
}

#[test]
fn parses_a_get_and_routes_it() {
    let raw = b"GET /api/status HTTP/1.1\r\nHost: x\r\n\r\n";
    let ParseOutcome::Complete(request) = try_parse(raw) else {
        panic!("should parse");
    };
    assert_eq!(route(&request), Route::ApiStatus);
}

#[test]
fn waits_for_the_full_post_body() {
    let raw = b"POST /api/config HTTP/1.1\r\nContent-Length: 10\r\n\r\n12345";
    assert_eq!(try_parse(raw), ParseOutcome::Incomplete);

    let raw = b"POST /api/config HTTP/1.1\r\nContent-Length: 5\r\n\r\n12345";
    let ParseOutcome::Complete(request) = try_parse(raw) else {
        panic!("should parse");
    };
    assert_eq!(request.body, b"12345");
    assert!(matches!(route(&request), Route::ApiConfigPost(b"12345")));
}

#[test]
fn unknown_paths_redirect_for_the_captive_portal() {
    let raw = b"GET /generate_204 HTTP/1.1\r\n\r\n";
    let ParseOutcome::Complete(request) = try_parse(raw) else {
        panic!("should parse");
    };
    assert_eq!(route(&request), Route::Redirect);
}

#[test]
fn config_json_never_contains_the_password() {
    let mut config = HubConfig::default();
    config.wifi.password = Text::try_from("secret").unwrap();
    let json = config_json(&config);
    assert!(!json.as_slice().windows(6).any(|w| w == b"secret"));
}

#[test]
fn update_builds_commands_in_order() {
    let body = br#"{"wifi_ssid":"Net","wifi_password":"pw","mqtt_host":"10.0.0.2","mqtt_port":1883,"mode":"gateway","gw_host":"10.0.0.3"}"#;
    let commands = commands(body, &HubConfig::default()).ok().unwrap();
    assert_eq!(commands.len(), 4);
    assert!(matches!(commands[0], HubCommand::SetWifiConfig(_)));
    assert!(matches!(commands[1], HubCommand::SetMqttConfig(_)));
    assert!(matches!(commands[2], HubCommand::SetGatewayConfig(_)));
    assert!(matches!(commands[3], HubCommand::SetMode { mode: HubMode::LorawanGateway }));
}

#[test]
fn partial_update_keeps_current_values() {
    let mut current = HubConfig::default();
    current.mqtt.host = Text::try_from("old-host").unwrap();
    let body = br#"{"mqtt_port":1884}"#;
    let commands = commands(body, &current).ok().unwrap();
    let HubCommand::SetMqttConfig(mqtt) = &commands[0] else {
        panic!("expected SetMqttConfig");
    };
    assert_eq!(mqtt.host.as_str(), "old-host");
    assert_eq!(mqtt.port, 1884);
}

#[test]
fn bad_and_empty_updates_are_rejected() {
    let current = HubConfig::default();
    assert!(commands(b"not json", &current) == Err(UpdateError::Bad));
    assert!(commands(b"{}", &current) == Err(UpdateError::Empty));
    assert!(commands(br#"{"mode":"nonsense"}"#, &current) == Err(UpdateError::Bad));
}

#[test]
fn headers_are_read_leniently() {
    let raw = b"POST /api/config HTTP/1.1\r\nContent-Length: 3\r\ncontent-LENGTH:\t 5 \r\n\r\n12345";
    let ParseOutcome::Complete(request) = try_parse(raw) else {
        panic!("should parse");
    };
    // The last one counts.
    assert_eq!(request.body, b"12345");
    assert_eq!((request.method, request.path), ("POST", "/api/config"));

    let raw = b"POST /api/config HTTP/1.1\r\nContent-Length: many\r\n\r\n12345";
    let ParseOutcome::Complete(request) = try_parse(raw) else {
        panic!("should parse");
    };
    assert_eq!(request.body, b"");
}

#[test]
fn requests_that_are_none_are_dropped() {
    assert_eq!(try_parse(b"GET\r\n\r\n"), ParseOutcome::Bad);
    assert_eq!(try_parse(b"GET /\xFF HTTP/1.1\r\n\r\n"), ParseOutcome::Bad);
    assert_eq!(try_parse(b"GET / HTTP/1.1\r\n"), ParseOutcome::Incomplete);
    assert_eq!(try_parse(&[b'x'; MAX_REQUEST]), ParseOutcome::Bad);
    let raw = b"POST / HTTP/1.1\r\nContent-Length: 4096\r\n\r\n";
    assert_eq!(try_parse(raw), ParseOutcome::Bad);
}

#[test]
fn oversized_requests_are_dropped() {
    // The head alone is larger than what is accepted.
    let mut raw = b"GET / HTTP/1.1\r\nX: ".to_vec();
    raw.resize(MAX_REQUEST + 1, b'x');
    raw.extend_from_slice(b"\r\n\r\n");
    assert_eq!(try_parse(&raw), ParseOutcome::Bad);
    // The head just fits, and leaves no room for a body.
    let mut raw = b"GET / HTTP/1.1\r\nContent-Length: 1\r\nX: ".to_vec();
    raw.resize(MAX_REQUEST, b'x');
    raw.extend_from_slice(b"\r\n\r\n1");
    assert_eq!(try_parse(&raw), ParseOutcome::Bad);
    let mut raw = b"GET / HTTP/1.1\r\nX: ".to_vec();
    raw.resize(MAX_REQUEST, b'x');
    raw.extend_from_slice(b"\r\n\r\n");
    assert!(matches!(try_parse(&raw), ParseOutcome::Complete(_)));
}

#[test]
fn later_bytes_do_not_change_a_request() {
    let raw = b"POST /api/config HTTP/1.1\r\nContent-Length: 5\r\n\r\n12345";
    let mut longer = raw.to_vec();
    longer.extend_from_slice(b"GET / HTTP/1.1\r\n\r\n");
    assert_eq!(try_parse(raw), try_parse(&longer));
}

#[test]
fn texts_are_escaped_in_json() {
    let mut config = HubConfig::default();
    config.wifi.ssid = Text::try_from("a\"b\\c\u{7}\u{e9}").unwrap();
    let json = config_json(&config);
    let text = core::str::from_utf8(json.as_slice()).unwrap();
    assert!(text.starts_with("{\"mode\":\"bridge\",\"wifi_ssid\":\"a\\\"b\\\\c\\u0007\u{e9}\","));
}

#[test]
fn a_body_that_does_not_fit_is_empty() {
    let mut config = HubConfig::default();
    let long = "\u{1}".repeat(64);
    config.mqtt.host = Text::try_from(long.as_str()).unwrap();
    config.gateway.host = Text::try_from(long.as_str()).unwrap();
    assert_eq!(config_json(&config).len(), 0);
}

#[test]
fn status_json_spells_the_address() {
    let mut stats = lora_mqtt_hub::net::stats::HubStats::new();
    stats.set_ip([192, 168, 1, 42]);
    let json = status_json(&stats.snapshot(120));
    assert_eq!(
        core::str::from_utf8(json.as_slice()).unwrap(),
        r#"{"wifi_state":0,"mqtt_state":0,"ip":"192.168.1.42","uplink":0,"downlink":0,"dropped":0,"uptime_secs":120}"#
    );
}

#[test]
fn a_missing_password_keeps_the_stored_one() {
    let mut current = HubConfig::default();
    current.wifi.password = Text::try_from("secret").unwrap();
    let commands = commands(br#"{"wifi_ssid":"Net"}"#, &current).ok().unwrap();
    let HubCommand::SetWifiConfig(wifi) = &commands[0] else {
        panic!("expected SetWifiConfig");
    };
    assert_eq!(wifi.ssid.as_str(), "Net");
    assert_eq!(wifi.password.as_str(), "secret");
}
