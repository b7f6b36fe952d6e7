use lora_mqtt_hub::bounded::Text;
use lora_mqtt_hub::host_protocol::build_command;
use lora_mqtt_hub::hub_protocol::codec::{
    encode_command, encode_response, parse_command, parse_response,
};
use lora_mqtt_hub::hub_protocol::types::{
    AckStatus, GatewaySettings, HubCommand, HubCommandId, HubMode, HubResponse, HubStatus,
    LinkState, MqttSettings, WifiSettings,
};
use lora_mqtt_hub::wire::{build_raw, cobs_decode, crc16, ParseError};
use lora_mqtt_hub::wt::{CommandId, ResponseStatus};

fn wifi() -> WifiSettings {
    WifiSettings {
        ssid: Text::try_from("HomeNet").unwrap(),
        password: Text::try_from("hunter22secret").unwrap(),
    }
}

fn mqtt() -> MqttSettings {
    MqttSettings {
        host: Text::try_from("192.168.1.10").unwrap(),
        port: 1883,
        client_id: Text::try_from("wt-hub-AABBCC").unwrap(),
    }
}

fn gateway() -> GatewaySettings {
    GatewaySettings {
        frequency_hz: 868_100_000,
        spreading_factor: 7,
        bandwidth_khz: 125,
        coding_rate: 5,
        host: Text::try_from("chirpstack.local").unwrap(),
        port: 1700,
    }
}

#[test]
fn commands_round_trip_device_side() {
    let commands = [
        HubCommand::SetWifiConfig(wifi()),
        HubCommand::SetMqttConfig(mqtt()),
        HubCommand::GetNetworkConfig,
        HubCommand::GetHubStatus,
        HubCommand::SetMode { mode: HubMode::LorawanGateway },
        HubCommand::ClearNetworkConfig,
        HubCommand::SetGatewayConfig(gateway()),
    ];
    for cmd in commands {
        let frame = encode_command(&cmd);
        let decoded = cobs_decode(frame.as_slice()).unwrap();
        assert!(parse_command(&decoded) == Ok(cmd));
    }
}

#[test]
fn responses_round_trip_host_side() {
    let responses = [
        HubResponse::NetworkConfig {
            mode: HubMode::Bridge,
            wifi_ssid: Text::try_from("HomeNet").unwrap(),
            mqtt: mqtt(),
            gateway: gateway(),
        },
        HubResponse::HubStatus(HubStatus {
            wifi_state: LinkState::Connected,
            ip: [192, 168, 1, 42],
            mqtt_state: LinkState::Connecting,
            uplink_count: 17,
            downlink_count: 3,
            dropped_count: 1,
            uptime_secs: 3600,
        }),
        HubResponse::ConfigAck { status: AckStatus::Success },
    ];
    for resp in responses {
        let frame = encode_response(&resp);
        let decoded = cobs_decode(frame.as_slice()).unwrap();
        assert!(parse_response(&decoded) == Ok(resp));
    }
}

#[test]
fn empty_strings_round_trip() {
    let cmd = HubCommand::SetWifiConfig(WifiSettings::default());
    let decoded = cobs_decode(encode_command(&cmd).as_slice()).unwrap();
    assert!(parse_command(&decoded) == Ok(cmd));
}

#[test]
fn kat_set_mode_command() {
    // version 1, id 0x24, len 1, payload 0x01, then CRC and COBS. Layout
    // check to freeze the wire format.
    let frame = encode_command(&HubCommand::SetMode { mode: HubMode::LorawanGateway });
    let decoded = cobs_decode(frame.as_slice()).unwrap();
    assert_eq!(&decoded[..5], &[0x01, 0x24, 0x01, 0x00, 0x01]);
    let crc = u16::from_le_bytes([decoded[5], decoded[6]]);
    assert_eq!(crc, crc16(&decoded[..5]));
}

#[test]
fn wt_protocol_ids_are_not_hub_commands() {
    // A stock wt-protocol command must fall through to InvalidCommand so
    // the two-stage parser routes it to the right codec.
    let frame = build_command(CommandId::GetVersion, &[]);
    let decoded = cobs_decode(frame.as_slice()).unwrap();
    assert!(parse_command(&decoded) == Err(ResponseStatus::InvalidCommand));
}

#[test]
fn oversized_string_is_rejected() {
    // 33-byte SSID exceeds MAX_SSID_LEN; build the payload by hand.
    let mut payload: Vec<u8> = Vec::new();
    payload.push(33);
    payload.extend_from_slice(&[b'a'; 33]);
    payload.push(0);
    let raw = build_raw(HubCommandId::SetWifiConfig.to_byte(), &payload);
    assert!(parse_command(&raw) == Err(ResponseStatus::InvalidLength));
}

#[test]
fn trailing_bytes_are_rejected() {
    let mut payload: Vec<u8> = Vec::new();
    payload.push(HubMode::Bridge.to_byte());
    payload.push(0xAA);
    let raw = build_raw(HubCommandId::SetMode.to_byte(), &payload);
    assert!(parse_command(&raw) == Err(ResponseStatus::InvalidLength));
}

#[test]
fn invalid_mode_is_invalid_parameter() {
    let raw = build_raw(HubCommandId::SetMode.to_byte(), &[9]);
    assert!(parse_command(&raw) == Err(ResponseStatus::InvalidParameter));
}

#[test]
fn invalid_utf8_is_rejected() {
    let mut payload: Vec<u8> = Vec::new();
    payload.push(2);
    payload.extend_from_slice(&[0xFF, 0xFE]);
    payload.push(0);
    let raw = build_raw(HubCommandId::SetWifiConfig.to_byte(), &payload);
    assert!(parse_command(&raw) == Err(ResponseStatus::InvalidLength));
}

#[test]
fn corrupt_crc_is_rejected() {
    let frame = encode_command(&HubCommand::GetHubStatus);
    let mut raw = cobs_decode(frame.as_slice()).unwrap();
    let last = raw.len() - 1;
    raw[last] ^= 0xFF;
    assert!(parse_command(&raw) == Err(ResponseStatus::CrcError));
    assert!(parse_response(&raw) == Err(ParseError::CrcError));
}
