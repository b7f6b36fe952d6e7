use lora_mqtt_hub::host_protocol::{
    build_command, build_command_payload, cobs_decode, gateway_config_payload,
    mqtt_config_payload, parse_hub_status, parse_response, wifi_config_payload, HostError,
    ResponseId,
};
use lora_mqtt_hub::hub_protocol::codec::{encode_response, parse_command};
use lora_mqtt_hub::hub_protocol::types::{
    AckStatus, HubCommand, HubCommandId, HubResponse, HubStatus, LinkState,
};
use lora_mqtt_hub::usb::{device_id, format_usb_serial, hub_id, write_len};
use lora_mqtt_hub::wire::{build_raw, cobs_encode, crc16, parse_raw, ParseError};
use lora_mqtt_hub::wt::{CommandId, ResponseStatus};

#[test]
fn checksum_check_value() {
    // CRC-16/XMODEM check value.
    assert_eq!(crc16(b"123456789"), 0x31C3);
    assert_eq!(crc16(&[]), 0);
}

#[test]
fn frames_are_laid_out_as_documented() {
    let raw = build_command_payload(0x10, b"Hi");
    assert_eq!(&raw[..6], &[0x01, 0x10, 0x02, 0x00, b'H', b'i']);
    let crc = crc16(&raw[..6]);
    assert_eq!(&raw[6..], &[(crc & 0xFF) as u8, (crc >> 8) as u8]);
}

#[test]
fn stuffing_leaves_one_zero_at_the_end() {
    assert_eq!(cobs_encode(&[]), vec![1, 0]);
    assert_eq!(cobs_encode(&[0x11, 0x00, 0x22]), vec![2, 0x11, 2, 0x22, 0]);
    let long: Vec<u8> = (0..600u32).map(|n| (n % 251) as u8).collect();
    let encoded = cobs_encode(&long);
    assert_eq!(encoded.iter().position(|&b| b == 0), Some(encoded.len() - 1));
    assert_eq!(cobs_decode(&encoded), Ok(long));
    assert_eq!(cobs_decode(&[3, 1]), Err(HostError::Truncated));
}

#[test]
fn commands_reach_the_hub() {
    let frame = build_command(CommandId::GetVersion, &[]);
    let raw = cobs_decode(&frame).unwrap();
    assert_eq!(raw[1], 0x01);
    let payload = wifi_config_payload("Net", "pw");
    assert_eq!(payload, b"\x03Net\x02pw");
    assert_eq!(mqtt_config_payload("h", 1883, ""), [0x5B, 0x07, 1, b'h', 0]);
    assert_eq!(
        gateway_config_payload(868_100_000, 7, 125, 5, "h", 1700),
        [0xA0, 0x27, 0xBE, 0x33, 7, 125, 0, 0, 0, 5, 0xA4, 0x06, 1, b'h']
    );
    match parse_command(&build_raw(HubCommandId::SetWifiConfig.to_byte(), &payload)) {
        Ok(HubCommand::SetWifiConfig(wifi)) => assert_eq!(wifi.ssid.as_str(), "Net"),
        _ => panic!("the hub reads what the host writes"),
    }
}

#[test]
fn responses_are_read_back() {
    let status = HubStatus {
        wifi_state: LinkState::Connected,
        ip: [192, 168, 1, 42],
        mqtt_state: LinkState::Connecting,
        uplink_count: 17,
        downlink_count: 3,
        dropped_count: 1,
        uptime_secs: 3600,
    };
    let frame = encode_response(&HubResponse::HubStatus(status));
    let raw = cobs_decode(frame.as_slice()).unwrap();
    let response = parse_response(&raw).unwrap();
    assert_eq!(response.resp_id, ResponseId::HubStatus);
    let read = parse_hub_status(&response.payload).unwrap();
    assert_eq!(read.wifi_state, 2);
    assert_eq!(read.ip, [192, 168, 1, 42]);
    assert_eq!(read.uplink_count, 17);
    assert_eq!(read.uptime_secs, 3600);
    assert_eq!(parse_hub_status(&[0; 21]).err(), Some(HostError::StatusLength { len: 21 }));
}

#[test]
fn damaged_responses_are_refused_for_a_reason() {
    let frame = encode_response(&HubResponse::ConfigAck { status: AckStatus::Success });
    let raw = cobs_decode(frame.as_slice()).unwrap();
    assert_eq!(parse_response(&raw[..5]).err(), Some(HostError::TooShort { len: 5 }));
    assert_eq!(
        parse_response(&raw[..6]).err(),
        Some(HostError::Incomplete { expected: 7, got: 6 })
    );
    let mut flipped = raw.clone();
    flipped[4] ^= 1;
    assert!(matches!(parse_response(&flipped).err(), Some(HostError::CrcMismatch { .. })));
    let foreign = build_raw(0x77, &[]);
    assert_eq!(parse_response(&foreign).err(), Some(HostError::UnknownId(0x77)));
    let mut other = vec![2, 0x01, 0, 0];
    let crc = crc16(&other);
    other.extend_from_slice(&crc.to_le_bytes());
    assert_eq!(parse_response(&other).err(), Some(HostError::VersionMismatch { version: 2 }));
    assert_eq!(parse_raw(&raw[..3]).err(), Some(ParseError::TooShort));
    assert_eq!(parse_raw(&other).err(), Some(ParseError::InvalidVersion));
}

#[test]
fn status_bytes_have_meanings() {
    assert_eq!(ResponseStatus::try_from(0x11), Ok(ResponseStatus::Timeout));
    assert_eq!(ResponseStatus::try_from(0x42), Err(0x42));
    assert_eq!(ResponseId::try_from(0xFF), Ok(ResponseId::Error));
    assert_eq!(ResponseId::try_from(0x42), Err(0x42));
}

#[test]
fn the_usb_serial_carries_the_topic_id() {
    let id = device_id([0x24, 0x6F, 0x28, 0xAA, 0xBB, 0xCC]);
    let serial = format_usb_serial(id);
    assert_eq!(serial.as_str(), "LMH-AABBCC");
    assert_eq!(hub_id(serial.as_str()).unwrap(), b"AABBCC");
    assert!(hub_id("WT-AABBCC").is_none());
}

#[test]
fn usb_packets_are_always_short() {
    assert_eq!(write_len(10, 64), 10);
    assert_eq!(write_len(63, 64), 63);
    assert_eq!(write_len(64, 64), 63);
    assert_eq!(write_len(500, 64), 63);
}

#[test]
fn cobs_runs_end_at_zeros_and_at_254_bytes() {
    let ones = [1u8; 255];
    let full = |tail: &[u8]| [&[255][..], &ones[..254], tail].concat();
    assert_eq!(cobs_encode(&[0]), vec![1, 1, 0]);
    assert_eq!(cobs_encode(&ones[..253]), [&[254][..], &ones[..253], &[0]].concat());
    assert_eq!(cobs_encode(&ones[..254]), full(&[0]));
    assert_eq!(cobs_encode(&ones), full(&[2, 1, 0]));
    let with_zero = [&ones[..254], &[0]].concat();
    assert_eq!(cobs_encode(&with_zero), full(&[1, 1, 0]));
    for data in [&ones[..253], &ones[..254], &ones[..], &with_zero[..]] {
        assert_eq!(cobs_decode(&cobs_encode(data)), Ok(data.to_vec()));
    }
}

#[test]
fn cobs_decoding_stops_at_the_delimiter() {
    assert_eq!(cobs_decode(&[0]), Ok(vec![]));
    assert_eq!(cobs_decode(&[2, 7, 0, 9, 9]), Ok(vec![7]));
    assert_eq!(cobs_decode(&[1, 2, 7, 0]), Ok(vec![0, 7]));
    assert_eq!(cobs_decode(&[3, 0, 5, 0]), Ok(vec![0, 5]));
    assert_eq!(cobs_decode(&[]), Err(HostError::Truncated));
    assert_eq!(cobs_decode(&[2, 7]), Err(HostError::Truncated));
    assert_eq!(cobs_decode(&[2, 7, 3, 1]), Err(HostError::Truncated));
}
