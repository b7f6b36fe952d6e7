use lora_mqtt_hub::bridge::codec::{
    hex_decode, hex_encode, parse_downlink, status_json, tx_result_json, uplink_json, CodecError,
    Downlink, DownlinkMsg, MAX_JSON,
};
use lora_mqtt_hub::bridge::{BridgeState, DownlinkOutcome, Topic, MAX_IN_FLIGHT};
use lora_mqtt_hub::net::traits::{addressed, TopicSet};
use lora_mqtt_hub::wt::{Command, Response};
use serde::de::{Deserialize, Deserializer, Error, IgnoredAny, MapAccess, Visitor};
use std::fmt;

/// A downlink request as it stands in JSON.
struct Request<'a> {
    payload_hex: &'a str,
    id: Option<u32>,
}

struct RequestVisitor;

impl<'de> Visitor<'de> for RequestVisitor {
    type Value = Request<'de>;

    fn expecting(&self, f: &mut fmt::Formatter<'_>) -> fmt::Result {
        f.write_str("a downlink request")
    }

    fn visit_map<A: MapAccess<'de>>(self, mut map: A) -> Result<Request<'de>, A::Error> {
        let mut payload_hex = None;
        let mut id = None;
        while let Some(key) = map.next_key::<&'de str>()? {
            match key {
                "payload_hex" => payload_hex = Some(map.next_value::<&'de str>()?),
                "id" => id = map.next_value::<Option<u32>>()?,
                _ => {
                    map.next_value::<IgnoredAny>()?;
                }
            }
        }
        match payload_hex {
            Some(payload_hex) => Ok(Request { payload_hex, id }),
            None => Err(A::Error::missing_field("payload_hex")),
        }
    }
}

impl<'de> Deserialize<'de> for Request<'de> {
    fn deserialize<D: Deserializer<'de>>(deserializer: D) -> Result<Self, D::Error> {
        deserializer.deserialize_struct("Request", &["payload_hex", "id"], RequestVisitor)
    }
}

fn read(json: &[u8]) -> Option<DownlinkMsg<'_>> {
    let (request, _) = serde_json_core::from_slice::<Request>(json).ok()?;
    Some(DownlinkMsg { payload_hex: request.payload_hex, id: request.id })
}

fn parse(json: &[u8]) -> Result<Downlink, CodecError> {
    parse_downlink(read(json).as_ref())
}

fn on_downlink(state: &mut BridgeState, json: &[u8]) -> DownlinkOutcome {
    state.on_downlink(read(json).as_ref())
}

#[test]
fn hex_round_trip() {
    let data = [0x00, 0x01, 0xAB, 0xFF];
    let hex = hex_encode(&data);
    assert_eq!(hex.as_str(), "0001abff");
    assert_eq!(hex_decode(hex.as_str()).ok().unwrap().as_slice(), &data);
}

#[test]
fn hex_decode_rejects_bad_input() {
    assert!(hex_decode("") == Err(CodecError::Hex));
    assert!(hex_decode("abc") == Err(CodecError::Hex));
    assert!(hex_decode("zz") == Err(CodecError::Hex));
    // 257 bytes exceeds MAX_LORA_PAYLOAD
    let long: String = "ab".repeat(257);
    assert!(hex_decode(&long) == Err(CodecError::Hex));
}

#[test]
fn uplink_json_golden() {
    let json = uplink_json(b"Hi", -87, 5, 12, 123_456);
    assert_eq!(
        core::str::from_utf8(json.as_slice()).unwrap(),
        r#"{"payload_hex":"4869","rssi":-87,"snr":5,"seq":12,"uptime_ms":123456}"#
    );
}

#[test]
fn uplink_json_fits_max_payload() {
    let data = [0xAA; 256];
    let json = uplink_json(&data, -120, -19, u32::MAX, u64::MAX);
    assert!(json.len() > 0);
    assert!(json.len() <= MAX_JSON);
}

#[test]
fn downlink_parses_with_and_without_id() {
    let down = parse(br#"{"payload_hex":"4869","id":7}"#).ok().unwrap();
    assert_eq!(down.payload.as_slice(), b"Hi");
    assert_eq!(down.id, Some(7));

    let down = parse(br#"{"payload_hex":"ff"}"#).ok().unwrap();
    assert_eq!(down.payload.as_slice(), &[0xFF]);
    assert_eq!(down.id, None);
}

#[test]
fn downlink_rejects_bad_json_and_hex() {
    assert!(parse(b"not json") == Err(CodecError::Json));
    assert!(parse(br#"{"id":1}"#) == Err(CodecError::Json));
    assert!(parse(br#"{"payload_hex":"xyz1"}"#) == Err(CodecError::Hex));
    assert!(parse(br#"{"payload_hex":""}"#) == Err(CodecError::Hex));
}

#[test]
fn tx_result_json_variants() {
    let sent = tx_result_json("sent", Some(7), None);
    assert_eq!(
        core::str::from_utf8(sent.as_slice()).unwrap(),
        r#"{"result":"sent","id":7}"#
    );
    let refused = tx_result_json("refused", None, Some(30));
    assert_eq!(
        core::str::from_utf8(refused.as_slice()).unwrap(),
        r#"{"result":"refused","retry_after_secs":30}"#
    );
}

#[test]
fn status_json_variants() {
    assert_eq!(
        core::str::from_utf8(status_json(true, Some("0.1.0")).as_slice()).unwrap(),
        r#"{"online":true,"fw":"0.1.0"}"#
    );
    assert_eq!(
        core::str::from_utf8(status_json(false, None).as_slice()).unwrap(),
        r#"{"online":false}"#
    );
}

#[test]
fn rx_packet_publishes_with_incrementing_seq() {
    let mut state = BridgeState::new();
    let first = state.on_rx_packet(b"a", -50, 3, 1000);
    let second = state.on_rx_packet(b"b", -50, 3, 2000);
    assert_eq!(first.topic, Topic::Rx);
    assert!(core::str::from_utf8(first.payload.as_slice()).unwrap().contains("\"seq\":0"));
    assert!(core::str::from_utf8(second.payload.as_slice()).unwrap().contains("\"seq\":1"));
}

#[test]
fn downlink_send_and_complete_round_trip() {
    let mut state = BridgeState::new();
    let outcome = on_downlink(&mut state, br#"{"payload_hex":"4869","id":42}"#);
    let DownlinkOutcome::Send { sequence_id, command } = outcome else {
        panic!("expected Send");
    };
    assert!(Some(command) == Command::lora_tx(b"Hi").ok());

    let result = state
        .on_command_response(sequence_id, &Response::TxComplete)
        .unwrap();
    assert_eq!(result.topic, Topic::TxResult);
    assert_eq!(
        core::str::from_utf8(result.payload.as_slice()).unwrap(),
        r#"{"result":"sent","id":42}"#
    );
    // The entry is consumed; a second response is ignored.
    assert!(state.on_command_response(sequence_id, &Response::TxComplete).is_none());
}

#[test]
fn refused_downlink_reports_retry_hint() {
    let mut state = BridgeState::new();
    let DownlinkOutcome::Send { sequence_id, .. } =
        on_downlink(&mut state, br#"{"payload_hex":"ff"}"#)
    else {
        panic!("expected Send");
    };
    let result = state
        .on_command_response(sequence_id, &Response::TxRefused { retry_after_secs: 30 })
        .unwrap();
    assert_eq!(
        core::str::from_utf8(result.payload.as_slice()).unwrap(),
        r#"{"result":"refused","retry_after_secs":30}"#
    );
}

#[test]
fn invalid_downlink_is_rejected_without_state() {
    let mut state = BridgeState::new();
    let outcome = on_downlink(&mut state, b"nonsense");
    let DownlinkOutcome::Reject(out) = outcome else {
        panic!("expected Reject");
    };
    assert!(core::str::from_utf8(out.payload.as_slice()).unwrap().contains("bad_json"));
    // No in-flight entry was created.
    assert!(state.on_command_response(0, &Response::TxComplete).is_none());
}

#[test]
fn in_flight_cap_rejects_busy() {
    let mut state = BridgeState::new();
    for _ in 0..MAX_IN_FLIGHT {
        let outcome = on_downlink(&mut state, br#"{"payload_hex":"00"}"#);
        assert!(matches!(outcome, DownlinkOutcome::Send { .. }));
    }
    let outcome = on_downlink(&mut state, br#"{"payload_hex":"00","id":9}"#);
    let DownlinkOutcome::Reject(out) = outcome else {
        panic!("expected Reject");
    };
    let json = core::str::from_utf8(out.payload.as_slice()).unwrap();
    assert!(json.contains("busy"));
    assert!(json.contains("\"id\":9"));
}

#[test]
fn abandon_clears_the_entry_and_reports() {
    let mut state = BridgeState::new();
    let DownlinkOutcome::Send { sequence_id, .. } =
        on_downlink(&mut state, br#"{"payload_hex":"00","id":5}"#)
    else {
        panic!("expected Send");
    };
    let out = state.abandon(sequence_id, "queue_full");
    let json = core::str::from_utf8(out.payload.as_slice()).unwrap();
    assert!(json.contains("queue_full"));
    assert!(json.contains("\"id\":5"));
    assert!(state.on_command_response(sequence_id, &Response::TxComplete).is_none());
}

#[test]
fn responses_from_other_sources_are_ignored() {
    let mut state = BridgeState::new();
    // Sequence id 99 was never issued by the bridge.
    assert!(state.on_command_response(99, &Response::TxComplete).is_none());
}

#[test]
fn topics_derive_from_device_id() {
    let topics = TopicSet::new([0xAA, 0xBB, 0xCC]);
    assert_eq!(topics.resolve(Topic::Rx), "wt/hub/AABBCC/rx");
    assert_eq!(topics.tx(), "wt/hub/AABBCC/tx");
    assert_eq!(topics.resolve(Topic::TxResult), "wt/hub/AABBCC/tx/result");
    assert_eq!(topics.status(), "wt/hub/AABBCC/status");
}

#[test]
fn rx_packet_flows_to_the_rx_topic() {
    let mut state = BridgeState::new();
    let topics = TopicSet::new([0x01, 0x02, 0x03]);

    let outbound = state.on_rx_packet(b"Hi", -87, 5, 1000);
    let publication = addressed(&topics, &outbound);

    assert_eq!(publication.topic, "wt/hub/010203/rx");
    assert!(core::str::from_utf8(publication.payload)
        .unwrap()
        .contains("\"payload_hex\":\"4869\""));
    assert!(!publication.retain);
}

#[test]
fn answers_come_back_under_their_ids() {
    let mut state = BridgeState::new();
    let mut sent = Vec::new();
    for json in [&br#"{"payload_hex":"01","id":1}"#[..], br#"{"payload_hex":"02","id":2}"#] {
        match on_downlink(&mut state, json) {
            DownlinkOutcome::Send { sequence_id, .. } => sent.push(sequence_id),
            DownlinkOutcome::Reject(_) => panic!("expected Send"),
        }
    }
    for (sequence_id, json) in
        [(sent[1], r#"{"result":"error","id":2}"#), (sent[0], r#"{"result":"error","id":1}"#)]
    {
        let error = Response::Version { major: 0, minor: 0, patch: 0 };
        let result = state.on_command_response(sequence_id, &error).unwrap();
        assert_eq!(core::str::from_utf8(result.payload.as_slice()).unwrap(), json);
    }
}

#[test]
fn bad_hex_is_told_apart_from_bad_json() {
    let mut state = BridgeState::new();
    let DownlinkOutcome::Reject(out) = on_downlink(&mut state, br#"{"payload_hex":"0g"}"#) else {
        panic!("expected Reject");
    };
    assert_eq!(out.payload.as_slice(), br#"{"result":"bad_payload"}"#);
}

#[test]
fn hex_is_cut_at_the_largest_packet() {
    assert_eq!(hex_encode(&[0xAB; 300]).as_str(), "ab".repeat(256));
    assert_eq!(hex_decode("aBCd").ok().unwrap().as_slice(), &[0xAB, 0xCD]);
}
