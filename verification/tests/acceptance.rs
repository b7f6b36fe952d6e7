use lora_mqtt_hub::acceptance::bridge_script::{
    carries, downlink_request, has_id, nonce, payload, reports_payload, reports_signal,
    says_bad_json, says_online, says_sent, ScriptStep,
};
use lora_mqtt_hub::acceptance::contains;
use lora_mqtt_hub::acceptance::lockout::{
    judge_drained, judge_spent, parse_retry_secs, reported_spreading_factor, LockoutFailure,
    SpendStep, Spending, MAX_SF7_DRAIN,
};
use lora_mqtt_hub::acceptance::network_server::{
    accepted, ack_for, has_standard_insertion, keepalive_eui, pull_resp, refused_as_stale,
    stat_report, tx_ack,
};
use lora_mqtt_hub::acceptance::provisioning::{
    bridge_settings, gateway_settings, gives_away, hub_of_topic, is_online, mode_byte, BridgeCheck,
    GatewayCheck,
};
use lora_mqtt_hub::bridge::codec::{status_json, tx_result_json, uplink_json};
use lora_mqtt_hub::gateway::forwarder::{DatagramOutcome, GatewayForwarder};
use lora_mqtt_hub::gateway::udp_protocol::{parse_datagram, Downstream, TxAckError};
use lora_mqtt_hub::host_protocol::{HubCommandId, HubStatus, ResponseId, CONNECTED, CONNECTING};
use lora_mqtt_hub::hub_protocol::codec::parse_command;
use lora_mqtt_hub::hub_protocol::types::{HubCommand, HubMode};
use lora_mqtt_hub::wire::build_raw;

const MAC: [u8; 6] = [0x24, 0x6F, 0x28, 0xAA, 0xBB, 0xCC];

#[test]
fn substrings_are_found_anywhere() {
    assert!(contains(b"abcabd", b"abd"));
    assert!(contains(b"abc", b""));
    assert!(!contains(b"abc", b"abcd"));
    assert!(!contains(b"abcab", b"abd"));
}

#[test]
fn server_and_gateway_understand_each_other() {
    let mut gateway = GatewayForwarder::new(&MAC);
    let mut out = [0u8; 600];

    let len = gateway.on_keepalive(&mut out);
    let keepalive = out[..len].to_vec();
    let eui = keepalive_eui(&keepalive).unwrap();
    assert_eq!(eui, [0x24, 0x6F, 0x28, 0xFF, 0xFE, 0xAA, 0xBB, 0xCC]);
    assert!(has_standard_insertion(&eui));
    let ack = ack_for(&keepalive).unwrap();
    let token = u16::from_be_bytes([keepalive[1], keepalive[2]]);
    assert_eq!(parse_datagram(&ack), Ok(Downstream::PullAck { token }));

    let len = gateway.on_stat(&mut out);
    let report = out[..len].to_vec();
    assert!(stat_report(&report).unwrap().starts_with(b"{\"stat\":{"));
    assert!(stat_report(&keepalive).is_none());
    let ack = ack_for(&report).unwrap();
    assert!(gateway.on_datagram(0, 0, &ack, None, &mut out) == DatagramOutcome::Nothing);
    assert_eq!(gateway.stats().push_acked, 1);

    let downlink = pull_resp(0x1234, "{}");
    assert_eq!(downlink, vec![2, 0x12, 0x34, 3, b'{', b'}']);
    assert!(ack_for(&downlink).is_none());

    let len = gateway.tx_ack(&mut out, 0x1234, TxAckError::NoError);
    let answer = tx_ack(&out[..len], 0x1234).unwrap();
    assert!(accepted(&answer));
    assert!(!refused_as_stale(&answer));
    assert!(tx_ack(&out[..len], 0x1235).is_none());
    let len = gateway.tx_ack(&mut out, 7, TxAckError::TooLate);
    assert!(refused_as_stale(&tx_ack(&out[..len], 7).unwrap()));
}

#[test]
fn short_or_foreign_datagrams_are_not_acknowledged() {
    assert!(ack_for(&[2, 0, 1, 2]).is_none());
    assert!(ack_for(&[1, 0, 1, 2, 0, 0, 0, 0, 0, 0, 0, 0]).is_none());
    assert!(ack_for(&[2, 0, 1, 5, 0, 0, 0, 0, 0, 0, 0, 0]).is_none());
}

#[test]
fn spending_ends_with_the_refusal() {
    let mut spending = Spending::new(130);
    for _ in 0..110 {
        assert_eq!(spending.on_response(ResponseId::TxComplete, &[]), SpendStep::Send);
    }
    assert_eq!(
        spending.on_response(ResponseId::TxRefused, &[0x10, 0x0E, 0, 0]),
        SpendStep::Spent(110, 3600)
    );
    assert_eq!(judge_spent(110, 3600), None);
    assert_eq!(judge_spent(99, 3600), Some(LockoutFailure::WrongBudget(99)));
    assert_eq!(judge_spent(110, 0), Some(LockoutFailure::HintOutOfRange(0)));
    assert_eq!(judge_drained(3601), Some(LockoutFailure::HintOutOfRange(3601)));
    assert_eq!(judge_drained(1), None);
}

#[test]
fn spending_fails_for_a_reason() {
    let mut spending = Spending::new(MAX_SF7_DRAIN);
    assert_eq!(
        spending.on_response(ResponseId::Error, &[]),
        SpendStep::Failed(LockoutFailure::Unexpected(ResponseId::Error))
    );
    assert_eq!(
        spending.on_response(ResponseId::TxRefused, &[1]),
        SpendStep::Failed(LockoutFailure::BadHint(1))
    );
    for _ in 0..24 {
        assert_eq!(spending.on_response(ResponseId::TxComplete, &[]), SpendStep::Send);
    }
    assert_eq!(
        spending.on_response(ResponseId::TxComplete, &[]),
        SpendStep::Failed(LockoutFailure::NeverRefused)
    );
}

#[test]
fn radio_payloads_are_read() {
    assert_eq!(reported_spreading_factor(&[1, 2, 3, 4, 11, 0]), Some(11));
    assert_eq!(reported_spreading_factor(&[1, 2, 3, 4]), None);
    assert_eq!(parse_retry_secs(&[30, 0, 0, 0]), Ok(30));
    assert_eq!(parse_retry_secs(&[30, 0, 0]), Err(3));
}

#[test]
fn the_script_passes_when_everything_works() {
    let mut step = ScriptStep::FindHub;
    let mut steps = 0;
    while !matches!(step, ScriptStep::Passed | ScriptStep::Failed) {
        step = step.next(3, true);
        steps += 1;
    }
    assert_eq!(step, ScriptStep::Passed);
    // Ten steps, five in each of three rounds, and two.
    assert_eq!(steps, 27);
}

#[test]
fn the_script_retries_what_the_air_lost_once() {
    let lost = ScriptStep::SoakAwait { round: 1, retry: false }.next(3, false);
    assert_eq!(lost, ScriptStep::SoakSend { round: 1, retry: true });
    assert_eq!(ScriptStep::SoakAwait { round: 1, retry: true }.next(3, false), ScriptStep::Failed);
    assert_eq!(
        ScriptStep::SoakHear { round: 2, retry: false }.next(3, false),
        ScriptStep::SoakPublish { round: 2, retry: true }
    );
    assert_eq!(ScriptStep::SoakResult { round: 2, retry: false }.next(3, false), ScriptStep::Failed);
    assert_eq!(ScriptStep::AwaitUplink.next(3, false), ScriptStep::Failed);
    assert_eq!(ScriptStep::AwaitResult.next(0, true), ScriptStep::SendGarbage);
    assert_eq!(ScriptStep::SoakHear { round: 2, retry: true }.next(3, true), ScriptStep::SendGarbage);
}

#[test]
fn script_messages_are_spelled_out() {
    assert_eq!(nonce(1_700_012_345), 12_345);
    assert_eq!(payload("e2e-up-", 12_345, None), b"e2e-up-12345");
    assert_eq!(payload("e2e-soak-up-", 7, Some(2)), b"e2e-soak-up-7-2");
    assert_eq!(downlink_request(b"Hi", Some(7)), br#"{"payload_hex":"4869","id":7}"#);
    assert_eq!(downlink_request(b"Hi", None), br#"{"payload_hex":"4869"}"#);
}

#[test]
fn hub_messages_meet_the_script() {
    assert!(says_online(status_json(true, Some("0.1.0")).as_slice()));
    assert!(!says_online(status_json(false, None).as_slice()));
    let uplink = uplink_json(b"Hi", -87, 5, 1, 2);
    assert!(carries(uplink.as_slice(), b"Hi"));
    assert!(!carries(uplink.as_slice(), b"Ho"));
    assert!(reports_payload(uplink.as_slice(), b"Hi"));
    assert!(!reports_payload(uplink.as_slice(), b"H"));
    assert!(!reports_payload(br#"{"other":"4869"}"#, b"Hi"));
    assert!(reports_signal(uplink.as_slice()));
    let result = tx_result_json("sent", Some(42), None);
    assert!(says_sent(result.as_slice()) && has_id(result.as_slice(), 42));
    assert!(!has_id(result.as_slice(), 43));
    assert!(says_bad_json(tx_result_json("bad_json", None, None).as_slice()));
}

#[test]
fn settings_are_what_the_hub_reads() {
    let settings = bridge_settings("Net", "pw", "10.0.0.2", 1883);
    let read: Vec<HubCommand> = settings
        .iter()
        .map(|setting| parse_command(&build_raw(setting.id.to_byte(), &setting.payload)).ok().unwrap())
        .collect();
    match &read[0] {
        HubCommand::SetWifiConfig(wifi) => {
            assert_eq!(wifi.ssid.as_str(), "Net");
            assert_eq!(wifi.password.as_str(), "pw");
        }
        _ => panic!("the network comes first"),
    }
    match &read[1] {
        HubCommand::SetMqttConfig(mqtt) => assert_eq!(mqtt.port, 1883),
        _ => panic!("the broker comes second"),
    }
    assert!(read[2] == HubCommand::SetMode { mode: HubMode::Bridge });

    let settings = gateway_settings("", "", "10.0.0.3", 1700);
    assert_eq!(settings.len(), 2);
    assert_eq!(settings[0].id, HubCommandId::SetGatewayConfig);
    match parse_command(&build_raw(settings[0].id.to_byte(), &settings[0].payload)) {
        Ok(HubCommand::SetGatewayConfig(gateway)) => {
            assert_eq!(gateway.frequency_hz, 868_100_000);
            assert_eq!(gateway.host.as_str(), "10.0.0.3");
        }
        _ => panic!("gateway settings come first"),
    }
    assert_eq!(settings[1].payload, vec![1]);
    assert_eq!(gateway_settings("Net", "pw", "h", 1).len(), 3);
}

#[test]
fn modes_have_names() {
    assert_eq!(mode_byte("bridge"), Some(0));
    assert_eq!(mode_byte("gateway"), Some(1));
    assert_eq!(mode_byte("Gateway"), None);
}

#[test]
fn a_hub_is_online_when_both_links_are() {
    let mut status = HubStatus {
        wifi_state: CONNECTED,
        ip: [10, 0, 0, 5],
        mqtt_state: CONNECTING,
        uplink_count: 0,
        downlink_count: 0,
        dropped_count: 0,
        uptime_secs: 0,
    };
    assert!(!is_online(&status));
    status.mqtt_state = CONNECTED;
    assert!(is_online(&status));
}

#[test]
fn passwords_are_searched_for() {
    assert!(gives_away(b"xxsecretxx", "secret"));
    assert!(!gives_away(b"xxsecrexx", "secret"));
    assert!(!gives_away(b"anything", ""));
}

#[test]
fn topics_lead_back_to_the_hub() {
    assert_eq!(hub_of_topic("wt/hub/AABBCC/status", "/status").unwrap(), b"AABBCC");
    assert!(hub_of_topic("wt/hub/AABBCC/rx", "/status").is_none());
    assert_eq!(hub_of_topic("/status", "/status").unwrap(), b"");
}

#[test]
fn checks_run_in_order() {
    let mut check = BridgeCheck::start(false);
    assert_eq!(check, BridgeCheck::Provision);
    for _ in 0..10 {
        check = check.next(true);
    }
    assert_eq!(check, BridgeCheck::Passed);
    assert_eq!(BridgeCheck::start(true), BridgeCheck::AwaitOnline);
    assert_eq!(BridgeCheck::ReadConfig.next(false), BridgeCheck::Failed);
    let mut check = GatewayCheck::start(false);
    for _ in 0..5 {
        check = check.next(true);
    }
    assert_eq!(check, GatewayCheck::Passed);
    assert_eq!(GatewayCheck::start(true).next(false), GatewayCheck::Failed);
}
