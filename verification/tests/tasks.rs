use lora_mqtt_hub::bounded::{Bytes, Text};
use lora_mqtt_hub::bridge::codec::DownlinkMsg;
use lora_mqtt_hub::bridge::{BridgeState, Topic};
use lora_mqtt_hub::dispatcher::{CommandSource, ResponseMessage};
use lora_mqtt_hub::gateway::forwarder::GatewayForwarder;
use lora_mqtt_hub::gateway::udp_protocol::{ACK_BUF, TX_ACK};
use lora_mqtt_hub::gateway::DownlinkJob;
use lora_mqtt_hub::hub_config::{HubConfig, StoreError};
use lora_mqtt_hub::hub_protocol::codec::parse_response;
use lora_mqtt_hub::hub_protocol::types::{
    AckStatus, HubCommand, HubMode, HubResponse, LinkState, MqttSettings, WifiSettings,
};
use lora_mqtt_hub::lora::traits::{LoraConfig, RxPacket, SyncWord};
use lora_mqtt_hub::net::stats::HubStats;
use lora_mqtt_hub::net::traits::TopicSet;
use lora_mqtt_hub::portal::http::{try_parse, ConfigUpdate, HttpRequest, ParseOutcome, MAX_REQUEST};
use lora_mqtt_hub::portal::page::INDEX_HTML;
use lora_mqtt_hub::tasks::ble::{
    advertising_data, chunks, decode_frame, format_device_name, keepalive, parsed_command,
    queue_full, random_address, BleSession, FrameStep, LinkStep,
};
use lora_mqtt_hub::tasks::boot::boot_plan;
use lora_mqtt_hub::tasks::bridge::{on_enqueued, on_lagged, on_queue_full, on_request, RequestStep};
use lora_mqtt_hub::tasks::gateway::{
    fire_delay, on_transmitted, on_uplink, rx_meta, setup_step, uplink_config, GatewayLoop,
    GatewayStep, SetupStep,
};
use lora_mqtt_hub::tasks::gateway_udp::{acknowledge, server_configured, ForwarderTimer};
use lora_mqtt_hub::tasks::hub_ctrl::{reply, stored, ControlStep, HubControl, StoreCall};
use lora_mqtt_hub::tasks::mqtt::{
    broker_configured, firmware_version, last_will, on_forwarded, on_publish, online_announcement,
    resolve_client_id, BrokerLink, SessionStep,
};
use lora_mqtt_hub::tasks::portal::{on_received, respond, ApplyStep, PortalStep, Received};
use lora_mqtt_hub::tasks::wifi::{access_point_ssid, open_network, ConnectStep, WifiManager, WifiStep};
use lora_mqtt_hub::tasks::{ble, bridge};
use lora_mqtt_hub::wire::{cobs_decode, cobs_encode};
use lora_mqtt_hub::wt::{Command, CommandId, Response, ResponseStatus};

fn text<const N: usize>(value: &str) -> Text<N> {
    Text::try_from(value).ok().unwrap()
}

fn provisioned() -> HubConfig {
    let mut config = HubConfig::default();
    config.wifi.ssid = text("HomeNet");
    config.wifi.password = text("secret");
    config
}

// BLE

#[test]
fn ble_names_and_addresses_derive_from_the_device_id() {
    assert_eq!(format_device_name([0xAA, 0x0B, 0xCC]).as_str(), "WalkieTextie-AA0BCC");
    assert_eq!(random_address([1, 2, 3]), [1, 2, 3, 0x1E, 0x83, 0xE7]);
}

#[test]
fn advertising_data_holds_flags_and_name() {
    let data = advertising_data("WalkieTextie-AABBCC").unwrap();
    assert_eq!(&data[..5], &[0x02, 0x01, 0x06, 20, 0x09]);
    assert_eq!(&data[5..], b"WalkieTextie-AABBCC");
    assert_eq!(advertising_data(&"n".repeat(26)).unwrap().len(), 31);
    assert!(advertising_data(&"n".repeat(27)).is_none());
}

#[test]
fn a_failed_link_step_goes_back_to_advertising() {
    let mut step = LinkStep::Advertise;
    for expected in [
        LinkStep::Accept,
        LinkStep::Attach,
        LinkStep::UpdateParameters,
        LinkStep::Subscribe,
        LinkStep::Serve,
        LinkStep::Advertise,
    ] {
        step = step.next(true);
        assert_eq!(step, expected);
    }
    assert_eq!(LinkStep::Accept.next(false), LinkStep::Advertise);
    assert_eq!(LinkStep::UpdateParameters.next(false), LinkStep::Subscribe);
}

#[test]
fn frames_are_decoded_or_answered() {
    let frame = cobs_encode(&[1, 0x10, 0, 0]);
    let decoded = decode_frame(&frame).ok().unwrap();
    assert_eq!(decoded.bytes, vec![1, 0x10, 0, 0]);
    assert_eq!(decoded.command_id, 0x10);

    // No delimiter.
    assert!(
        decode_frame(&[5, 1, 2]).err()
            == Some(Response::Error { status: ResponseStatus::CrcError, command_id: 0 })
    );
    // Nothing but the delimiter's frame.
    assert!(
        decode_frame(&cobs_encode(&[])).err()
            == Some(Response::Error { status: ResponseStatus::InvalidLength, command_id: 0 })
    );
    assert!(
        parsed_command(Err(ResponseStatus::InvalidVersion), 0x12).err()
            == Some(Response::Error { status: ResponseStatus::InvalidVersion, command_id: 0x12 })
    );
}

#[test]
fn every_frame_takes_the_next_sequence_id() {
    let mut session = BleSession::new();
    match session.on_frame(Ok(Command::GetVersion)) {
        FrameStep::Queue(envelope) => {
            assert_eq!(envelope.sequence_id, 1);
            assert_eq!(envelope.source, CommandSource::Ble);
            assert!(envelope.command == Command::GetVersion);
        }
        FrameStep::Notify(_) => panic!("a command is queued"),
    }
    assert!(matches!(
        session.on_frame(Err(Response::TxComplete)),
        FrameStep::Notify(Response::TxComplete)
    ));
    match session.on_frame(Ok(Command::Reboot)) {
        FrameStep::Queue(envelope) => assert_eq!(envelope.sequence_id, 3),
        FrameStep::Notify(_) => panic!("a command is queued"),
    }
    assert!(
        queue_full(CommandId::LoraTx)
            == Response::Error { status: ResponseStatus::Timeout, command_id: 0x10 }
    );
}

#[test]
fn only_the_centrals_own_responses_are_notified() {
    let message = |source| ResponseMessage::Command {
        source,
        sequence_id: 1,
        response: Response::TxComplete,
    };
    assert!(ble::on_message(message(CommandSource::Ble)) == Some(Response::TxComplete));
    assert!(ble::on_message(message(CommandSource::Serial)).is_none());
    assert!(
        ble::on_message(ResponseMessage::Unsolicited(Response::TxComplete))
            == Some(Response::TxComplete)
    );
    assert!(ble::on_message(ResponseMessage::HubRaw {
        source: CommandSource::Ble,
        frame: Bytes::new()
    })
    .is_none());
    assert!(keepalive() == Response::Version { major: 0, minor: 1, patch: 0 });
}

#[test]
fn chunks_lose_nothing() {
    let frame: Vec<u8> = (0..=255).chain(0..=44).map(|n: u32| n as u8).collect();
    let parts = chunks(&frame, 128);
    assert_eq!(parts.iter().map(|part| part.len()).collect::<Vec<_>>(), vec![128, 128, 45]);
    assert_eq!(parts.concat(), frame);
    assert!(chunks(&[], 128).is_empty());
    assert_eq!(chunks(&frame[..128], 128).len(), 1);
}

// Bridge

#[test]
fn received_packets_are_published_and_counted_once_queued() {
    let mut state = BridgeState::new();
    let mut stats = HubStats::new();
    let message = ResponseMessage::Unsolicited(Response::RxPacket {
        data: Bytes::from_slice(b"Hi").ok().unwrap(),
        rssi: -87,
        snr: 5,
    });
    let queued = bridge::on_message(&mut state, &mut stats, &message, 1000).unwrap();
    assert!(queued.uplink);
    assert_eq!(queued.outbound.topic, Topic::Rx);
    assert_eq!(stats.snapshot(0).uplink_count, 0);

    on_enqueued(&mut stats, true, queued.uplink);
    on_enqueued(&mut stats, false, queued.uplink);
    assert_eq!(stats.snapshot(0).uplink_count, 1);
    assert_eq!(stats.snapshot(0).dropped_count, 1);
    on_lagged(&mut stats, 7);
    assert_eq!(stats.snapshot(0).dropped_count, 8);
}

#[test]
fn bridge_answers_are_published_and_others_ignored() {
    let mut state = BridgeState::new();
    let mut stats = HubStats::new();
    let request = DownlinkMsg { payload_hex: "4869", id: Some(42) };
    let envelope = match on_request(&mut state, Some(&request)) {
        RequestStep::Command(envelope) => envelope,
        RequestStep::Publish(_) => panic!("a valid request is sent"),
    };
    assert_eq!(envelope.source, CommandSource::WiFi);
    assert!(Some(envelope.command) == Command::lora_tx(b"Hi").ok());

    let answer = |source| ResponseMessage::Command {
        source,
        sequence_id: envelope.sequence_id,
        response: Response::TxComplete,
    };
    assert!(bridge::on_message(&mut state, &mut stats, &answer(CommandSource::Serial), 0).is_none());
    assert_eq!(stats.snapshot(0).downlink_count, 0);
    let queued =
        bridge::on_message(&mut state, &mut stats, &answer(CommandSource::WiFi), 0).unwrap();
    assert!(!queued.uplink);
    assert_eq!(queued.outbound.payload.as_slice(), br#"{"result":"sent","id":42}"#);
    assert_eq!(stats.snapshot(0).downlink_count, 1);
    assert!(bridge::on_message(&mut state, &mut stats, &answer(CommandSource::WiFi), 0).is_none());
}

#[test]
fn a_full_command_queue_is_reported() {
    let mut state = BridgeState::new();
    let request = DownlinkMsg { payload_hex: "00", id: Some(5) };
    let sequence_id = match on_request(&mut state, Some(&request)) {
        RequestStep::Command(envelope) => envelope.sequence_id,
        RequestStep::Publish(_) => panic!("a valid request is sent"),
    };
    let outbound = on_queue_full(&mut state, sequence_id);
    assert_eq!(outbound.payload.as_slice(), br#"{"result":"queue_full","id":5}"#);
    match on_request(&mut state, None) {
        RequestStep::Publish(outbound) => {
            assert_eq!(outbound.payload.as_slice(), br#"{"result":"bad_json"}"#)
        }
        RequestStep::Command(_) => panic!("an unreadable request is refused"),
    }
}

// Gateway

#[test]
fn the_uplink_configuration_follows_the_settings() {
    let uplink = uplink_config(&HubConfig::default());
    assert_eq!(uplink.frequency_hz, 868_100_000);
    assert_eq!(uplink.spreading_factor, 7);
    assert_eq!(uplink.sync_word, SyncWord::Public);
    assert!(uplink.crc_on && !uplink.iq_inverted);
    assert_eq!(uplink.tx_power_dbm, 22);

    let packet = RxPacket { data: Bytes::from_slice(b"x").ok().unwrap(), rssi: -80, snr: 6 };
    let meta = rx_meta(&uplink, 0x1_0000_0007, &packet);
    assert_eq!(meta.tmst, 7);
    assert_eq!(meta.freq_hz, 868_100_000);
    assert_eq!(meta.rssi, -80);
}

#[test]
fn a_downlink_waits_for_an_armed_radio_and_is_handed_out_once() {
    let mut radio = GatewayLoop::new();
    assert!(matches!(radio.next(true), GatewayStep::Listen(500)));
    radio.on_downlink(DownlinkJob {
        target_tmst: None,
        config: LoraConfig::default(),
        payload: Bytes::from_slice(&[1, 2]).ok().unwrap(),
    });
    assert!(matches!(radio.next(false), GatewayStep::Pause(500)));
    match radio.next(true) {
        GatewayStep::Transmit(job) => assert_eq!(job.payload.as_slice(), &[1, 2]),
        _ => panic!("the downlink is due"),
    }
    assert!(matches!(radio.next(true), GatewayStep::Listen(500)));
}

#[test]
fn downlinks_are_timed_to_their_target() {
    assert_eq!(setup_step(None, 5), SetupStep::After(0));
    // One second ahead, less the setup lead.
    assert_eq!(setup_step(Some(2_000_000), 1_000_000), SetupStep::After(980_000));
    // Across the wrap of the counter.
    assert_eq!(setup_step(Some(1_000), 0xFFFF_FFFF - 99_999), SetupStep::After(81_000));
    assert_eq!(setup_step(Some(1_019_999), 1_000_000), SetupStep::Drop);
    assert_eq!(fire_delay(None, 5), 0);
    assert_eq!(fire_delay(Some(2_000_000), 1_990_000), 9_550);
    assert_eq!(fire_delay(Some(2_000_000), 1_999_900), 0);
}

#[test]
fn gateway_traffic_is_counted() {
    let mut stats = HubStats::new();
    on_uplink(&mut stats, true);
    on_uplink(&mut stats, false);
    on_transmitted(&mut stats, true);
    on_transmitted(&mut stats, false);
    let status = stats.snapshot(0);
    assert_eq!(status.uplink_count, 2);
    assert_eq!(status.dropped_count, 1);
    assert_eq!(status.downlink_count, 1);
}

#[test]
fn keepalives_and_reports_keep_their_intervals() {
    let mut timer = ForwarderTimer::new();
    let mut keepalives = Vec::new();
    let mut reports = Vec::new();
    for second in 0..61 {
        let due = timer.tick();
        if due.keepalive {
            keepalives.push(second);
        }
        if due.stat {
            reports.push(second);
        }
    }
    assert_eq!(keepalives, vec![0, 10, 20, 30, 40, 50, 60]);
    assert_eq!(reports, vec![29, 59]);
}

#[test]
fn a_full_radio_queue_is_a_collision() {
    let mut forwarder = GatewayForwarder::new(&[0x24, 0x6F, 0x28, 0xAA, 0xBB, 0xCC]);
    let mut stats = HubStats::new();
    let mut ack = [0u8; ACK_BUF];
    let len = acknowledge(&mut forwarder, &mut stats, &mut ack, 0x1234, true);
    assert_eq!(&ack[..4], &[2, 0x12, 0x34, TX_ACK]);
    assert_eq!(&ack[12..len], br#"{"txpk_ack":{"error":"NONE"}}"#);
    assert_eq!(forwarder.stats().txnb, 1);
    let len = acknowledge(&mut forwarder, &mut stats, &mut ack, 0x1234, false);
    assert_eq!(&ack[12..len], br#"{"txpk_ack":{"error":"COLLISION_PACKET"}}"#);
    assert_eq!(forwarder.stats().txnb, 1);
    assert_eq!(stats.snapshot(0).dropped_count, 1);
    assert!(!server_configured(&HubConfig::default()));
}

// Hub control

#[test]
fn commands_are_acknowledged_once_stored() {
    let defaults = HubConfig::default();
    let mut control = HubControl::new(&defaults, &defaults);
    let stats = HubStats::new();
    let wifi = WifiSettings { ssid: text("Net"), password: text("pw") };
    let step = control.handle(&HubCommand::SetWifiConfig(wifi.clone()), &stats, 0, true);
    assert!(matches!(step, ControlStep::Store(StoreCall::Save)));
    assert!(control.pending().wifi == wifi);
    assert!(stored(Ok(())) == HubResponse::ConfigAck { status: AckStatus::Success });
    assert!(
        stored(Err(StoreError::Flash)) == HubResponse::ConfigAck { status: AckStatus::StorageError }
    );

    let step = control.handle(&HubCommand::ClearNetworkConfig, &stats, 0, true);
    assert!(matches!(step, ControlStep::Store(StoreCall::Clear)));
    assert!(*control.pending() == defaults);
}

#[test]
fn commands_without_a_store_or_with_bad_values_are_refused() {
    let defaults = HubConfig::default();
    let mut control = HubControl::new(&defaults, &defaults);
    let stats = HubStats::new();
    match control.handle(&HubCommand::SetMode { mode: HubMode::LorawanGateway }, &stats, 0, false) {
        ControlStep::Respond(HubResponse::ConfigAck { status }) => {
            assert_eq!(status, AckStatus::StorageError)
        }
        _ => panic!("nothing to store into"),
    }
    let mqtt = MqttSettings { port: 0, ..MqttSettings::default() };
    match control.handle(&HubCommand::SetMqttConfig(mqtt), &stats, 0, true) {
        ControlStep::Respond(HubResponse::ConfigAck { status }) => {
            assert_eq!(status, AckStatus::InvalidValue)
        }
        _ => panic!("port 0 is refused"),
    }
}

#[test]
fn reads_are_answered_at_once() {
    let active = provisioned();
    let mut control = HubControl::new(&active, &HubConfig::default());
    let mut stats = HubStats::new();
    stats.count_uplink();
    match control.handle(&HubCommand::GetHubStatus, &stats, 0x1_0000_0003, false) {
        ControlStep::Respond(HubResponse::HubStatus(status)) => {
            assert_eq!(status.uptime_secs, 3);
            assert_eq!(status.uplink_count, 1);
        }
        _ => panic!("a read is answered"),
    }
    let response = match control.handle(&HubCommand::GetNetworkConfig, &stats, 0, false) {
        ControlStep::Respond(response) => response,
        ControlStep::Store(_) => panic!("a read is answered"),
    };
    let frame = match reply(CommandSource::Serial, &response) {
        ResponseMessage::HubRaw { source, frame } => {
            assert_eq!(source, CommandSource::Serial);
            frame
        }
        _ => panic!("hub responses travel as frames"),
    };
    let raw = cobs_decode(frame.as_slice()).unwrap();
    assert!(parse_response(&raw) == Ok(response));
}

// WiFi

#[test]
fn an_unprovisioned_hub_runs_the_access_point() {
    let mut stats = HubStats::new();
    let manager = WifiManager::new(&HubConfig::default());
    assert_eq!(manager.next(&mut stats), WifiStep::AccessPoint);
    assert_eq!(access_point_ssid([0xAA, 0xBB, 0x0C]).as_str(), "LoRaMqttHub-AABB0C");
    assert!(open_network(&HubConfig::default()));
    assert!(!open_network(&provisioned()));
}

#[test]
fn a_station_reports_its_link_and_gives_up_after_ten_failures() {
    let mut stats = HubStats::new();
    let mut manager = WifiManager::new(&provisioned());
    assert_eq!(manager.next(&mut stats), WifiStep::Start);
    assert_eq!(manager.on_start(true), None);
    assert_eq!(manager.next(&mut stats), WifiStep::Connect);
    assert_eq!(stats.snapshot(0).wifi_state, LinkState::Connecting);
    assert_eq!(manager.on_connect(true, &mut stats), ConnectStep::Stay);
    assert_eq!(stats.snapshot(0).wifi_state, LinkState::Connected);
    manager.on_disconnect(&mut stats);
    assert_eq!(stats.snapshot(0).wifi_state, LinkState::Disconnected);

    for secs in [1, 2, 4, 8, 16, 32, 60, 60, 60, 60] {
        assert_eq!(manager.next(&mut stats), WifiStep::Connect);
        assert_eq!(manager.on_connect(false, &mut stats), ConnectStep::Pause(secs));
    }
    assert_eq!(manager.next(&mut stats), WifiStep::AccessPoint);
    assert_eq!(stats.snapshot(0).wifi_state, LinkState::Unprovisioned);
}

#[test]
fn a_failed_start_backs_off() {
    let mut manager = WifiManager::new(&provisioned());
    assert_eq!(manager.on_start(false), Some(1));
    assert_eq!(manager.on_start(false), Some(2));
}

// MQTT

#[test]
fn client_id_and_version() {
    let mut config = HubConfig::default();
    assert_eq!(resolve_client_id(&config, [0xAA, 0xBB, 0xCC]).as_str(), "wt-hub-AABBCC");
    config.mqtt.client_id = text("mine");
    assert_eq!(resolve_client_id(&config, [0xAA, 0xBB, 0xCC]).as_str(), "mine");
    assert_eq!(firmware_version().as_str(), "0.1.0");
}

#[test]
fn sessions_announce_and_leave_a_will() {
    let topics = TopicSet::new([0xAA, 0xBB, 0xCC]);
    let will = last_will(&topics);
    assert_eq!(will.topic, "wt/hub/AABBCC/status");
    assert_eq!(will.payload.as_slice(), br#"{"online":false}"#);
    assert!(will.retain);
    let online = online_announcement(&topics, firmware_version().as_str());
    assert_eq!(online.payload.as_slice(), br#"{"online":true,"fw":"0.1.0"}"#);
    assert!(online.retain);
}

#[test]
fn session_order_is_fixed_and_failures_end_it() {
    let mut step = SessionStep::Connect;
    for expected in
        [SessionStep::Announce, SessionStep::Subscribe, SessionStep::Pump, SessionStep::Pump]
    {
        step = step.next(true);
        assert_eq!(step, expected);
    }
    assert_eq!(step.next(false), SessionStep::Failed);
    assert_eq!(SessionStep::Failed.next(true), SessionStep::Failed);
}

#[test]
fn the_broker_link_backs_off_and_reports() {
    let mut stats = HubStats::new();
    assert!(!broker_configured(&HubConfig::default(), &mut stats));
    assert_eq!(stats.snapshot(0).mqtt_state, LinkState::Unprovisioned);
    let mut link = BrokerLink::new();
    link.on_attempt(&mut stats);
    assert_eq!(stats.snapshot(0).mqtt_state, LinkState::Connecting);
    assert_eq!(link.on_failed(&mut stats), 1);
    assert_eq!(link.on_failed(&mut stats), 2);
    assert_eq!(stats.snapshot(0).mqtt_state, LinkState::Disconnected);
    link.on_connected(&mut stats);
    assert_eq!(stats.snapshot(0).mqtt_state, LinkState::Connected);
    assert_eq!(link.on_failed(&mut stats), 1);
}

#[test]
fn only_downlink_requests_that_fit_are_forwarded() {
    let topics = TopicSet::new([0, 0, 1]);
    let mut stats = HubStats::new();
    let payload = on_publish(&topics, &mut stats, "wt/hub/000001/tx", b"{}").unwrap();
    assert_eq!(payload.as_slice(), b"{}");
    assert!(on_publish(&topics, &mut stats, "wt/hub/000001/rx", b"{}").is_none());
    assert_eq!(stats.snapshot(0).dropped_count, 0);
    assert!(on_publish(&topics, &mut stats, "wt/hub/000001/tx", &[b' '; 641]).is_none());
    assert_eq!(stats.snapshot(0).dropped_count, 1);
    on_forwarded(&mut stats, false);
    on_forwarded(&mut stats, true);
    assert_eq!(stats.snapshot(0).dropped_count, 2);
}

// Portal

fn request(raw: &[u8]) -> HttpRequest<'_> {
    match try_parse(raw) {
        ParseOutcome::Complete(request) => request,
        _ => panic!("should parse"),
    }
}

fn answer(raw: &[u8]) -> (String, bool) {
    let status = HubStats::new().snapshot(9);
    match respond(&request(raw), &provisioned(), &status, None) {
        PortalStep::Reply(reply) => (String::from_utf8(reply.bytes).unwrap(), reply.reboot),
        PortalStep::Apply(_) => panic!("nothing to apply"),
    }
}

fn update(ssid: Option<&str>, port: Option<u16>) -> ConfigUpdate<'_> {
    ConfigUpdate {
        wifi_ssid: ssid,
        wifi_password: None,
        mqtt_host: None,
        mqtt_port: port,
        client_id: None,
        mode: None,
        gw_freq_hz: None,
        gw_sf: None,
        gw_bw_khz: None,
        gw_cr: None,
        gw_host: None,
        gw_port: None,
    }
}

#[test]
fn connections_read_until_a_request_is_whole() {
    assert!(matches!(on_received(b"GET / HT"), Received::More));
    assert!(matches!(on_received(b"\r\n\r\n"), Received::Close));
    assert!(matches!(on_received(&[b'x'; MAX_REQUEST]), Received::Close));
    match on_received(b"GET / HTTP/1.1\r\n\r\n") {
        Received::Request(request) => assert_eq!(request.path, "/"),
        _ => panic!("a whole request"),
    }
    // A body that can never fit the buffer.
    let mut buf = b"POST /api/config HTTP/1.1\r\nContent-Length: 2040\r\n\r\n".to_vec();
    buf.resize(MAX_REQUEST, b' ');
    assert!(matches!(on_received(&buf), Received::Close));
}

#[test]
fn the_page_and_the_redirect() {
    let (page, reboot) = answer(b"GET / HTTP/1.1\r\n\r\n");
    assert!(!reboot);
    assert_eq!(
        page,
        format!(
            "HTTP/1.1 200 OK\r\nContent-Type: text/html\r\nContent-Length: {}\r\nConnection: close\r\n\r\n{}",
            INDEX_HTML.len(),
            INDEX_HTML
        )
    );
    let (redirect, _) = answer(b"GET /generate_204 HTTP/1.1\r\n\r\n");
    assert_eq!(
        redirect,
        "HTTP/1.1 302 Found\r\nLocation: http://192.168.4.1/\r\nContent-Length: 0\r\nConnection: close\r\n\r\n"
    );
}

#[test]
fn the_api_serves_configuration_and_status() {
    let (config, _) = answer(b"GET /api/config HTTP/1.1\r\n\r\n");
    assert!(config.starts_with("HTTP/1.1 200 OK\r\nContent-Type: application/json\r\n"));
    assert!(config.ends_with(
        r#"{"mode":"bridge","wifi_ssid":"HomeNet","mqtt_host":"","mqtt_port":1883,"client_id":"","gw_freq_hz":868100000,"gw_sf":7,"gw_bw_khz":125,"gw_cr":5,"gw_host":"","gw_port":1700}"#
    ));
    assert!(!config.contains("secret"));
    let (status, _) = answer(b"GET /api/status HTTP/1.1\r\n\r\n");
    assert!(status.ends_with(
        r#"{"wifi_state":0,"mqtt_state":0,"ip":"0.0.0.0","uplink":0,"downlink":0,"dropped":0,"uptime_secs":9}"#
    ));
}

const POST: &[u8] = b"POST /api/config HTTP/1.1\r\nContent-Length: 0\r\n\r\n";

#[test]
fn unusable_updates_are_answered_with_the_reason() {
    let (bad, reboot) = answer(POST);
    assert!(bad.starts_with("HTTP/1.1 400 Bad Request\r\n"));
    assert!(bad.ends_with(r#"{"ok":false,"error":"invalid values"}"#));
    assert!(!reboot);

    let status = HubStats::new().snapshot(0);
    match respond(&request(POST), &provisioned(), &status, Some(&update(None, None))) {
        PortalStep::Reply(reply) => {
            let text = String::from_utf8(reply.bytes).unwrap();
            assert!(text.ends_with(r#"{"ok":false,"error":"nothing to change"}"#));
        }
        PortalStep::Apply(_) => panic!("nothing to apply"),
    }
}

#[test]
fn updates_restart_the_hub_only_when_all_is_stored() {
    let status = HubStats::new().snapshot(0);
    let body = update(Some("Net"), Some(1884));
    let success = HubResponse::ConfigAck { status: AckStatus::Success };
    let failure = HubResponse::ConfigAck { status: AckStatus::StorageError };
    for (last, code, reboot) in [(&success, "200 OK", true), (&failure, "422 Unprocessable Entity", false)]
    {
        let mut applying =
            match respond(&request(POST), &provisioned(), &status, Some(&body)) {
                PortalStep::Apply(applying) => applying,
                PortalStep::Reply(_) => panic!("two commands to apply"),
            };
        match applying.next(None) {
            ApplyStep::Send(HubCommand::SetWifiConfig(wifi)) => {
                assert_eq!(wifi.ssid.as_str(), "Net");
                // The password is kept when none is given.
                assert_eq!(wifi.password.as_str(), "secret");
            }
            _ => panic!("the network comes first"),
        }
        match applying.next(Some(&success)) {
            ApplyStep::Send(HubCommand::SetMqttConfig(mqtt)) => assert_eq!(mqtt.port, 1884),
            _ => panic!("the broker comes second"),
        }
        match applying.next(Some(last)) {
            ApplyStep::Reply(reply) => {
                assert_eq!(reply.reboot, reboot);
                let text = String::from_utf8(reply.bytes).unwrap();
                assert!(text.starts_with(&format!("HTTP/1.1 {code}\r\n")));
            }
            ApplyStep::Send(_) => panic!("nothing is left"),
        }
    }
}

// Boot

#[test]
fn the_stored_mode_decides_what_runs() {
    let plan = boot_plan(None, HubConfig::default());
    assert!(plan.bridge && !plan.gateway);
    let mut config = provisioned();
    config.mode = HubMode::LorawanGateway;
    let plan = boot_plan(Some(config), HubConfig::default());
    assert!(plan.gateway && !plan.bridge);
    assert_eq!(plan.config.wifi.ssid.as_str(), "HomeNet");
}
