use lora_mqtt_hub::gateway::forwarder::{DatagramOutcome, GatewayForwarder, MAX_TX_POWER_DBM};
use lora_mqtt_hub::gateway::udp_protocol::{
    build_pull_data, build_push_data_encoded, build_push_data_rxpk, build_push_data_stat,
    build_tx_ack, normalise_txpk, parse_datagram,
    parse_txpk, Downstream, ProtoError, RxMeta, StatCounters, TxAckError, TxPacket, Txpk, ACK_BUF,
    PROTOCOL_VERSION, PULL_DATA, PULL_RESP, PUSH_ACK, PUSH_BUF, PUSH_DATA,
};
use lora_mqtt_hub::lora::traits::SyncWord;
use serde::de::{Deserialize, Deserializer, Error, IgnoredAny, MapAccess, Visitor};
use std::fmt;

/// The txpk object of a PULL_RESP as it stands in JSON.
#[derive(Default)]
struct TxpkJson<'a> {
    imme: bool,
    tmst: Option<u32>,
    freq: Option<f64>,
    powe: Option<i8>,
    modu: Option<&'a str>,
    datr: Option<&'a str>,
    codr: Option<&'a str>,
    ipol: bool,
    prea: Option<u16>,
    data: Option<&'a str>,
}

struct TxpkVisitor;

impl<'de> Visitor<'de> for TxpkVisitor {
    type Value = TxpkJson<'de>;

    fn expecting(&self, f: &mut fmt::Formatter<'_>) -> fmt::Result {
        f.write_str("a txpk object")
    }

    fn visit_map<A: MapAccess<'de>>(self, mut map: A) -> Result<TxpkJson<'de>, A::Error> {
        let mut txpk = TxpkJson::default();
        while let Some(key) = map.next_key::<&'de str>()? {
            match key {
                "imme" => txpk.imme = map.next_value()?,
                "tmst" => txpk.tmst = map.next_value()?,
                "freq" => txpk.freq = Some(map.next_value()?),
                "powe" => txpk.powe = map.next_value()?,
                "modu" => txpk.modu = Some(map.next_value()?),
                "datr" => txpk.datr = Some(map.next_value()?),
                "codr" => txpk.codr = map.next_value()?,
                "ipol" => txpk.ipol = map.next_value()?,
                "prea" => txpk.prea = map.next_value()?,
                "data" => txpk.data = Some(map.next_value()?),
                _ => {
                    map.next_value::<IgnoredAny>()?;
                }
            }
        }
        Ok(txpk)
    }
}

impl<'de> Deserialize<'de> for TxpkJson<'de> {
    fn deserialize<D: Deserializer<'de>>(deserializer: D) -> Result<Self, D::Error> {
        deserializer.deserialize_struct("Txpk", &[], TxpkVisitor)
    }
}

struct Wrapper<'a>(TxpkJson<'a>);

struct WrapperVisitor;

impl<'de> Visitor<'de> for WrapperVisitor {
    type Value = Wrapper<'de>;

    fn expecting(&self, f: &mut fmt::Formatter<'_>) -> fmt::Result {
        f.write_str("an object with a txpk")
    }

    fn visit_map<A: MapAccess<'de>>(self, mut map: A) -> Result<Wrapper<'de>, A::Error> {
        let mut txpk = None;
        while let Some(key) = map.next_key::<&'de str>()? {
            if key == "txpk" {
                txpk = Some(map.next_value::<TxpkJson<'de>>()?);
            } else {
                map.next_value::<IgnoredAny>()?;
            }
        }
        match txpk {
            Some(txpk) => Ok(Wrapper(txpk)),
            None => Err(A::Error::missing_field("txpk")),
        }
    }
}

impl<'de> Deserialize<'de> for Wrapper<'de> {
    fn deserialize<D: Deserializer<'de>>(deserializer: D) -> Result<Self, D::Error> {
        deserializer.deserialize_struct("Wrapper", &["txpk"], WrapperVisitor)
    }
}

fn read(json: &[u8]) -> Option<Txpk<'_>> {
    let (wrapper, _) = serde_json_core::from_slice::<Wrapper>(json).ok()?;
    let txpk = wrapper.0;
    Some(Txpk {
        imme: txpk.imme,
        tmst: txpk.tmst,
        freq_hz: (txpk.freq? * 1_000_000.0 + 0.5) as u32,
        powe: txpk.powe,
        modu: txpk.modu?,
        datr: txpk.datr?,
        codr: txpk.codr,
        ipol: txpk.ipol,
        prea: txpk.prea,
        data: txpk.data?,
    })
}

fn parse(json: &[u8]) -> Result<TxPacket, ProtoError> {
    parse_txpk(read(json).as_ref())
}

fn on_datagram(
    fwd: &mut GatewayForwarder,
    now_us: u32,
    now_ms: u64,
    data: &[u8],
    ack: &mut [u8],
) -> DatagramOutcome {
    let txpk = match parse_datagram(data) {
        Ok(Downstream::PullResp { json, .. }) => read(json),
        _ => None,
    };
    fwd.on_datagram(now_us, now_ms, data, txpk.as_ref(), ack)
}

const EUI: [u8; 8] = [0x24, 0x6F, 0x28, 0xFF, 0xFE, 0xAA, 0xBB, 0xCC];

fn meta() -> RxMeta {
    RxMeta {
        tmst: 3_512_348_611,
        freq_hz: 868_100_000,
        spreading_factor: 7,
        bandwidth_khz: 125,
        coding_rate: 5,
        rssi: -87,
        snr: 5,
    }
}

#[test]
fn push_data_layout_and_json() {
    let mut out = [0u8; PUSH_BUF];
    let len = build_push_data_rxpk(&mut out, 0x1A2B, &EUI, &meta(), b"Hi");
    assert_eq!(out[0], 0x02);
    assert_eq!(&out[1..3], &[0x1A, 0x2B]);
    assert_eq!(out[3], PUSH_DATA);
    assert_eq!(&out[4..12], &EUI);
    let json = core::str::from_utf8(&out[12..len]).unwrap();
    assert_eq!(
        json,
        r#"{"rxpk":[{"tmst":3512348611,"chan":0,"rfch":0,"freq":868.100000,"stat":1,"modu":"LORA","datr":"SF7BW125","codr":"4/5","rssi":-87,"lsnr":5,"size":2,"data":"SGk="}]}"#
    );
}

#[test]
fn push_data_fits_max_payload() {
    let mut out = [0u8; PUSH_BUF];
    let payload = [0xAA; 255];
    let len = build_push_data_rxpk(&mut out, 1, &EUI, &meta(), &payload);
    assert!(len > 12 && len <= PUSH_BUF);
    // The JSON must be complete (ends with the array + object close).
    assert!(core::str::from_utf8(&out[12..len]).unwrap().ends_with("\"}]}"));
}

#[test]
fn stat_message_reports_counters_and_ack_ratio() {
    let mut out = [0u8; 256];
    let stats = StatCounters {
        rxnb: 10,
        rxok: 10,
        rxfw: 9,
        push_acked: 9,
        push_sent: 10,
        dwnb: 2,
        txnb: 2,
    };
    let len = build_push_data_stat(&mut out, 7, &EUI, &stats);
    let json = core::str::from_utf8(&out[12..len]).unwrap();
    assert_eq!(
        json,
        r#"{"stat":{"rxnb":10,"rxok":10,"rxfw":9,"ackr":90.0,"dwnb":2,"txnb":2}}"#
    );
}

#[test]
fn pull_data_is_twelve_bytes() {
    let mut out = [0u8; 12];
    let len = build_pull_data(&mut out, 0xBEEF, &EUI);
    assert_eq!(len, 12);
    assert_eq!(out[3], PULL_DATA);
}

#[test]
fn tx_ack_encodes_the_error() {
    let mut out = [0u8; ACK_BUF];
    let len = build_tx_ack(&mut out, 3, &EUI, TxAckError::DutyCycleOverflow);
    let json = core::str::from_utf8(&out[12..len]).unwrap();
    assert_eq!(json, r#"{"txpk_ack":{"error":"DUTY_CYCLE_OVERFLOW"}}"#);
}

#[test]
fn parses_acks_and_pull_resp() {
    assert_eq!(
        parse_datagram(&[0x02, 0x00, 0x07, 0x01]),
        Ok(Downstream::PushAck { token: 7 })
    );
    assert_eq!(
        parse_datagram(&[0x02, 0x12, 0x34, 0x04]),
        Ok(Downstream::PullAck { token: 0x1234 })
    );
    let resp = [&[0x02, 0x00, 0x01, 0x03][..], br#"{"txpk":{}}"#].concat();
    assert_eq!(
        parse_datagram(&resp),
        Ok(Downstream::PullResp { token: 1, json: br#"{"txpk":{}}"# })
    );
    assert_eq!(parse_datagram(&[0x01, 0, 0, 0]), Err(ProtoError::Malformed));
    assert_eq!(parse_datagram(&[0x02, 0, 0]), Err(ProtoError::Malformed));
    assert_eq!(parse_datagram(&[0x02, 0, 0, 0x09]), Err(ProtoError::Malformed));
}

#[test]
fn parses_a_chirpstack_style_rx1_downlink() {
    // Shape matches ChirpStack's semtech_udp packets/pull_resp.go output;
    // the 28-char base64 payload decodes to 19 bytes.
    let json = br#"{"txpk":{"imme":false,"tmst":3513348611,"freq":868.1,"rfch":0,"powe":14,"modu":"LORA","datr":"SF7BW125","codr":"4/5","ipol":true,"size":19,"data":"YCkuASqAAAAByFaF53Iu+vzmwQ=="}}"#;
    let txpk = parse(json).ok().unwrap();
    assert!(!txpk.immediate);
    assert_eq!(txpk.tmst, Some(3_513_348_611));
    assert_eq!(txpk.freq_hz, 868_100_000);
    assert_eq!(txpk.power_dbm, 14);
    assert_eq!(txpk.spreading_factor, 7);
    assert_eq!(txpk.bandwidth_khz, 125);
    assert_eq!(txpk.coding_rate, 5);
    assert!(txpk.iq_inverted);
    assert_eq!(txpk.preamble, 8);
    assert_eq!(txpk.payload.len(), 19);
}

#[test]
fn parses_immediate_class_c_and_li_codr() {
    let json = br#"{"txpk":{"imme":true,"freq":869.525,"modu":"LORA","datr":"SF12BW125","codr":"4/5LI","ipol":true,"data":"AQI="}}"#;
    let txpk = parse(json).ok().unwrap();
    assert!(txpk.immediate);
    assert_eq!(txpk.tmst, None);
    assert_eq!(txpk.freq_hz, 869_525_000);
    assert_eq!(txpk.spreading_factor, 12);
    assert_eq!(txpk.coding_rate, 5);
    assert_eq!(txpk.payload.as_slice(), &[0x01, 0x02]);
}

#[test]
fn rejects_fsk_bad_datr_and_bad_base64() {
    let fsk = br#"{"txpk":{"freq":868.1,"modu":"FSK","datr":"50000","data":"AQI="}}"#;
    assert!(parse(fsk) == Err(ProtoError::BadTxpk));

    let bad_datr = br#"{"txpk":{"freq":868.1,"modu":"LORA","datr":"SF99BW125","data":"AQI="}}"#;
    assert!(parse(bad_datr) == Err(ProtoError::BadTxpk));

    let bad_b64 = br#"{"txpk":{"freq":868.1,"modu":"LORA","datr":"SF7BW125","data":"!!!"}}"#;
    assert!(parse(bad_b64) == Err(ProtoError::BadTxpk));
}

const MAC: [u8; 6] = [0x24, 0x6F, 0x28, 0xAA, 0xBB, 0xCC];

fn pull_resp(token: u16, json: &str) -> Vec<u8> {
    let mut data = vec![PROTOCOL_VERSION, (token >> 8) as u8, token as u8, PULL_RESP];
    data.extend_from_slice(json.as_bytes());
    data
}

fn rx1_json(tmst: u32) -> String {
    format!(
        r#"{{"txpk":{{"imme":false,"tmst":{tmst},"freq":868.1,"powe":14,"modu":"LORA","datr":"SF7BW125","codr":"4/5","ipol":true,"data":"YCkuASqAAAAByFaF53Iu+vzmwQ=="}}}}"#
    )
}

#[test]
fn accepted_rx1_downlink_builds_a_job() {
    let mut fwd = GatewayForwarder::new(&MAC);
    let mut ack = [0u8; ACK_BUF];
    let now_us = 1_000_000;
    let datagram = pull_resp(42, &rx1_json(now_us + 1_000_000));

    let outcome = on_datagram(&mut fwd, now_us, 60_000, &datagram, &mut ack);
    let DatagramOutcome::Accepted { job, token } = outcome else {
        panic!("expected Accepted");
    };
    assert_eq!(token, 42);
    assert_eq!(job.target_tmst, Some(now_us + 1_000_000));
    assert_eq!(job.config.frequency_hz, 868_100_000);
    assert_eq!(job.config.sync_word, SyncWord::Public);
    assert!(job.config.iq_inverted);
    assert!(!job.config.crc_on);
    assert_eq!(job.payload.len(), 19);

    // The success TX_ACK counts the downlink.
    let len = fwd.tx_ack(&mut ack, token, TxAckError::NoError);
    assert!(core::str::from_utf8(&ack[12..len]).unwrap().contains("NONE"));
    assert_eq!(fwd.stats().txnb, 1);
    assert_eq!(fwd.stats().dwnb, 1);
}

#[test]
fn late_downlink_is_refused_too_late() {
    let mut fwd = GatewayForwarder::new(&MAC);
    let mut ack = [0u8; ACK_BUF];
    let now_us = 5_000_000;
    let datagram = pull_resp(1, &rx1_json(now_us - 1));

    let outcome = on_datagram(&mut fwd, now_us, 60_000, &datagram, &mut ack);
    let DatagramOutcome::Reply(len) = outcome else {
        panic!("expected Reply");
    };
    assert!(core::str::from_utf8(&ack[12..len]).unwrap().contains("TOO_LATE"));
}

#[test]
fn out_of_band_frequency_is_refused() {
    let mut fwd = GatewayForwarder::new(&MAC);
    let mut ack = [0u8; ACK_BUF];
    let json = r#"{"txpk":{"imme":true,"freq":915.0,"modu":"LORA","datr":"SF7BW125","ipol":true,"data":"AQI="}}"#;
    let datagram = pull_resp(2, json);

    let outcome = on_datagram(&mut fwd, 0, 0, &datagram, &mut ack);
    let DatagramOutcome::Reply(len) = outcome else {
        panic!("expected Reply");
    };
    assert!(core::str::from_utf8(&ack[12..len]).unwrap().contains("TX_FREQ"));
}

#[test]
fn over_power_is_clamped_not_refused() {
    let mut fwd = GatewayForwarder::new(&MAC);
    let mut ack = [0u8; ACK_BUF];
    let json = r#"{"txpk":{"imme":true,"freq":869.525,"powe":27,"modu":"LORA","datr":"SF12BW125","ipol":true,"data":"AQI="}}"#;
    let datagram = pull_resp(3, json);

    let outcome = on_datagram(&mut fwd, 0, 0, &datagram, &mut ack);
    let DatagramOutcome::Accepted { job, .. } = outcome else {
        panic!("expected Accepted");
    };
    assert_eq!(job.config.tx_power_dbm, MAX_TX_POWER_DBM);
}

#[test]
fn duty_cycle_exhaustion_returns_the_chirpstack_error() {
    let mut fwd = GatewayForwarder::new(&MAC);
    let mut ack = [0u8; ACK_BUF];
    // 868.1 MHz sits in the 1% sub-band: 36 s of airtime per hour.
    // SF12/BW125 max payloads (~4 s each) exhaust it after a handful.
    let json = r#"{"txpk":{"imme":true,"freq":868.1,"powe":14,"modu":"LORA","datr":"SF12BW125","codr":"4/5","ipol":true,"data":"YCkuASqAAAAByFaF53Iu+vzmwQ=="}}"#;

    let mut accepted = 0;
    for i in 0..40 {
        let datagram = pull_resp(i, json);
        match on_datagram(&mut fwd, 0, 0, &datagram, &mut ack) {
            DatagramOutcome::Accepted { .. } => accepted += 1,
            DatagramOutcome::Reply(len) => {
                let text = core::str::from_utf8(&ack[12..len]).unwrap();
                assert!(text.contains("DUTY_CYCLE_OVERFLOW"), "got {text}");
                assert!(accepted > 0, "at least one downlink must fit the budget");
                return;
            }
            DatagramOutcome::Nothing => panic!("datagram must parse"),
        }
    }
    panic!("duty cycle never triggered");
}

#[test]
fn rx1_and_rx2_budgets_are_independent() {
    let mut fwd = GatewayForwarder::new(&MAC);
    let mut ack = [0u8; ACK_BUF];
    let rx1 = r#"{"txpk":{"imme":true,"freq":868.1,"modu":"LORA","datr":"SF12BW125","ipol":true,"data":"YCkuASqAAAAByFaF53Iu+vzmwQ=="}}"#;
    let rx2 = r#"{"txpk":{"imme":true,"freq":869.525,"modu":"LORA","datr":"SF12BW125","ipol":true,"data":"YCkuASqAAAAByFaF53Iu+vzmwQ=="}}"#;

    // Exhaust the 1% RX1 band.
    let mut token = 0u16;
    loop {
        token += 1;
        let datagram = pull_resp(token, rx1);
        if matches!(
            on_datagram(&mut fwd, 0, 0, &datagram, &mut ack),
            DatagramOutcome::Reply(_)
        ) {
            break;
        }
        assert!(token < 100, "RX1 budget never exhausted");
    }

    // RX2 sits in the 10% sub-band and must still accept.
    let datagram = pull_resp(200, rx2);
    assert!(matches!(
        on_datagram(&mut fwd, 0, 0, &datagram, &mut ack),
        DatagramOutcome::Accepted { .. }
    ));
}

#[test]
fn push_ack_improves_the_ack_ratio() {
    let mut fwd = GatewayForwarder::new(&MAC);
    let mut out = [0u8; PUSH_BUF];
    let meta = RxMeta {
        tmst: 1,
        freq_hz: 868_100_000,
        spreading_factor: 7,
        bandwidth_khz: 125,
        coding_rate: 5,
        rssi: -80,
        snr: 6,
    };
    let len = fwd.on_uplink(&mut out, &meta, b"x");
    assert!(len > 12);
    assert_eq!(fwd.stats().push_sent, 1);
    assert_eq!(fwd.stats().push_acked, 0);

    // Ack it with the token that was used.
    let token = u16::from_be_bytes([out[1], out[2]]);
    let ack_datagram = [PROTOCOL_VERSION, (token >> 8) as u8, token as u8, PUSH_ACK];
    let mut ack = [0u8; ACK_BUF];
    assert!(on_datagram(&mut fwd, 0, 0, &ack_datagram, &mut ack) == DatagramOutcome::Nothing);
    assert_eq!(fwd.stats().push_acked, 1);
}

#[test]
fn every_sub_band_has_its_own_budget() {
    let mut fwd = GatewayForwarder::new(&MAC);
    let mut ack = [0u8; ACK_BUF];
    for freq in ["863.5", "868.1", "868.9", "869.525", "869.85"] {
        let json = format!(
            r#"{{"txpk":{{"imme":true,"freq":{freq},"modu":"LORA","datr":"SF7BW125","data":"AQI="}}}}"#
        );
        let datagram = pull_resp(1, &json);
        assert!(matches!(
            on_datagram(&mut fwd, 0, 0, &datagram, &mut ack),
            DatagramOutcome::Accepted { .. }
        ));
    }
}

#[test]
fn a_full_budget_frees_after_the_hour() {
    let mut fwd = GatewayForwarder::new(&MAC);
    let mut ack = [0u8; ACK_BUF];
    let json = r#"{"txpk":{"imme":true,"freq":868.1,"modu":"LORA","datr":"SF12BW125","data":"YCkuASqAAAAByFaF53Iu+vzmwQ=="}}"#;
    let datagram = pull_resp(1, json);
    while matches!(
        on_datagram(&mut fwd, 0, 0, &datagram, &mut ack),
        DatagramOutcome::Accepted { .. }
    ) {}
    assert!(matches!(
        on_datagram(&mut fwd, 0, 61 * 60_000, &datagram, &mut ack),
        DatagramOutcome::Accepted { .. }
    ));
}

#[test]
fn unreadable_downlinks_are_not_answered() {
    let mut fwd = GatewayForwarder::new(&MAC);
    let mut ack = [0u8; ACK_BUF];
    let datagram = pull_resp(1, "not json");
    assert!(on_datagram(&mut fwd, 0, 0, &datagram, &mut ack) == DatagramOutcome::Nothing);
    assert_eq!(fwd.stats().dwnb, 1);
    assert!(on_datagram(&mut fwd, 0, 0, &[1, 2], &mut ack) == DatagramOutcome::Nothing);
}

#[test]
fn far_targets_are_too_early() {
    let mut fwd = GatewayForwarder::new(&MAC);
    let mut ack = [0u8; ACK_BUF];
    let datagram = pull_resp(1, &rx1_json(31_000_000));
    let DatagramOutcome::Reply(len) = on_datagram(&mut fwd, 0, 0, &datagram, &mut ack) else {
        panic!("expected Reply");
    };
    assert_eq!(&ack[12..len], br#"{"txpk_ack":{"error":"TOO_EARLY"}}"#);
}

#[test]
fn tokens_count_up_from_the_mac() {
    let mut fwd = GatewayForwarder::new(&MAC);
    let mut out = [0u8; 12];
    fwd.on_keepalive(&mut out);
    assert_eq!(&out[1..3], &[0xBB, 0xCD]);
    fwd.on_keepalive(&mut out);
    assert_eq!(&out[1..3], &[0xBB, 0xCE]);
}

#[test]
fn a_small_buffer_holds_whole_pieces() {
    let meta = RxMeta { freq_hz: 868_000_500, rssi: -87, snr: -9, ..meta() };
    let pieces = [
        "{\"rxpk\":[{\"tmst\":",
        "3512348611",
        ",\"chan\":0,\"rfch\":0,\"freq\":",
        "868",
        ".",
        "0",
        "0",
        "0",
        "500",
        ",\"stat\":1,\"modu\":\"LORA\",\"datr\":\"SF",
        "7",
        "BW",
        "125",
        "\",\"codr\":\"4/",
        "5",
        "\",\"rssi\":",
        "-",
        "87",
        ",\"lsnr\":",
        "-",
        "9",
        ",\"size\":",
        "2",
        ",\"data\":\"",
        "SGk=",
        "\"}]}",
    ];
    let mut whole = [0u8; PUSH_BUF];
    let total = build_push_data_rxpk(&mut whole, 9, &EUI, &meta, b"Hi");
    assert_eq!(&whole[12..total], pieces.concat().as_bytes());
    for room in 0..=total {
        let mut small = vec![0xEEu8; room];
        let len = build_push_data_rxpk(&mut small, 9, &EUI, &meta, b"Hi");
        let mut wanted = 12;
        for piece in pieces {
            if wanted + piece.len() > room {
                break;
            }
            wanted += piece.len();
        }
        assert_eq!(len, wanted.min(room), "room {room}");
        assert_eq!(&small[..len], &whole[..len]);
        assert!(small[len..].iter().all(|&b| b == 0xEE));
    }
}

#[test]
fn a_small_buffer_holds_whole_pieces_of_an_ack() {
    let mut small = [0u8; 40];
    // The header, the opening and the name of the error: 12 + 22 + 8 bytes.
    assert_eq!(build_tx_ack(&mut small, 3, &EUI, TxAckError::TooLate), 34);
    let mut room = [0u8; 42];
    assert_eq!(build_tx_ack(&mut room, 3, &EUI, TxAckError::TooLate), 42);
    let mut tiny = [0u8; 5];
    assert_eq!(build_tx_ack(&mut tiny, 3, &EUI, TxAckError::TooLate), 5);
    assert_eq!(tiny, [2, 0, 3, 5, 0x24]);
}

#[test]
fn encoded_data_is_sent_as_given() {
    let mut given = [0u8; PUSH_BUF];
    let len = build_push_data_encoded(&mut given, 4, &EUI, &meta(), 2, b"SGk=");
    let mut built = [0u8; PUSH_BUF];
    assert_eq!(build_push_data_rxpk(&mut built, 4, &EUI, &meta(), b"Hi"), len);
    assert_eq!(given, built);
}

#[test]
fn decoded_payloads_are_normalised() {
    let txpk = Txpk {
        imme: false,
        tmst: Some(17),
        freq_hz: 868_300_000,
        powe: None,
        modu: "LORA",
        datr: "SF9BW125",
        codr: Some("4/7LI"),
        ipol: true,
        prea: None,
        data: "not looked at",
    };
    let packet = normalise_txpk(&txpk, &[1, 2, 3]).unwrap_or_else(|e| panic!("{e:?}"));
    assert!(!packet.immediate && packet.iq_inverted);
    assert_eq!(packet.tmst, Some(17));
    assert_eq!(packet.freq_hz, 868_300_000);
    assert_eq!(packet.power_dbm, 14);
    assert_eq!((packet.spreading_factor, packet.bandwidth_khz), (9, 125));
    assert_eq!((packet.coding_rate, packet.preamble), (7, 8));
    assert_eq!(packet.payload.as_slice(), &[1, 2, 3]);
    assert!(normalise_txpk(&txpk, &[]).is_err());
    assert!(normalise_txpk(&txpk, &[0; 256]).is_ok());
    assert!(normalise_txpk(&txpk, &[0; 257]).is_err());
    assert!(normalise_txpk(&Txpk { modu: "FSK", ..txpk }, &[1]).is_err());
}

#[test]
fn only_queued_downlinks_count_as_sent() {
    let mut fwd = GatewayForwarder::new(&MAC);
    let mut out = [0u8; ACK_BUF];
    fwd.tx_ack(&mut out, 1, TxAckError::CollisionPacket);
    assert_eq!(fwd.stats().txnb, 0);
    fwd.tx_ack(&mut out, 1, TxAckError::NoError);
    assert_eq!(fwd.stats().txnb, 1);
}
