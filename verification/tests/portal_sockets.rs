use lora_mqtt_hub::portal::dhcp::{
    build_reply, parse_request, ACK, DISCOVER, MAGIC, OFFER, OPTIONS_AT, OPT_END, OPT_MESSAGE_TYPE,
    REQUEST,
};
use lora_mqtt_hub::portal::dns::answer;
use lora_mqtt_hub::portal::{AP_IP, CLIENT_IP};


fn discover(message_type: u8) -> [u8; 260] {
    let mut data = [0u8; 260];
    data[0] = 1; // BOOTREQUEST
    data[4..8].copy_from_slice(&[0xDE, 0xAD, 0xBE, 0xEF]);
    data[28..34].copy_from_slice(&[2, 4, 6, 8, 10, 12]);
    data[236..240].copy_from_slice(&MAGIC);
    data[240] = OPT_MESSAGE_TYPE;
    data[241] = 1;
    data[242] = message_type;
    data[243] = OPT_END;
    data
}

#[test]
fn discover_gets_an_offer_with_the_fixed_lease() {
    let request = parse_request(&discover(DISCOVER)).expect("valid DISCOVER");
    let mut out = [0u8; 300];
    let len = build_reply(&request, &mut out);
    assert!(len > OPTIONS_AT);
    assert_eq!(out[0], 2, "BOOTREPLY");
    assert_eq!(&out[4..8], &[0xDE, 0xAD, 0xBE, 0xEF], "xid echoed");
    assert_eq!(&out[16..20], &CLIENT_IP, "yiaddr is the fixed lease");
    assert_eq!(&out[28..34], &[2, 4, 6, 8, 10, 12], "chaddr echoed");
    assert_eq!(out[242], OFFER);
}

#[test]
fn request_gets_an_ack() {
    let request = parse_request(&discover(REQUEST)).expect("valid REQUEST");
    let mut out = [0u8; 300];
    build_reply(&request, &mut out);
    assert_eq!(out[242], ACK);
}

#[test]
fn non_requests_are_ignored() {
    // A BOOTREPLY (op=2) must not be answered.
    let mut reply = discover(DISCOVER);
    reply[0] = 2;
    assert!(parse_request(&reply).is_none());
    // Unknown message type (RELEASE=7).
    assert!(parse_request(&discover(7)).is_none());
    // Truncated.
    assert!(parse_request(&[1u8; 100]).is_none());
}

/// A query for connectivitycheck.gstatic.com-style name "a.b".
fn query() -> Vec<u8> {
    let mut q = vec![
        0x12, 0x34, // id
        0x01, 0x00, // standard query, RD
        0x00, 0x01, 0x00, 0x00, 0x00, 0x00, 0x00, 0x00,
    ];
    q.extend_from_slice(&[1, b'a', 1, b'b', 0]); // name "a.b"
    q.extend_from_slice(&[0x00, 0x01, 0x00, 0x01]); // A IN
    q
}

#[test]
fn answers_with_the_portal_ip() {
    let mut out = [0u8; 512];
    let len = answer(&query(), &mut out).expect("query should be answered");
    assert_eq!(&out[..2], &[0x12, 0x34], "id echoed");
    assert_eq!(out[2] & 0x80, 0x80, "response bit set");
    assert_eq!(&out[len - 4..len], &AP_IP, "A record is the portal IP");
}

#[test]
fn responses_and_garbage_are_ignored() {
    let mut out = [0u8; 512];
    let mut response = query();
    response[2] |= 0x80;
    assert!(answer(&response, &mut out).is_none());
    assert!(answer(&[0u8; 5], &mut out).is_none());
}
