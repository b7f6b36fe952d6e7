//! Minimal DHCP server for the provisioning hotspot.
//!
//! One client, one fixed lease: the phone that joins the SoftAP gets
//! 192.168.4.2. Parses just enough of RFC 2131 (DISCOVER -> OFFER,
//! REQUEST -> ACK) and nothing more.
use crate::octets;
use crate::portal::{AP_IP, CLIENT_IP, NETMASK};
use vstd::prelude::*;

verus! {

/// DHCP magic cookie after the fixed header.
pub const MAGIC: [u8; 4] = [0x63, 0x82, 0x53, 0x63];

/// Fixed BOOTP header length up to the options.
pub const OPTIONS_AT: usize = 240;

/// Length of a reply.
pub const REPLY_LEN: usize = 274;

/// Option: message type.
pub const OPT_MESSAGE_TYPE: u8 = 53;

/// Option: server identifier.
pub const OPT_SERVER_ID: u8 = 54;

/// Option: lease time.
pub const OPT_LEASE_TIME: u8 = 51;

/// Option: subnet mask.
pub const OPT_SUBNET_MASK: u8 = 1;

/// Option: router.
pub const OPT_ROUTER: u8 = 3;

/// Option: DNS server.
pub const OPT_DNS: u8 = 6;

/// End of the options.
pub const OPT_END: u8 = 255;

/// Message type: the client looks for servers.
pub const DISCOVER: u8 = 1;

/// Message type: the server offers a lease.
pub const OFFER: u8 = 2;

/// Message type: the client asks for a lease.
pub const REQUEST: u8 = 3;

/// Message type: the server grants the lease.
pub const ACK: u8 = 5;

/// A parsed client request worth answering.
pub struct DhcpRequest {
    /// Transaction id, echoed in the reply.
    pub transaction_id: [u8; 4],
    /// Client hardware address field, echoed in the reply.
    pub client_mac: [u8; 16],
    /// DISCOVER or REQUEST.
    pub message_type: u8,
}

/// The message type among the options from `at` on, if it is one that is
/// answered. Options are `[code][length][value]`; code 0 is a lone padding
/// byte and code 255 ends them.
pub open spec fn message_type(data: Seq<u8>, at: int) -> Option<u8>
    decreases data.len() + 300 - at,
{
    if at < 0 || at + 1 >= data.len() || data[at] == OPT_END {
        None
    } else if data[at] == 0 {
        message_type(data, at + 1)
    } else if data[at] == OPT_MESSAGE_TYPE && data[at + 1] == 1 && at + 2 < data.len() {
        if data[at + 2] == DISCOVER || data[at + 2] == REQUEST {
            Some(data[at + 2])
        } else {
            None
        }
    } else {
        message_type(data, at + 2 + data[at + 1])
    }
}

/// Whether a datagram has the shape of a client's DHCP message.
pub open spec fn from_client(data: Seq<u8>) -> bool {
    data.len() >= OPTIONS_AT && data[0] == 1 && data.subrange(236, 240) == MAGIC@
}

/// Parse a datagram from a client; None when it is not a DHCP request we
/// answer (replies, malformed, unknown message types).
pub fn parse_request(data: &[u8]) -> (r: Option<DhcpRequest>)
    ensures
        match r {
            Some(request) => from_client(data@) && message_type(data@, OPTIONS_AT as int) == Some(
                request.message_type,
            ) && request.transaction_id@ == data@.subrange(4, 8) && request.client_mac@
                == data@.subrange(28, 44),
            None => !from_client(data@) || message_type(data@, OPTIONS_AT as int) is None,
        },
{
    if data.len() < OPTIONS_AT || data[0] != 1 || !octets::equal(&data[236..240], &MAGIC) {
        return None;
    }
    let transaction_id: [u8; 4] = [data[4], data[5], data[6], data[7]];
    assert(transaction_id@ =~= data@.subrange(4, 8));
    let client_mac: [u8; 16] = [
        data[28],
        data[29],
        data[30],
        data[31],
        data[32],
        data[33],
        data[34],
        data[35],
        data[36],
        data[37],
        data[38],
        data[39],
        data[40],
        data[41],
        data[42],
        data[43],
    ];
    assert(client_mac@ =~= data@.subrange(28, 44));
    // Walk the options for the message type.
    let total: usize = data.len();
    let mut at: usize = OPTIONS_AT;
    while at < total && 1 < total - at
        invariant
            total == data@.len(),
            from_client(data@),
            OPTIONS_AT <= at,
            transaction_id@ == data@.subrange(4, 8),
            client_mac@ == data@.subrange(28, 44),
            message_type(data@, at as int) == message_type(data@, OPTIONS_AT as int),
        decreases total - at,
    {
        let option: u8 = data[at];
        if option == OPT_END {
            return None;
        }
        if option == 0 {
            at = at + 1;
            continue;
        }
        let len: usize = data[at + 1] as usize;
        if option == OPT_MESSAGE_TYPE && len == 1 && 2 < total - at {
            let message_type: u8 = data[at + 2];
            if message_type == DISCOVER || message_type == REQUEST {
                return Some(DhcpRequest { transaction_id, client_mac, message_type });
            }
            return None;
        }
        if len >= total - at - 2 {
            // The value reaches the end of the datagram: no further option.
            assert(message_type(data@, at + 2 + len) is None);
            return None;
        }
        at = at + 2 + len;
    }
    None
}

/// `n` zero bytes.
pub open spec fn zeros(n: nat) -> Seq<u8> {
    Seq::new(n, |i: int| 0u8)
}

/// An option with a value of four bytes.
pub open spec fn option4(code: u8, value: Seq<u8>) -> Seq<u8> {
    seq![code, 4] + value
}

/// The type of the reply: OFFER to a DISCOVER, ACK to anything else.
pub open spec fn reply_type(request_type: u8) -> u8 {
    if request_type == DISCOVER {
        OFFER
    } else {
        ACK
    }
}

/// The fixed part of a reply: BOOTREPLY over Ethernet, the client's
/// transaction id, the broadcast flag, the lease, the server, the client's
/// hardware address, and the cookie.
pub open spec fn reply_header(xid: Seq<u8>, mac: Seq<u8>) -> Seq<u8> {
    seq![2u8, 1, 6, 0] + xid + seq![0u8, 0, 0x80, 0, 0, 0, 0, 0] + CLIENT_IP@ + AP_IP@ + zeros(4)
        + mac + zeros(192) + MAGIC@
}

/// The options of a reply: type, server, lease time (3600 s), mask, router,
/// DNS server, end.
pub open spec fn reply_options(request_type: u8) -> Seq<u8> {
    seq![OPT_MESSAGE_TYPE, 1, reply_type(request_type)] + option4(OPT_SERVER_ID, AP_IP@) + option4(
        OPT_LEASE_TIME,
        octets::be32(3600),
    ) + option4(OPT_SUBNET_MASK, NETMASK@) + option4(OPT_ROUTER, AP_IP@) + option4(OPT_DNS, AP_IP@)
        + seq![OPT_END]
}

/// The reply to a request.
pub open spec fn reply(request: DhcpRequest) -> Seq<u8> {
    reply_header(request.transaction_id@, request.client_mac@) + reply_options(
        request.message_type,
    )
}

fn append_zeros(out: &mut Vec<u8>, n: usize)
    ensures
        final(out)@ == old(out)@ + zeros(n as nat),
{
    let ghost before = out@;
    let mut i: usize = 0;
    while i < n
        invariant
            i <= n,
            out@ =~= before + zeros(i as nat),
        decreases n - i,
    {
        out.push(0);
        i = i + 1;
    }
}

fn append_option4(out: &mut Vec<u8>, code: u8, value: &[u8])
    ensures
        final(out)@ == old(out)@ + option4(code, value@),
{
    let ghost before = out@;
    out.push(code);
    out.push(4);
    octets::append(out, value);
    assert(out@ =~= before + option4(code, value@));
}

fn header_bytes(request: &DhcpRequest) -> (r: Vec<u8>)
    ensures
        r@ == reply_header(request.transaction_id@, request.client_mac@),
        r@.len() == OPTIONS_AT,
{
    let mut bytes: Vec<u8> = Vec::new();
    let start: [u8; 4] = [2, 1, 6, 0];
    octets::append(&mut bytes, &start);
    assert(bytes@ =~= seq![2u8, 1, 6, 0]);
    octets::append(&mut bytes, &request.transaction_id);
    let flags: [u8; 8] = [0, 0, 0x80, 0, 0, 0, 0, 0];
    assert(flags@ =~= seq![0u8, 0, 0x80, 0, 0, 0, 0, 0]);
    octets::append(&mut bytes, &flags);
    octets::append(&mut bytes, &CLIENT_IP);
    octets::append(&mut bytes, &AP_IP);
    append_zeros(&mut bytes, 4);
    octets::append(&mut bytes, &request.client_mac);
    append_zeros(&mut bytes, 192);
    octets::append(&mut bytes, &MAGIC);
    bytes
}

fn option_bytes(request: &DhcpRequest) -> (r: Vec<u8>)
    ensures
        r@ == reply_options(request.message_type),
        r@.len() == REPLY_LEN - OPTIONS_AT,
{
    let mut bytes: Vec<u8> = Vec::new();
    bytes.push(OPT_MESSAGE_TYPE);
    bytes.push(1);
    bytes.push(
        if request.message_type == DISCOVER {
            OFFER
        } else {
            ACK
        },
    );
    assert(bytes@ =~= seq![OPT_MESSAGE_TYPE, 1, reply_type(request.message_type)]);
    append_option4(&mut bytes, OPT_SERVER_ID, &AP_IP);
    let mut lease: Vec<u8> = Vec::new();
    octets::append_be32(&mut lease, 3600);
    assert(lease@ =~= octets::be32(3600));
    append_option4(&mut bytes, OPT_LEASE_TIME, lease.as_slice());
    append_option4(&mut bytes, OPT_SUBNET_MASK, &NETMASK);
    append_option4(&mut bytes, OPT_ROUTER, &AP_IP);
    append_option4(&mut bytes, OPT_DNS, &AP_IP);
    bytes.push(OPT_END);
    assert(bytes@ =~= reply_options(request.message_type));
    bytes
}

/// Build the OFFER/ACK reply. Returns the datagram length in `out`
/// (broadcast it to 255.255.255.255:68); the rest of `out` is zero.
pub fn build_reply(request: &DhcpRequest, out: &mut [u8; 300]) -> (r: usize)
    ensures
        r == REPLY_LEN,
        reply(*request).len() == REPLY_LEN,
        final(out)@ == reply(*request) + zeros((300 - REPLY_LEN) as nat),
{
    let mut bytes: Vec<u8> = header_bytes(request);
    octets::append(&mut bytes, option_bytes(request).as_slice());
    let len: usize = bytes.len();
    append_zeros(&mut bytes, 26);
    let mut i: usize = 0;
    while i < 300
        invariant
            i <= 300 == bytes@.len(),
            out@.len() == 300,
            forall|k: int| 0 <= k < i ==> out@[k] == bytes@[k],
        decreases 300 - i,
    {
        out[i] = bytes[i];
        i = i + 1;
    }
    assert(out@ =~= reply(*request) + zeros((300 - REPLY_LEN) as nat));
    len
}

/// The reply is a BOOTREPLY that echoes the transaction id and the hardware
/// address, hands out the fixed lease, and offers to a DISCOVER but
/// acknowledges a REQUEST.
pub proof fn reply_answers_the_request(request: DhcpRequest)
    ensures
        reply(request)[0] == 2,
        reply(request).subrange(4, 8) == request.transaction_id@,
        reply(request).subrange(16, 20) == CLIENT_IP@,
        reply(request).subrange(28, 44) == request.client_mac@,
        request.message_type == DISCOVER ==> reply(request)[242] == OFFER,
        request.message_type == REQUEST ==> reply(request)[242] == ACK,
{
    let r = reply(request);
    assert(CLIENT_IP@.len() == 4 && AP_IP@.len() == 4 && MAGIC@.len() == 4);
    assert(r.subrange(4, 8) =~= request.transaction_id@);
    assert(r.subrange(16, 20) =~= CLIENT_IP@);
    assert(r.subrange(28, 44) =~= request.client_mac@);
    assert(r[242] == reply_options(request.message_type)[2]);
}

/// The options are walked in order: a zero is passed over alone, 255 ends them, a
/// message type of one byte decides, DISCOVER and REQUEST being answered and nothing
/// else, and any other option is passed over with its value.
pub proof fn options_are_walked(data: Seq<u8>, at: int)
    requires
        0 <= at < data.len() - 1,
    ensures
        data[at] == 0 ==> message_type(data, at) == message_type(data, at + 1),
        data[at] == 255 ==> message_type(data, at) is None,
        data[at] == 53 && data[at + 1] == 1 && at + 2 < data.len() ==> message_type(data, at) == (
        if data[at + 2] == 1 || data[at + 2] == 3 {
            Some(data[at + 2])
        } else {
            None
        }),
        data[at] != 0 && data[at] != 255 && (data[at] != 53 || data[at + 1] != 1) ==> message_type(
            data,
            at,
        ) == message_type(data, at + 2 + data[at + 1]),
        message_type(data, data.len() as int) is None,
        message_type(data, data.len() - 1) is None,
{
}

/// A datagram is a request exactly when it is a BOOTREQUEST of at least 240 bytes with
/// the cookie 99.130.83.99 at 236 and, from 240 on, a message type that is answered. The
/// transaction id stands at 4 and the hardware address at 28.
pub proof fn requests_are_read(data: &[u8], r: Option<DhcpRequest>)
    requires
        call_ensures(parse_request, (data,), r),
    ensures
        r is Some <==> data@.len() >= 240 && data@[0] == 1 && data@[236] == 99 && data@[237] == 130
            && data@[238] == 83 && data@[239] == 99 && message_type(data@, 240) is Some,
        r matches Some(request) ==> Some(request.message_type) == message_type(data@, 240)
            && request.transaction_id@ == data@.subrange(4, 8) && request.client_mac@
            == data@.subrange(28, 44),
{
    if data@.len() >= 240 {
        let cookie = data@.subrange(236, 240);
        assert(MAGIC@ =~= seq![99u8, 130, 83, 99]);
        assert(cookie[0] == data@[236] && cookie[1] == data@[237] && cookie[2] == data@[238]
            && cookie[3] == data@[239]);
        assert(cookie == MAGIC@ <==> cookie =~= MAGIC@);
    }
}

/// A reply has 274 bytes. Its header hands 192.168.4.2 to the client by broadcast from
/// 192.168.4.1; its options are the type, an OFFER for a DISCOVER and an ACK for a
/// REQUEST, the server, a lease of 3600 seconds, the mask 255.255.255.0, the router and
/// the name server, and the end.
pub proof fn replies_are_laid_out(request: &DhcpRequest, out: &mut [u8; 300], r: usize)
    requires
        call_ensures(build_reply, (request, out), r),
        request.message_type == 1 || request.message_type == 3,
    ensures
        r == 274,
        final(out)@.subrange(0, 4) == seq![2u8, 1, 6, 0],
        final(out)@.subrange(4, 8) == request.transaction_id@,
        final(out)@.subrange(8, 16) == seq![0u8, 0, 0x80, 0, 0, 0, 0, 0],
        final(out)@.subrange(16, 20) == seq![192u8, 168, 4, 2],
        final(out)@.subrange(20, 24) == seq![192u8, 168, 4, 1],
        final(out)@.subrange(24, 28) == seq![0u8, 0, 0, 0],
        final(out)@.subrange(28, 44) == request.client_mac@,
        forall|i: int| 44 <= i < 236 ==> #[trigger] final(out)@[i] == 0,
        final(out)@.subrange(236, 240) == seq![99u8, 130, 83, 99],
        final(out)@.subrange(240, 243) == seq![
            53u8,
            1,
            if request.message_type == 1 {
                2
            } else {
                5
            },
        ],
        final(out)@.subrange(243, 249) == seq![54u8, 4, 192, 168, 4, 1],
        final(out)@.subrange(249, 255) == seq![51u8, 4, 0, 0, 14, 16],
        final(out)@.subrange(255, 261) == seq![1u8, 4, 255, 255, 255, 0],
        final(out)@.subrange(261, 267) == seq![3u8, 4, 192, 168, 4, 1],
        final(out)@.subrange(267, 273) == seq![6u8, 4, 192, 168, 4, 1],
        final(out)@[273] == 255,
        forall|i: int| 274 <= i < 300 ==> #[trigger] final(out)@[i] == 0,
{
    let head = reply_header(request.transaction_id@, request.client_mac@);
    let options = reply_options(request.message_type);
    assert(CLIENT_IP@ =~= seq![192u8, 168, 4, 2]);
    assert(AP_IP@ =~= seq![192u8, 168, 4, 1]);
    assert(NETMASK@ =~= seq![255u8, 255, 255, 0]);
    assert(MAGIC@ =~= seq![99u8, 130, 83, 99]);
    assert(octets::be32(3600) =~= seq![0u8, 0, 14, 16]);
    assert(head.len() == 240);
    assert(options.len() == 34);
    assert forall|i: int| 0 <= i < 240 implies final(out)@[i] == head[i] by {}
    assert forall|i: int| 240 <= i < 274 implies final(out)@[i] == options[i - 240] by {}
    assert(head.subrange(0, 4) =~= seq![2u8, 1, 6, 0]);
    assert(final(out)@.subrange(0, 4) =~= head.subrange(0, 4));
    assert(final(out)@.subrange(240, 243) =~= options.subrange(0, 3));
    assert(final(out)@.subrange(243, 249) =~= options.subrange(3, 9));
    assert(final(out)@.subrange(249, 255) =~= options.subrange(9, 15));
    assert(final(out)@.subrange(255, 261) =~= options.subrange(15, 21));
    assert(final(out)@.subrange(261, 267) =~= options.subrange(21, 27));
    assert(final(out)@.subrange(267, 273) =~= options.subrange(27, 33));
}

} // verus!
