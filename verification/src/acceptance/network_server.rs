//! The network-server side of the Semtech UDP protocol, as the gateway check
//! plays it.
use crate::acceptance::contains;
use crate::gateway::udp_protocol;
use crate::gateway::udp_protocol::{
    TxAckError, HEADER_LEN, PROTOCOL_VERSION, PULL_ACK, PULL_DATA, PULL_RESP, PUSH_ACK, PUSH_DATA,
    StatCounters, TX_ACK,
};
use crate::octets;
use vstd::prelude::*;

verus! {

/// Whether a datagram is one from a gateway: a full header of this protocol
/// version.
pub open spec fn from_gateway(data: Seq<u8>) -> bool {
    data.len() >= HEADER_LEN && data[0] == PROTOCOL_VERSION
}

fn is_from_gateway(data: &[u8]) -> (r: bool)
    ensures
        r == from_gateway(data@),
{
    data.len() >= HEADER_LEN && data[0] == PROTOCOL_VERSION
}

/// The acknowledgement that a datagram asks for: keepalives and data have one,
/// with the same token.
pub open spec fn owed_ack(data: Seq<u8>) -> Option<Seq<u8>> {
    if !from_gateway(data) {
        None
    } else if data[3] == PULL_DATA {
        Some(seq![PROTOCOL_VERSION, data[1], data[2], PULL_ACK])
    } else if data[3] == PUSH_DATA {
        Some(seq![PROTOCOL_VERSION, data[1], data[2], PUSH_ACK])
    } else {
        None
    }
}

/// The acknowledgement to send for a datagram, if it asks for one.
pub fn ack_for(data: &[u8]) -> (r: Option<[u8; 4]>)
    ensures
        match r {
            Some(ack) => owed_ack(data@) == Some(ack@),
            None => owed_ack(data@) is None,
        },
{
    if !is_from_gateway(data) {
        return None;
    }
    let id: u8 = if data[3] == PULL_DATA {
        PULL_ACK
    } else if data[3] == PUSH_DATA {
        PUSH_ACK
    } else {
        return None;
    };
    let ack: [u8; 4] = [PROTOCOL_VERSION, data[1], data[2], id];
    assert(ack@ =~= seq![PROTOCOL_VERSION, data@[1], data@[2], id]);
    Some(ack)
}

/// The gateway EUI of a keepalive; `None` for any other datagram.
pub fn keepalive_eui(data: &[u8]) -> (r: Option<[u8; 8]>)
    ensures
        match r {
            Some(eui) => from_gateway(data@) && data@[3] == PULL_DATA && eui@ == data@.subrange(
                4,
                12,
            ),
            None => !(from_gateway(data@) && data@[3] == PULL_DATA),
        },
{
    if !is_from_gateway(data) || data[3] != PULL_DATA {
        return None;
    }
    let eui: [u8; 8] = [
        data[4],
        data[5],
        data[6],
        data[7],
        data[8],
        data[9],
        data[10],
        data[11],
    ];
    assert(eui@ =~= data@.subrange(4, 12));
    Some(eui)
}

/// Whether an EUI was derived from a MAC address by the standard insertion.
pub fn has_standard_insertion(eui: &[u8; 8]) -> (r: bool)
    ensures
        r == (eui@[3] == 0xFF && eui@[4] == 0xFE),
{
    eui[3] == 0xFF && eui[4] == 0xFE
}

/// Whether a datagram carries a stat report.
pub open spec fn is_report(data: Seq<u8>) -> bool {
    from_gateway(data) && data[3] == PUSH_DATA && crate::acceptance::occurs(
        octets::utf8("\"stat\""@),
        data.skip(12),
    )
}

/// The JSON of a stat report; `None` for any other datagram.
pub fn stat_report(data: &[u8]) -> (r: Option<Vec<u8>>)
    ensures
        match r {
            Some(json) => is_report(data@) && json@ == data@.skip(12),
            None => !is_report(data@),
        },
{
    if !is_from_gateway(data) || data[3] != PUSH_DATA {
        return None;
    }
    let total: usize = data.len();
    let json: Vec<u8> = octets::part(data, 12, total);
    assert(json@ =~= data@.skip(12));
    if contains(json.as_slice(), "\"stat\"".as_bytes()) {
        Some(json)
    } else {
        None
    }
}

/// Whether a datagram answers the downlink with this token.
pub open spec fn answers(data: Seq<u8>, token: u16) -> bool {
    from_gateway(data) && data[3] == TX_ACK && udp_protocol::token_of(data) == token
}

/// The JSON of the TX_ACK for a token; `None` for any other datagram.
pub fn tx_ack(data: &[u8], token: u16) -> (r: Option<Vec<u8>>)
    ensures
        match r {
            Some(json) => answers(data@, token) && json@ == data@.skip(12),
            None => !answers(data@, token),
        },
{
    if !is_from_gateway(data) || data[3] != TX_ACK || octets::join_be16(data[1], data[2]) != token {
        return None;
    }
    let total: usize = data.len();
    let json: Vec<u8> = octets::part(data, 12, total);
    assert(json@ =~= data@.skip(12));
    Some(json)
}

/// A downlink datagram.
pub open spec fn downlink(token: u16, json: Seq<char>) -> Seq<u8> {
    seq![PROTOCOL_VERSION] + octets::be16(token) + seq![PULL_RESP] + octets::utf8(json)
}

/// A PULL_RESP with this token and JSON.
pub fn pull_resp(token: u16, json: &str) -> (r: Vec<u8>)
    ensures
        r@ == downlink(token, json@),
{
    let mut data: Vec<u8> = Vec::new();
    data.push(PROTOCOL_VERSION);
    assert(data@ =~= seq![PROTOCOL_VERSION]);
    octets::append_be16(&mut data, token);
    let ghost head = data@;
    data.push(PULL_RESP);
    assert(data@ =~= head + seq![PULL_RESP]);
    octets::append_text(&mut data, json);
    data
}

/// Whether the answer to an immediate downlink says that it was accepted.
pub fn accepted(json: &[u8]) -> (r: bool)
    ensures
        r == crate::acceptance::occurs(octets::utf8("NONE"@), json@),
{
    contains(json, "NONE".as_bytes())
}

/// Whether the answer to a downlink with a stale time says that it was refused.
pub fn refused_as_stale(json: &[u8]) -> (r: bool)
    ensures
        r == (crate::acceptance::occurs(octets::utf8("TOO_LATE"@), json@)
            || crate::acceptance::occurs(octets::utf8("TOO_EARLY"@), json@)),
{
    contains(json, "TOO_LATE".as_bytes()) || contains(json, "TOO_EARLY".as_bytes())
}

/// Gateway and server understand each other's tokens: a keepalive and a report
/// are recognised and acknowledged with their own token, in a form that the
/// gateway reads, and a downlink reaches the gateway with its token and JSON.
pub proof fn tokens_survive_the_exchange(
    token: u16,
    eui: Seq<u8>,
    stats: StatCounters,
    json: Seq<char>,
)
    requires
        eui.len() == 8,
    ensures
        ({
            let ack = owed_ack(udp_protocol::header(token, PULL_DATA, eui))->Some_0;
            &&& owed_ack(udp_protocol::header(token, PULL_DATA, eui)) is Some
            &&& udp_protocol::header(token, PULL_DATA, eui).subrange(4, 12) == eui
            &&& udp_protocol::has_header(ack) && ack[3] == PULL_ACK && udp_protocol::token_of(ack)
                == token
        }),
        ({
            let report = udp_protocol::stat_datagram(token, eui, stats).bytes();
            let ack = owed_ack(report)->Some_0;
            &&& is_report(report)
            &&& owed_ack(report) is Some
            &&& udp_protocol::has_header(ack) && ack[3] == PUSH_ACK && udp_protocol::token_of(ack)
                == token
        }),
        ({
            let data = downlink(token, json);
            &&& udp_protocol::has_header(data) && data[3] == PULL_RESP && udp_protocol::token_of(
                data,
            ) == token
            &&& data.skip(4) == octets::utf8(json)
        }),
{
    let keepalive = udp_protocol::header(token, PULL_DATA, eui);
    assert(keepalive.subrange(4, 12) =~= eui);
    let data = downlink(token, json);
    assert(data.skip(4) =~= octets::utf8(json));
    lemma_reports_begin(token, eui, stats);
    let report = udp_protocol::stat_datagram(token, eui, stats).bytes();
    let head = udp_protocol::header(token, PUSH_DATA, eui);
    assert(report[0] == head[0] && report[1] == head[1] && report[2] == head[2] && report[3]
        == head[3]);
}

/// A report begins with its header and the name of the statistics.
proof fn lemma_reports_begin(token: u16, eui: Seq<u8>, stats: StatCounters)
    requires
        eui.len() == 8,
    ensures
        ({
            let report = udp_protocol::stat_datagram(token, eui, stats).bytes();
            &&& report.len() >= 12
            &&& report.take(12) == udp_protocol::header(token, PUSH_DATA, eui)
            &&& crate::acceptance::occurs(octets::utf8("\"stat\""@), report.skip(12))
        }),
{
    let datagram = udp_protocol::stat_datagram(token, eui, stats);
    let report = datagram.bytes();
    let rest = udp_protocol::joined(datagram.pieces);
    let open = octets::utf8("{\"stat\":{\"rxnb\":"@);
    assert(report.take(12) =~= udp_protocol::header(token, PUSH_DATA, eui));
    assert(report.skip(12) =~= rest);
    assert(octets::has(rest, open)) by {
        broadcast use {
            udp_protocol::joined_concat,
            udp_protocol::joined_single,
            octets::has_in_longer,
        };

        assert(open.subrange(0, open.len() as int) =~= open);
        assert(octets::holds_at(open, open, 0));
        assert(octets::has(open, open));
    }
    lemma_stat_is_named(rest);
}

/// Where the statistics begin, their name stands.
proof fn lemma_stat_is_named(rest: Seq<u8>)
    requires
        octets::has(rest, octets::utf8("{\"stat\":{\"rxnb\":"@)),
    ensures
        crate::acceptance::occurs(octets::utf8("\"stat\""@), rest),
{
    reveal_strlit("{\"stat\":{\"rxnb\":");
    reveal_strlit("\"stat\"");
    vstd::utf8::is_ascii_chars_encode_utf8("{\"stat\":{\"rxnb\":"@);
    vstd::utf8::is_ascii_chars_encode_utf8("\"stat\""@);
    let open = octets::utf8("{\"stat\":{\"rxnb\":"@);
    let needle = octets::utf8("\"stat\""@);
    let at = choose|at: int| #[trigger] octets::holds_at(rest, open, at);
    assert forall|i: int| 0 <= i < 6 implies rest[at + 1 + i] == needle[i] by {
        assert(rest.subrange(at, at + open.len())[1 + i] == open[1 + i]);
    }
    assert(rest.subrange(at + 1, at + 7) =~= needle);
    assert(octets::holds_at(rest, needle, at + 1));
}

/// The answer of a gateway is recognised under the downlink's token, and only
/// under that.
pub proof fn answers_carry_the_token(token: u16, other: u16, eui: Seq<u8>, error: TxAckError)
    requires
        eui.len() == 8,
    ensures
        answers(udp_protocol::ack_datagram(token, eui, error).bytes(), other) <==> other == token,
{
    let data = udp_protocol::ack_datagram(token, eui, error).bytes();
    assert(data.take(12) =~= udp_protocol::header(token, TX_ACK, eui));
    assert(data[0] == data.take(12)[0] && data[1] == data.take(12)[1] && data[2] == data.take(
        12,
    )[2] && data[3] == data.take(12)[3]);
}

/// A keepalive (2) is acknowledged with 4 and data (0) with 1, under the same version and
/// token; nothing else is acknowledged.
pub proof fn datagrams_are_acknowledged(data: &[u8], r: Option<[u8; 4]>)
    requires
        call_ensures(ack_for, (data,), r),
    ensures
        r is Some <==> data@.len() >= 12 && data@[0] == 2 && (data@[3] == 2 || data@[3] == 0),
        r matches Some(ack) ==> ack@[0] == 2 && ack@[1] == data@[1] && ack@[2] == data@[2]
            && ack@[3] == (if data@[3] == 2 {
            4int
        } else {
            1int
        }),
{
}

/// The EUI of a keepalive is its bytes from the fifth to the twelfth, and has the standard
/// insertion if FF and FE stand in its middle.
pub proof fn keepalives_name_the_gateway(
    data: &[u8],
    r: Option<[u8; 8]>,
    eui: &[u8; 8],
    standard: bool,
)
    requires
        call_ensures(keepalive_eui, (data,), r),
        call_ensures(has_standard_insertion, (eui,), standard),
    ensures
        r is Some <==> data@.len() >= 12 && data@[0] == 2 && data@[3] == 2,
        r matches Some(found) ==> found@ == data@.subrange(4, 12),
        standard <==> eui@[3] == 0xFF && eui@[4] == 0xFE,
{
}

/// A report is data (0) whose JSON, from the thirteenth byte on, names `"stat"`; an answer
/// is a TX_ACK (5) with the downlink's token, high byte first.
pub proof fn reports_and_answers_are_found(
    data: &[u8],
    report: Option<Vec<u8>>,
    token: u16,
    ack: Option<Vec<u8>>,
)
    requires
        call_ensures(stat_report, (data,), report),
        call_ensures(tx_ack, (data, token), ack),
    ensures
        report is Some <==> data@.len() >= 12 && data@[0] == 2 && data@[3] == 0 && octets::has(
            data@.skip(12),
            octets::utf8("\"stat\""@),
        ),
        report matches Some(json) ==> json@ == data@.skip(12),
        ack is Some <==> data@.len() >= 12 && data@[0] == 2 && data@[3] == 5 && 256 * data@[1]
            + data@[2] == token,
        ack matches Some(json) ==> json@ == data@.skip(12),
{
}

/// A downlink is version 2, its token with the high byte first, 3 and its JSON.
pub proof fn downlinks_are_laid_out(token: u16, json: &str, r: Vec<u8>)
    requires
        call_ensures(pull_resp, (token, json), r),
    ensures
        r@.len() == 4 + octets::utf8(json@).len(),
        r@[0] == 2,
        256 * r@[1] + r@[2] == token,
        r@[3] == 3,
        r@.skip(4) == octets::utf8(json@),
{
}

/// An answer with `NONE` says accepted, one with `TOO_LATE` or `TOO_EARLY` says refused.
pub proof fn verdicts_are_read(json: &[u8], ok: bool, stale: bool)
    requires
        call_ensures(accepted, (json,), ok),
        call_ensures(refused_as_stale, (json,), stale),
    ensures
        ok <==> octets::has(json@, octets::utf8("NONE"@)),
        stale <==> octets::has(json@, octets::utf8("TOO_LATE"@)) || octets::has(
            json@,
            octets::utf8("TOO_EARLY"@),
        ),
{
}

} // verus!
