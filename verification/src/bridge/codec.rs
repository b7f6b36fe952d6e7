//! JSON and hex codecs for the MQTT payloads.
//!
//! Payload bytes travel as hex (256 B max -> 512 chars), which stays well
//! inside one socket buffer and reads cleanly in `mosquitto_sub`.
use crate::bounded::{Bytes, Text};
use crate::decimal;
use crate::hex;
use crate::json;
use crate::octets;
use vstd::prelude::*;

verus! {

/// Enough for the uplink JSON with a full 256-byte payload as hex.
pub const MAX_JSON: usize = 640;

/// Why a downlink request cannot be used.
#[derive(Debug, Clone, Copy, PartialEq, Eq, Structural)]
pub enum CodecError {
    /// Not valid JSON or missing a required field.
    Json,
    /// payload_hex is not an even-length hex string within size limits.
    Hex,
}

/// A payload cut to what LoRa can carry.
pub open spec fn carried(data: Seq<u8>) -> Seq<u8> {
    if data.len() <= 256 {
        data
    } else {
        data.take(256)
    }
}

/// The hex form of a payload, as characters.
pub open spec fn hex_chars(data: Seq<u8>) -> Seq<char> {
    octets::ascii_chars(hex::lower(carried(data)))
}

/// The hex form of a payload, of at most its first 256 bytes.
pub fn hex_encode(data: &[u8]) -> (r: Text<512>)
    ensures
        r@ == hex_chars(data@),
{
    let n: usize = if data.len() <= 256 {
        data.len()
    } else {
        256
    };
    assert(data@.subrange(0, n as int) =~= carried(data@));
    let digits: Vec<u8> = hex::to_lower(&data[0..n]);
    proof {
        octets::lemma_ascii(digits@);
    }
    match Text::try_from(octets::ascii_text(digits.as_slice())) {
        Ok(text) => text,
        Err(_) => Text::new(),
    }
}

/// Whether a text is the hex form of 1 to 256 bytes.
pub open spec fn is_payload_hex(text: Seq<u8>) -> bool {
    0 < text.len() <= 512 && hex::is_hex(text)
}

/// The bytes behind a hex text of 1 to 256 bytes, in either case.
pub fn hex_decode(hex: &str) -> (r: Result<Bytes<256>, CodecError>)
    ensures
        match r {
            Ok(bytes) => is_payload_hex(octets::utf8(hex@)) && bytes@ == hex::bytes_of(
                octets::utf8(hex@),
            ),
            Err(e) => !is_payload_hex(octets::utf8(hex@)) && e == CodecError::Hex,
        },
{
    let text: &[u8] = hex.as_bytes();
    if text.len() == 0 || text.len() % 2 != 0 || text.len() > 512 {
        return Err(CodecError::Hex);
    }
    let mut out: Bytes<256> = Bytes::new();
    let mut i: usize = 0;
    while i < text.len()
        invariant
            i <= text@.len() <= 512,
            text@.len() % 2 == 0,
            i % 2 == 0,
            text@ == octets::utf8(hex@),
            forall|k: int| 0 <= k < i ==> hex::value(#[trigger] text@[k]) is Some,
            out@ =~= hex::bytes_of(text@.take(i as int)),
        decreases text@.len() - i,
    {
        let high: u8 = match hex::digit(text[i]) {
            Some(high) => high,
            None => {
                return Err(CodecError::Hex);
            },
        };
        let low: u8 = match hex::digit(text[i + 1]) {
            Some(low) => low,
            None => {
                return Err(CodecError::Hex);
            },
        };
        let ghost before = out@;
        let pushed: Result<(), u8> = out.push(16 * high + low);
        assert(before.len() == i / 2);
        if pushed.is_err() {
            return Err(CodecError::Hex);
        }
        i = i + 2;
    }
    assert(text@.take(i as int) =~= text@);
    Ok(out)
}

/// Payloads survive hex: what was encoded is decoded again.
pub proof fn hex_round_trip(data: Seq<u8>)
    requires
        1 <= data.len() <= 256,
    ensures
        is_payload_hex(octets::utf8(hex_chars(data))),
        hex::bytes_of(octets::utf8(hex_chars(data))) == data,
{
    hex::hex_round_trip(data);
    octets::lemma_ascii(hex::lower(data));
}

/// The `rx` topic JSON for a received LoRa packet.
pub open spec fn uplink_object(
    data: Seq<u8>,
    rssi: i16,
    snr: i8,
    seq: u32,
    uptime_ms: u64,
) -> Seq<u8> {
    octets::utf8("{\"payload_hex\":"@) + json::string(hex_chars(data)) + octets::utf8(",\"rssi\":"@)
        + decimal::signed(rssi as int) + octets::utf8(",\"snr\":"@) + decimal::signed(snr as int)
        + octets::utf8(",\"seq\":"@) + decimal::digits(seq as nat) + octets::utf8(
        ",\"uptime_ms\":"@,
    ) + decimal::digits(uptime_ms as nat) + octets::utf8("}"@)
}

/// A payload of at most [`MAX_JSON`] bytes; an empty one in place of a longer.
fn fitted(json: &[u8]) -> (r: Bytes<640>)
    ensures
        r@ == json::capped(json@, MAX_JSON as int),
{
    match Bytes::from_slice(json) {
        Ok(body) => body,
        Err(_) => Bytes::new(),
    }
}

/// The `rx` topic JSON for a received LoRa packet.
pub fn uplink_json(data: &[u8], rssi: i16, snr: i8, seq: u32, uptime_ms: u64) -> (r: Bytes<640>)
    ensures
        r@ == uplink_object(data@, rssi, snr, seq, uptime_ms),
        r@.len() > 0,
{
    let payload_hex: Text<512> = hex_encode(data);
    let mut out: Vec<u8> = Vec::new();
    octets::append_text(&mut out, "{\"payload_hex\":");
    assert(out@ =~= octets::utf8("{\"payload_hex\":"@));
    json::append_string(&mut out, payload_hex.as_str());
    octets::append_text(&mut out, ",\"rssi\":");
    decimal::append_signed(&mut out, rssi as i32);
    octets::append_text(&mut out, ",\"snr\":");
    decimal::append_signed(&mut out, snr as i32);
    octets::append_text(&mut out, ",\"seq\":");
    decimal::append(&mut out, seq as u64);
    octets::append_text(&mut out, ",\"uptime_ms\":");
    decimal::append(&mut out, uptime_ms);
    octets::append_text(&mut out, "}");
    proof {
        lemma_uplink_fits(data@, rssi, snr, seq, uptime_ms);
    }
    fitted(out.as_slice())
}

/// The uplink JSON fits with any payload.
proof fn lemma_uplink_fits(data: Seq<u8>, rssi: i16, snr: i8, seq: u32, uptime_ms: u64)
    ensures
        0 < uplink_object(data, rssi, snr, seq, uptime_ms).len() <= MAX_JSON,
{
    let digits = hex::lower(carried(data));
    octets::lemma_ascii(digits);
    let chars = hex_chars(data);
    assert(json::plain(chars)) by {
        assert forall|i: int| 0 <= i < chars.len() implies 32 <= #[trigger] chars[i] as int && (
        chars[i] as int) < 127 && chars[i] != '"' && chars[i] != '\\' by {
            assert(chars[i] == digits[i] as char);
        }
    }
    json::plain_text_is_only_quoted(chars);
    assert(json::string(chars).len() <= 514);
    reveal_strlit("{\"payload_hex\":");
    reveal_strlit(",\"rssi\":");
    reveal_strlit(",\"snr\":");
    reveal_strlit(",\"seq\":");
    reveal_strlit(",\"uptime_ms\":");
    reveal_strlit("}");
    vstd::utf8::is_ascii_chars_encode_utf8("{\"payload_hex\":"@);
    vstd::utf8::is_ascii_chars_encode_utf8(",\"rssi\":"@);
    vstd::utf8::is_ascii_chars_encode_utf8(",\"snr\":"@);
    vstd::utf8::is_ascii_chars_encode_utf8(",\"seq\":"@);
    vstd::utf8::is_ascii_chars_encode_utf8(",\"uptime_ms\":"@);
    vstd::utf8::is_ascii_chars_encode_utf8("}"@);
    decimal::lemma_digits_len_u32(
        if rssi < 0 {
            (-rssi) as u32
        } else {
            rssi as u32
        },
    );
    decimal::lemma_digits_len_u32(
        if snr < 0 {
            (-snr) as u32
        } else {
            snr as u32
        },
    );
    decimal::lemma_digits_len_u32(seq);
    decimal::lemma_digits_len_u64(uptime_ms);
}

/// A downlink request as read from JSON.
pub struct DownlinkMsg<'a> {
    /// The packet in hex.
    pub payload_hex: &'a str,
    /// Correlation id, echoed in the result.
    pub id: Option<u32>,
}

/// A validated downlink request from the `tx` topic.
#[derive(PartialEq)]
pub struct Downlink {
    /// The packet.
    pub payload: Bytes<256>,
    /// Correlation id, echoed in the result.
    pub id: Option<u32>,
}

/// What is wrong with a downlink request, if anything.
pub open spec fn downlink_error(msg: Option<&DownlinkMsg>) -> Option<CodecError> {
    match msg {
        None => Some(CodecError::Json),
        Some(msg) => if is_payload_hex(octets::utf8(msg.payload_hex@)) {
            None
        } else {
            Some(CodecError::Hex)
        },
    }
}

/// The packet that a downlink request asks for.
pub open spec fn downlink_payload(msg: Option<&DownlinkMsg>) -> Seq<u8> {
    hex::bytes_of(octets::utf8(msg->Some_0.payload_hex@))
}

/// Validate a downlink request. `msg` is the JSON as read, or `None` when it
/// could not be read.
pub fn parse_downlink(msg: Option<&DownlinkMsg>) -> (r: Result<Downlink, CodecError>)
    ensures
        match r {
            Ok(downlink) => downlink_error(msg) is None && downlink.payload@ == downlink_payload(
                msg,
            ) && downlink.id == msg->Some_0.id,
            Err(e) => downlink_error(msg) == Some(e),
        },
{
    match msg {
        Some(msg) => match hex_decode(msg.payload_hex) {
            Ok(payload) => Ok(Downlink { payload, id: msg.id }),
            Err(e) => Err(e),
        },
        None => Err(CodecError::Json),
    }
}

/// An optional numeric field behind other fields.
pub open spec fn optional_field(name: Seq<char>, value: Option<u32>) -> Seq<u8> {
    match value {
        Some(n) => octets::utf8(name) + decimal::digits(n as nat),
        None => Seq::empty(),
    }
}

/// The `tx/result` topic JSON for a downlink outcome.
pub open spec fn tx_result_object(
    result: Seq<char>,
    id: Option<u32>,
    retry_after_secs: Option<u32>,
) -> Seq<u8> {
    octets::utf8("{\"result\":"@) + json::string(result) + optional_field(",\"id\":"@, id)
        + optional_field(",\"retry_after_secs\":"@, retry_after_secs) + octets::utf8("}"@)
}

fn append_optional(out: &mut Vec<u8>, name: &str, value: Option<u32>)
    ensures
        final(out)@ == old(out)@ + optional_field(name@, value),
{
    let ghost before = out@;
    match value {
        Some(n) => {
            octets::append_text(out, name);
            decimal::append(out, n as u64);
        },
        None => {},
    }
    assert(out@ =~= before + optional_field(name@, value));
}

/// The `tx/result` topic JSON for a downlink outcome. Empty when it exceeds
/// [`MAX_JSON`].
pub fn tx_result_json(result: &str, id: Option<u32>, retry_after_secs: Option<u32>) -> (r: Bytes<
    640,
>)
    ensures
        r@ == json::capped(tx_result_object(result@, id, retry_after_secs), MAX_JSON as int),
{
    let mut out: Vec<u8> = Vec::new();
    octets::append_text(&mut out, "{\"result\":");
    assert(out@ =~= octets::utf8("{\"result\":"@));
    if !json::append_within(&mut out, result, MAX_JSON) {
        return Bytes::new();
    }
    append_optional(&mut out, ",\"id\":", id);
    append_optional(&mut out, ",\"retry_after_secs\":", retry_after_secs);
    octets::append_text(&mut out, "}");
    fitted(out.as_slice())
}

/// The retained `status` topic JSON.
pub open spec fn status_object(online: bool, fw: Option<&str>) -> Seq<u8> {
    octets::utf8(
        if online {
            "{\"online\":true"@
        } else {
            "{\"online\":false"@
        },
    ) + (match fw {
        Some(version) => octets::utf8(",\"fw\":"@) + json::string(version@),
        None => Seq::empty(),
    }) + octets::utf8("}"@)
}

/// The retained `status` topic JSON. The offline variant doubles as the LWT.
/// Empty when it exceeds [`MAX_JSON`].
pub fn status_json(online: bool, fw: Option<&str>) -> (r: Bytes<640>)
    ensures
        r@ == json::capped(status_object(online, fw), MAX_JSON as int),
{
    let mut out: Vec<u8> = Vec::new();
    if online {
        octets::append_text(&mut out, "{\"online\":true");
    } else {
        octets::append_text(&mut out, "{\"online\":false");
    }
    if let Some(version) = fw {
        octets::append_text(&mut out, ",\"fw\":");
        if !json::append_within(&mut out, version, MAX_JSON) {
            return Bytes::new();
        }
    }
    octets::append_text(&mut out, "}");
    assert(out@ =~= status_object(online, fw));
    fitted(out.as_slice())
}

/// The bytes of a text, a plain text in quotation marks, and another text.
proof fn lemma_quoted(before: Seq<char>, word: Seq<char>, after: Seq<char>)
    requires
        json::plain(word),
    ensures
        octets::utf8(before) + json::string(word) + octets::utf8(after) == octets::utf8(
            before + "\""@ + word + "\""@ + after,
        ),
{
    reveal_strlit("\"");
    vstd::utf8::is_ascii_chars_encode_utf8("\""@);
    assert(octets::utf8("\""@) =~= seq![34u8]);
    json::plain_text_is_only_quoted(word);
    octets::lemma_utf8_concat(before + "\""@ + word + "\""@, after);
    octets::lemma_utf8_concat(before + "\""@ + word, "\""@);
    octets::lemma_utf8_concat(before + "\""@, word);
    octets::lemma_utf8_concat(before, "\""@);
    assert(octets::utf8(before) + json::string(word) + octets::utf8(after) =~= octets::utf8(
        before,
    ) + octets::utf8("\""@) + octets::utf8(word) + octets::utf8("\""@) + octets::utf8(after));
}

/// A result is an object with the outcome, the correlation id of the downlink
/// exactly if that has one, and the seconds to wait exactly if there are any.
pub proof fn results_name_their_downlink(word: Seq<char>, id: u32, secs: u32)
    requires
        json::plain(word),
    ensures
        ({
            let start = octets::utf8("{\"result\":"@ + "\""@ + word + "\""@);
            let with_id = octets::utf8(",\"id\":"@) + decimal::digits(id as nat);
            let with_secs = octets::utf8(",\"retry_after_secs\":"@) + decimal::digits(secs as nat);
            let end = octets::utf8("}"@);
            &&& tx_result_object(word, Some(id), Some(secs)) == start + with_id + with_secs + end
            &&& tx_result_object(word, Some(id), None) == start + with_id + end
            &&& tx_result_object(word, None, Some(secs)) == start + with_secs + end
            &&& tx_result_object(word, None, None) == start + end
        }),
{
    reveal_strlit("");
    lemma_quoted("{\"result\":"@, word, ""@);
    vstd::utf8::is_ascii_chars_encode_utf8(""@);
    assert("{\"result\":"@ + "\""@ + word + "\""@ + ""@ =~= "{\"result\":"@ + "\""@ + word + "\""@);
    let start = octets::utf8("{\"result\":"@ + "\""@ + word + "\""@);
    assert(start =~= octets::utf8("{\"result\":"@) + json::string(word));
    let with_id = octets::utf8(",\"id\":"@) + decimal::digits(id as nat);
    let with_secs = octets::utf8(",\"retry_after_secs\":"@) + decimal::digits(secs as nat);
    let end = octets::utf8("}"@);
    assert(tx_result_object(word, Some(id), None) =~= start + with_id + end);
    assert(tx_result_object(word, None, Some(secs)) =~= start + with_secs + end);
    assert(tx_result_object(word, None, None) =~= start + end);
}

/// An uplink is an object with the payload in hex, its signal strength and
/// signal to noise ratio, its number and the uptime, each in decimal.
pub proof fn uplinks_report_the_packet(
    data: Seq<u8>,
    rssi: i16,
    snr: i8,
    seq: u32,
    uptime_ms: u64,
)
    requires
        data.len() <= 256,
    ensures
        uplink_object(data, rssi, snr, seq, uptime_ms) == octets::utf8("{\"payload_hex\":"@)
            + seq![34u8] + hex::lower(data) + seq![34u8] + octets::utf8(",\"rssi\":"@)
            + decimal::signed(rssi as int) + octets::utf8(",\"snr\":"@) + decimal::signed(
            snr as int,
        ) + octets::utf8(",\"seq\":"@) + decimal::digits(seq as nat) + octets::utf8(
            ",\"uptime_ms\":"@,
        ) + decimal::digits(uptime_ms as nat) + octets::utf8("}"@),
{
    let digits = hex::lower(data);
    let chars = hex_chars(data);
    octets::lemma_ascii(digits);
    assert forall|i: int| 0 <= i < chars.len() implies 32 <= #[trigger] chars[i] as int && (
    chars[i] as int) < 127 && chars[i] != '"' && chars[i] != '\\' by {
        assert(chars[i] == digits[i] as char);
    }
    json::plain_text_is_only_quoted(chars);
    let head = octets::utf8("{\"payload_hex\":"@);
    assert(head + json::string(chars) =~= head + seq![34u8] + digits + seq![34u8]);
}

/// The status says whether the hub is online, and with which firmware if that is
/// given.
pub proof fn status_says_online_or_not(fw: &str)
    requires
        json::plain(fw@),
    ensures
        status_object(true, Some(fw)) == octets::utf8(
            "{\"online\":true,\"fw\":"@ + "\""@ + fw@ + "\""@ + "}"@,
        ),
        status_object(false, Some(fw)) == octets::utf8(
            "{\"online\":false,\"fw\":"@ + "\""@ + fw@ + "\""@ + "}"@,
        ),
        status_object(true, None) == octets::utf8("{\"online\":true}"@),
        status_object(false, None) == octets::utf8("{\"online\":false}"@),
{
    lemma_quoted("{\"online\":true,\"fw\":"@, fw@, "}"@);
    lemma_quoted("{\"online\":false,\"fw\":"@, fw@, "}"@);
    reveal_strlit("{\"online\":true");
    reveal_strlit("{\"online\":false");
    reveal_strlit(",\"fw\":");
    reveal_strlit("}");
    reveal_strlit("{\"online\":true,\"fw\":");
    reveal_strlit("{\"online\":false,\"fw\":");
    reveal_strlit("{\"online\":true}");
    reveal_strlit("{\"online\":false}");
    assert("{\"online\":true,\"fw\":"@ =~= "{\"online\":true"@ + ",\"fw\":"@);
    assert("{\"online\":false,\"fw\":"@ =~= "{\"online\":false"@ + ",\"fw\":"@);
    assert("{\"online\":true}"@ =~= "{\"online\":true"@ + "}"@);
    assert("{\"online\":false}"@ =~= "{\"online\":false"@ + "}"@);
    octets::lemma_utf8_concat("{\"online\":true"@, ",\"fw\":"@);
    octets::lemma_utf8_concat("{\"online\":false"@, ",\"fw\":"@);
    octets::lemma_utf8_concat("{\"online\":true"@, "}"@);
    octets::lemma_utf8_concat("{\"online\":false"@, "}"@);
    let (t, f) = (octets::utf8("{\"online\":true"@), octets::utf8("{\"online\":false"@));
    let (v, s, e) = (octets::utf8(",\"fw\":"@), json::string(fw@), octets::utf8("}"@));
    assert(t + (v + s) + e =~= t + v + s + e);
    assert(f + (v + s) + e =~= f + v + s + e);
    assert(t + Seq::<u8>::empty() + e =~= t + e);
    assert(f + Seq::<u8>::empty() + e =~= f + e);
}

/// A downlink request is usable exactly if it could be read and its payload is
/// one to 256 pairs of hex digits; the packet is then what the digits spell, the
/// high digit of each byte first.
pub proof fn requests_spell_their_packet(msg: &DownlinkMsg, i: int)
    ensures
        downlink_error(None) == Some(CodecError::Json),
        ({
            let text = octets::utf8(msg.payload_hex@);
            let usable = 2 <= text.len() <= 512 && text.len() % 2 == 0 && forall|k: int|
                0 <= k < text.len() ==> hex::value(#[trigger] text[k]) is Some;
            &&& downlink_error(Some(msg)) is None <==> usable
            &&& downlink_error(Some(msg)) == Some(CodecError::Hex) <==> !usable
            &&& usable ==> downlink_payload(Some(msg)).len() == text.len() / 2
            &&& usable && 0 <= i < text.len() / 2 ==> downlink_payload(Some(msg))[i] == 16
                * hex::value(text[2 * i])->Some_0 + hex::value(text[2 * i + 1])->Some_0
        }),
{
    let text = octets::utf8(msg.payload_hex@);
    if 0 <= i < text.len() / 2 {
        assert(2 * i + 1 < text.len());
        if text.len() % 2 == 0 && hex::value(text[2 * i]) is Some && hex::value(text[2 * i + 1]) is Some {
            hex::hex_digits(text[2 * i]);
            hex::hex_digits(text[2 * i + 1]);
        }
    }
}

/// A payload is spelled in lower case hex, two digits for each byte, and read back from
/// either case; what is no hex, of an odd length, empty or of more than 256 bytes is
/// refused.
pub proof fn payloads_are_spelled_in_hex(
    data: &[u8],
    spelled: Text<512>,
    text: &str,
    read: Result<Bytes<256>, CodecError>,
)
    requires
        call_ensures(hex_encode, (data,), spelled),
        call_ensures(hex_decode, (text,), read),
        data@.len() <= 256,
    ensures
        octets::utf8(spelled@) == hex::lower(data@),
        ({
            let digits = octets::utf8(text@);
            &&& read is Ok <==> digits.len() % 2 == 0 && 0 < digits.len() <= 512 && forall|i: int|
                0 <= i < digits.len() ==> hex::value(#[trigger] digits[i]) is Some
            &&& read matches Ok(bytes) ==> bytes@.len() == digits.len() / 2 && forall|i: int|
                0 <= i < digits.len() / 2 ==> #[trigger] bytes@[i] == 16 * hex::value(
                    digits[2 * i],
                )->Some_0 + hex::value(digits[2 * i + 1])->Some_0
            &&& read is Err ==> read->Err_0 == CodecError::Hex
        }),
{
    assert(carried(data@) =~= data@);
    octets::lemma_ascii(hex::lower(data@));
}

/// A request that could not be read is bad JSON, one whose payload is no hex of 1 to 256
/// bytes a bad payload; any other is the bytes that it spells, with its id.
pub proof fn requests_are_validated(msg: Option<&DownlinkMsg>, r: Result<Downlink, CodecError>)
    requires
        call_ensures(parse_downlink, (msg,), r),
    ensures
        msg is None ==> r is Err && r->Err_0 == CodecError::Json,
        msg matches Some(request) ==> {
            let digits = octets::utf8(request.payload_hex@);
            &&& r is Ok <==> digits.len() % 2 == 0 && 0 < digits.len() <= 512 && forall|i: int|
                0 <= i < digits.len() ==> hex::value(#[trigger] digits[i]) is Some
            &&& r matches Ok(downlink) ==> downlink.id == request.id && downlink.payload@.len()
                == digits.len() / 2 && forall|i: int|
                0 <= i < digits.len() / 2 ==> #[trigger] downlink.payload@[i] == 16 * hex::value(
                    digits[2 * i],
                )->Some_0 + hex::value(digits[2 * i + 1])->Some_0
            &&& r is Err ==> r->Err_0 == CodecError::Hex
        },
{
}

} // verus!
