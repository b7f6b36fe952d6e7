//! The end-to-end check of bridge mode: a node on the host's side sends over the
//! air, the hub relays to the broker, and back.
//!
//! LoRa is a lossy medium and both radios are half-duplex, so in the soak rounds
//! each direction gets one retry; everything else has to work at once.
use crate::acceptance;
use crate::acceptance::contains;
use crate::bridge::codec;
use crate::decimal;
use crate::hex;
use crate::json;
use crate::octets;
use vstd::prelude::*;

verus! {

/// The spreading factor that the node is pinned to: that of the hub. A stale
/// value would silently break the link.
pub const NODE_SPREADING_FACTOR: u8 = 11;

/// What the check does next. Every step succeeds or fails.
#[derive(Debug, Clone, Copy, PartialEq, Eq, Structural)]
pub enum ScriptStep {
    /// Find the hub by its retained online status.
    FindHub,
    /// Subscribe to the hub's topics and wait until the broker confirmed it.
    Subscribe,
    /// Connect to the node.
    ConnectNode,
    /// Read the node's radio configuration.
    ReadRadio,
    /// Pin the node's spreading factor.
    PinSpreadingFactor,
    /// Transmit an uplink from the node.
    SendUplink,
    /// See the uplink at the broker.
    AwaitUplink,
    /// Publish a downlink and wait until the broker took it.
    SendDownlink,
    /// Hear the downlink at the node.
    HearDownlink,
    /// See the result of the downlink at the broker, with its id.
    AwaitResult,
    /// Soak: transmit an uplink in this round and attempt.
    SoakSend {
        /// Round, from 0.
        round: u32,
        /// Whether this is the retry.
        retry: bool,
    },
    /// Soak: see the uplink at the broker.
    SoakAwait {
        /// Round, from 0.
        round: u32,
        /// Whether this is the retry.
        retry: bool,
    },
    /// Soak: publish a downlink.
    SoakPublish {
        /// Round, from 0.
        round: u32,
        /// Whether this is the retry.
        retry: bool,
    },
    /// Soak: see that the hub transmitted it, so that a refusal cannot pass for
    /// loss on the air.
    SoakResult {
        /// Round, from 0.
        round: u32,
        /// Whether this is the retry.
        retry: bool,
    },
    /// Soak: hear the downlink at the node.
    SoakHear {
        /// Round, from 0.
        round: u32,
        /// Whether this is the retry.
        retry: bool,
    },
    /// Publish something that is no downlink request.
    SendGarbage,
    /// See that it was answered with an error.
    AwaitRejection,
    /// Everything worked.
    Passed,
    /// The check failed.
    Failed,
}

impl ScriptStep {
    /// Whether the check is over.
    pub open spec fn over(self) -> bool {
        self is Passed || self is Failed
    }

    /// The start of a round, or what follows the last.
    pub open spec fn round_start(round: int, rounds: u32) -> ScriptStep {
        if round < rounds {
            ScriptStep::SoakSend { round: round as u32, retry: false }
        } else {
            ScriptStep::SendGarbage
        }
    }

    /// The step after one that succeeded.
    pub open spec fn onwards(self, rounds: u32) -> ScriptStep {
        match self {
            ScriptStep::FindHub => ScriptStep::Subscribe,
            ScriptStep::Subscribe => ScriptStep::ConnectNode,
            ScriptStep::ConnectNode => ScriptStep::ReadRadio,
            ScriptStep::ReadRadio => ScriptStep::PinSpreadingFactor,
            ScriptStep::PinSpreadingFactor => ScriptStep::SendUplink,
            ScriptStep::SendUplink => ScriptStep::AwaitUplink,
            ScriptStep::AwaitUplink => ScriptStep::SendDownlink,
            ScriptStep::SendDownlink => ScriptStep::HearDownlink,
            ScriptStep::HearDownlink => ScriptStep::AwaitResult,
            ScriptStep::AwaitResult => Self::round_start(0, rounds),
            ScriptStep::SoakSend { round, retry } => ScriptStep::SoakAwait { round, retry },
            ScriptStep::SoakAwait { round, .. } => ScriptStep::SoakPublish { round, retry: false },
            ScriptStep::SoakPublish { round, retry } => ScriptStep::SoakResult { round, retry },
            ScriptStep::SoakResult { round, retry } => ScriptStep::SoakHear { round, retry },
            ScriptStep::SoakHear { round, .. } => Self::round_start(round + 1, rounds),
            ScriptStep::SendGarbage => ScriptStep::AwaitRejection,
            ScriptStep::AwaitRejection => ScriptStep::Passed,
            ScriptStep::Passed => ScriptStep::Passed,
            ScriptStep::Failed => ScriptStep::Failed,
        }
    }

    /// The step after one that failed: what was lost on the air is sent once
    /// more, everything else ends the check.
    pub open spec fn after_failure(self) -> ScriptStep {
        match self {
            ScriptStep::SoakAwait { round, retry: false } => ScriptStep::SoakSend {
                round,
                retry: true,
            },
            ScriptStep::SoakHear { round, retry: false } => ScriptStep::SoakPublish {
                round,
                retry: true,
            },
            ScriptStep::Passed => ScriptStep::Passed,
            _ => ScriptStep::Failed,
        }
    }

    /// The step after this one.
    pub open spec fn following(self, rounds: u32, succeeded: bool) -> ScriptStep {
        if succeeded {
            self.onwards(rounds)
        } else {
            self.after_failure()
        }
    }

    /// Upper bound on the steps that are left.
    pub open spec fn steps_left(self, rounds: u32) -> int {
        let all = 10 * rounds;
        match self {
            ScriptStep::FindHub => 12 + all,
            ScriptStep::Subscribe => 11 + all,
            ScriptStep::ConnectNode => 10 + all,
            ScriptStep::ReadRadio => 9 + all,
            ScriptStep::PinSpreadingFactor => 8 + all,
            ScriptStep::SendUplink => 7 + all,
            ScriptStep::AwaitUplink => 6 + all,
            ScriptStep::SendDownlink => 5 + all,
            ScriptStep::HearDownlink => 4 + all,
            ScriptStep::AwaitResult => 3 + all,
            ScriptStep::SoakSend { round, retry } => all - 10 * round + (if retry {
                0int
            } else {
                2
            }),
            ScriptStep::SoakAwait { round, retry } => all - 10 * round - 1 + (if retry {
                0int
            } else {
                2
            }),
            ScriptStep::SoakPublish { round, retry } => all - 10 * round - 5 + (if retry {
                0int
            } else {
                3
            }),
            ScriptStep::SoakResult { round, retry } => all - 10 * round - 6 + (if retry {
                0int
            } else {
                3
            }),
            ScriptStep::SoakHear { round, retry } => all - 10 * round - 7 + (if retry {
                0int
            } else {
                3
            }),
            ScriptStep::SendGarbage => 2,
            ScriptStep::AwaitRejection => 1,
            ScriptStep::Passed => 0,
            ScriptStep::Failed => 0,
        }
    }

    /// Whether a step belongs to a check with this many rounds.
    pub open spec fn within(self, rounds: u32) -> bool {
        match self {
            ScriptStep::SoakSend { round, .. } => round < rounds,
            ScriptStep::SoakAwait { round, .. } => round < rounds,
            ScriptStep::SoakPublish { round, .. } => round < rounds,
            ScriptStep::SoakResult { round, .. } => round < rounds,
            ScriptStep::SoakHear { round, .. } => round < rounds,
            _ => true,
        }
    }

    /// The step after this one, now that it succeeded or failed.
    pub fn next(self, rounds: u32, succeeded: bool) -> (r: ScriptStep)
        requires
            self.within(rounds),
        ensures
            r == self.following(rounds, succeeded),
            r.within(rounds),
    {
        if !succeeded {
            return match self {
                ScriptStep::SoakAwait { round, retry: false } => ScriptStep::SoakSend {
                    round,
                    retry: true,
                },
                ScriptStep::SoakHear { round, retry: false } => ScriptStep::SoakPublish {
                    round,
                    retry: true,
                },
                ScriptStep::Passed => ScriptStep::Passed,
                _ => ScriptStep::Failed,
            };
        }
        match self {
            ScriptStep::FindHub => ScriptStep::Subscribe,
            ScriptStep::Subscribe => ScriptStep::ConnectNode,
            ScriptStep::ConnectNode => ScriptStep::ReadRadio,
            ScriptStep::ReadRadio => ScriptStep::PinSpreadingFactor,
            ScriptStep::PinSpreadingFactor => ScriptStep::SendUplink,
            ScriptStep::SendUplink => ScriptStep::AwaitUplink,
            ScriptStep::AwaitUplink => ScriptStep::SendDownlink,
            ScriptStep::SendDownlink => ScriptStep::HearDownlink,
            ScriptStep::HearDownlink => ScriptStep::AwaitResult,
            ScriptStep::AwaitResult => if 0 < rounds {
                ScriptStep::SoakSend { round: 0, retry: false }
            } else {
                ScriptStep::SendGarbage
            },
            ScriptStep::SoakSend { round, retry } => ScriptStep::SoakAwait { round, retry },
            ScriptStep::SoakAwait { round, .. } => ScriptStep::SoakPublish { round, retry: false },
            ScriptStep::SoakPublish { round, retry } => ScriptStep::SoakResult { round, retry },
            ScriptStep::SoakResult { round, retry } => ScriptStep::SoakHear { round, retry },
            ScriptStep::SoakHear { round, .. } => if round + 1 < rounds {
                ScriptStep::SoakSend { round: round + 1, retry: false }
            } else {
                ScriptStep::SendGarbage
            },
            ScriptStep::SendGarbage => ScriptStep::AwaitRejection,
            ScriptStep::AwaitRejection => ScriptStep::Passed,
            ScriptStep::Passed => ScriptStep::Passed,
            ScriptStep::Failed => ScriptStep::Failed,
        }
    }
}

/// The check comes to an end, whatever succeeds and fails: each step leaves
/// fewer to do.
pub proof fn check_ends(step: ScriptStep, rounds: u32, succeeded: bool)
    requires
        step.within(rounds),
        !step.over(),
    ensures
        0 <= step.following(rounds, succeeded).steps_left(rounds) < step.steps_left(rounds),
{
}

/// The step that a check is at after some outcomes.
pub open spec fn after_outcomes(rounds: u32, outcomes: Seq<bool>) -> ScriptStep
    decreases outcomes.len(),
{
    if outcomes.len() == 0 {
        ScriptStep::FindHub
    } else {
        after_outcomes(rounds, outcomes.drop_last()).following(rounds, outcomes.last())
    }
}

/// Whether a failure at this step is made good by a retry.
pub open spec fn retried(step: ScriptStep) -> bool {
    match step {
        ScriptStep::SoakAwait { retry, .. } => !retry,
        ScriptStep::SoakHear { retry, .. } => !retry,
        _ => false,
    }
}

/// A check that passed saw no failure but those that a retry made good.
pub proof fn passing_means_everything_worked(rounds: u32, outcomes: Seq<bool>, k: int)
    requires
        after_outcomes(rounds, outcomes) == ScriptStep::Passed,
        0 <= k < outcomes.len(),
        !outcomes[k],
    ensures
        retried(after_outcomes(rounds, outcomes.take(k))) || after_outcomes(
            rounds,
            outcomes.take(k),
        ) == ScriptStep::Passed,
    decreases outcomes.len(),
{
    let before = outcomes.drop_last();
    if k == outcomes.len() - 1 {
        assert(outcomes.take(k) =~= before);
    } else {
        assert(before.take(k) =~= outcomes.take(k));
        if after_outcomes(rounds, before) == ScriptStep::Passed {
            passing_means_everything_worked(rounds, before, k);
        } else {
            lemma_unretried_failure_is_final(rounds, outcomes, k);
        }
    }
}

proof fn lemma_unretried_failure_is_final(rounds: u32, outcomes: Seq<bool>, k: int)
    requires
        0 <= k < outcomes.len(),
        !outcomes[k],
    ensures
        retried(after_outcomes(rounds, outcomes.take(k))) || after_outcomes(
            rounds,
            outcomes.take(k),
        ) == ScriptStep::Passed || after_outcomes(rounds, outcomes) == ScriptStep::Failed,
    decreases outcomes.len(),
{
    let before = outcomes.drop_last();
    if k == outcomes.len() - 1 {
        assert(outcomes.take(k) =~= before);
    } else {
        assert(before.take(k) =~= outcomes.take(k));
        lemma_unretried_failure_is_final(rounds, before, k);
    }
}

/// A text that distinguishes one run of the check from others, with the number
/// of a round behind it where there is one.
pub open spec fn message(prefix: Seq<char>, nonce: u32, round: Option<u32>) -> Seq<u8> {
    octets::utf8(prefix) + decimal::digits(nonce as nat) + (match round {
        Some(round) => octets::utf8("-"@) + decimal::digits(round as nat),
        None => Seq::empty(),
    })
}

/// The payload of a message over the air.
pub fn payload(prefix: &str, nonce: u32, round: Option<u32>) -> (r: Vec<u8>)
    ensures
        r@ == message(prefix@, nonce, round),
{
    let mut out: Vec<u8> = Vec::new();
    octets::append_text(&mut out, prefix);
    assert(out@ =~= octets::utf8(prefix@));
    decimal::append(&mut out, nonce as u64);
    let ghost head = out@;
    match round {
        Some(round) => {
            octets::append_text(&mut out, "-");
            decimal::append(&mut out, round as u64);
        },
        None => {},
    }
    assert(out@ =~= message(prefix@, nonce, round));
    out
}

/// The number that tells runs apart: the time in seconds, cut to five digits.
pub fn nonce(unix_secs: u64) -> (r: u32)
    ensures
        r == unix_secs % 100_000,
{
    (unix_secs % 100_000) as u32
}

/// A downlink request.
pub open spec fn request_object(payload: Seq<u8>, id: Option<u32>) -> Seq<u8> {
    octets::utf8("{\"payload_hex\":\""@) + hex::lower(payload) + octets::utf8("\""@)
        + codec::optional_field(",\"id\":"@, id) + octets::utf8("}"@)
}

/// The JSON of a downlink request.
pub fn downlink_request(payload: &[u8], id: Option<u32>) -> (r: Vec<u8>)
    ensures
        r@ == request_object(payload@, id),
{
    let mut out: Vec<u8> = Vec::new();
    octets::append_text(&mut out, "{\"payload_hex\":\"");
    assert(out@ =~= octets::utf8("{\"payload_hex\":\""@));
    octets::append(&mut out, hex::to_lower(payload).as_slice());
    octets::append_text(&mut out, "\"");
    let ghost head = out@;
    match id {
        Some(n) => {
            octets::append_text(&mut out, ",\"id\":");
            decimal::append(&mut out, n as u64);
        },
        None => {},
    }
    assert(out@ =~= head + codec::optional_field(",\"id\":"@, id));
    octets::append_text(&mut out, "}");
    out
}

/// Whether a status says that the hub is online.
pub fn says_online(json: &[u8]) -> (r: bool)
    ensures
        r == acceptance::occurs(octets::utf8("\"online\":true"@), json@),
{
    contains(json, "\"online\":true".as_bytes())
}

/// Whether an uplink carries a payload.
pub fn carries(json: &[u8], payload: &[u8]) -> (r: bool)
    ensures
        r == acceptance::occurs(hex::lower(payload@), json@),
{
    contains(json, hex::to_lower(payload).as_slice())
}

/// The payload of an uplink, as it stands in its JSON.
pub open spec fn payload_text(payload: Seq<u8>) -> Seq<u8> {
    octets::utf8("\"payload_hex\":\""@) + hex::lower(payload) + octets::utf8("\""@)
}

/// Whether an uplink reports exactly this payload.
pub fn reports_payload(json: &[u8], payload: &[u8]) -> (r: bool)
    ensures
        r == acceptance::occurs(payload_text(payload@), json@),
{
    let mut text: Vec<u8> = Vec::new();
    octets::append_text(&mut text, "\"payload_hex\":\"");
    octets::append(&mut text, hex::to_lower(payload).as_slice());
    octets::append_text(&mut text, "\"");
    assert(text@ =~= payload_text(payload@));
    contains(json, text.as_slice())
}

/// Whether an uplink reports the signal strength.
pub fn reports_signal(json: &[u8]) -> (r: bool)
    ensures
        r == acceptance::occurs(octets::utf8("\"rssi\":"@), json@),
{
    contains(json, "\"rssi\":".as_bytes())
}

/// Whether a result says that the downlink was transmitted.
pub fn says_sent(json: &[u8]) -> (r: bool)
    ensures
        r == acceptance::occurs(octets::utf8("\"result\":\"sent\""@), json@),
{
    contains(json, "\"result\":\"sent\"".as_bytes())
}

/// The id of a result, as it stands in its JSON.
pub open spec fn id_text(id: u32) -> Seq<u8> {
    octets::utf8("\"id\":"@) + decimal::digits(id as nat)
}

/// Whether a result carries an id.
pub fn has_id(json: &[u8], id: u32) -> (r: bool)
    ensures
        r == acceptance::occurs(id_text(id), json@),
{
    let mut needle: Vec<u8> = Vec::new();
    octets::append_text(&mut needle, "\"id\":");
    assert(needle@ =~= octets::utf8("\"id\":"@));
    decimal::append(&mut needle, id as u64);
    contains(json, needle.as_slice())
}

/// Whether a result says that the request was no JSON.
pub fn says_bad_json(json: &[u8]) -> (r: bool)
    ensures
        r == acceptance::occurs(octets::utf8("bad_json"@), json@),
{
    contains(json, "bad_json".as_bytes())
}

/// What the hub publishes meets the check: an online status is recognised, an
/// uplink is found by its payload and signal strength, and the result of a
/// transmitted downlink by its id.
pub proof fn hub_messages_are_recognised(
    fw: &str,
    data: Seq<u8>,
    rssi: i16,
    snr: i8,
    seq: u32,
    uptime_ms: u64,
    id: u32,
)
    requires
        data.len() <= 256,
    ensures
        acceptance::occurs(
            octets::utf8("\"online\":true"@),
            codec::status_object(true, Some(fw)),
        ),
        acceptance::occurs(
            payload_text(data),
            codec::uplink_object(data, rssi, snr, seq, uptime_ms),
        ),
        acceptance::occurs(
            hex::lower(data),
            codec::uplink_object(data, rssi, snr, seq, uptime_ms),
        ),
        acceptance::occurs(
            octets::utf8("\"rssi\":"@),
            codec::uplink_object(data, rssi, snr, seq, uptime_ms),
        ),
        acceptance::occurs(
            octets::utf8("\"result\":\"sent\""@),
            codec::tx_result_object("sent"@, Some(id), None),
        ),
        acceptance::occurs(id_text(id), codec::tx_result_object("sent"@, Some(id), None)),
{
    lemma_status_recognised(fw);
    lemma_payload_recognised(data, rssi, snr, seq, uptime_ms);
    lemma_uplink_recognised(data, rssi, snr, seq, uptime_ms);
    lemma_result_recognised(id);
}

proof fn lemma_status_recognised(fw: &str)
    ensures
        acceptance::occurs(
            octets::utf8("\"online\":true"@),
            codec::status_object(true, Some(fw)),
        ),
{
    reveal_strlit("{\"online\":true");
    reveal_strlit("\"online\":true");
    reveal_strlit("{");
    assert("{\"online\":true"@ =~= "{"@ + "\"online\":true"@);
    octets::lemma_utf8_concat("{"@, "\"online\":true"@);
    let whole = codec::status_object(true, Some(fw));
    let head = octets::utf8("{\"online\":true"@);
    let behind = whole.skip(head.len() as int);
    acceptance::lemma_occurs(octets::utf8("{"@), octets::utf8("\"online\":true"@), behind);
    assert(whole =~= octets::utf8("{"@) + octets::utf8("\"online\":true"@) + behind);
}

/// The hex digits of a payload stand in its JSON as they are, in quotes.
proof fn lemma_hex_is_only_quoted(data: Seq<u8>)
    requires
        data.len() <= 256,
    ensures
        json::string(codec::hex_chars(data)) == seq![34u8] + hex::lower(data) + seq![34u8],
{
    let digits = hex::lower(data);
    let chars = codec::hex_chars(data);
    assert(codec::carried(data) =~= data);
    octets::lemma_ascii(digits);
    assert(chars == octets::ascii_chars(digits));
    assert forall|i: int| 0 <= i < chars.len() implies 32 <= #[trigger] chars[i] as int && (
    chars[i] as int) < 127 && chars[i] != '"' && chars[i] != '\\' by {
        assert(chars[i] == digits[i] as char);
    }
    json::plain_text_is_only_quoted(chars);
}

/// An uplink begins with its payload.
proof fn lemma_payload_first(data: Seq<u8>)
    requires
        data.len() <= 256,
    ensures
        octets::utf8("{\"payload_hex\":"@) + json::string(codec::hex_chars(data)) == octets::utf8(
            "{"@,
        ) + payload_text(data),
{
    lemma_hex_is_only_quoted(data);
    reveal_strlit("{\"payload_hex\":");
    reveal_strlit("\"payload_hex\":\"");
    reveal_strlit("\"payload_hex\":");
    reveal_strlit("{");
    reveal_strlit("\"");
    let brace = octets::utf8("{"@);
    let name = octets::utf8("\"payload_hex\":"@);
    let digits = hex::lower(data);
    let quote = seq![34u8];
    assert("{\"payload_hex\":"@ =~= "{"@ + "\"payload_hex\":"@);
    octets::lemma_utf8_concat("{"@, "\"payload_hex\":"@);
    assert("\"payload_hex\":\""@ =~= "\"payload_hex\":"@ + "\""@);
    octets::lemma_utf8_concat("\"payload_hex\":"@, "\""@);
    vstd::utf8::is_ascii_chars_encode_utf8("\""@);
    assert(octets::utf8("\""@) =~= quote);
    assert((brace + name) + (quote + digits + quote) =~= brace + ((name + quote) + digits + quote));
}

proof fn lemma_payload_recognised(data: Seq<u8>, rssi: i16, snr: i8, seq: u32, uptime_ms: u64)
    requires
        data.len() <= 256,
    ensures
        acceptance::occurs(
            payload_text(data),
            codec::uplink_object(data, rssi, snr, seq, uptime_ms),
        ),
{
    lemma_payload_first(data);
    let start = octets::utf8("{"@) + payload_text(data);
    let none = Seq::<u8>::empty();
    acceptance::lemma_occurs(octets::utf8("{"@), payload_text(data), none);
    assert(start + none =~= start);
    assert(octets::has(start, payload_text(data)));
    broadcast use octets::has_in_longer;

    assert(octets::has(
        codec::uplink_object(data, rssi, snr, seq, uptime_ms),
        payload_text(data),
    ));
}

proof fn lemma_uplink_recognised(data: Seq<u8>, rssi: i16, snr: i8, seq: u32, uptime_ms: u64)
    requires
        data.len() <= 256,
    ensures
        acceptance::occurs(
            hex::lower(data),
            codec::uplink_object(data, rssi, snr, seq, uptime_ms),
        ),
        acceptance::occurs(
            octets::utf8("\"rssi\":"@),
            codec::uplink_object(data, rssi, snr, seq, uptime_ms),
        ),
{
    let whole = codec::uplink_object(data, rssi, snr, seq, uptime_ms);
    let none = Seq::<u8>::empty();
    let start = octets::utf8("{"@) + payload_text(data);
    let open = octets::utf8("{"@) + octets::utf8("\"payload_hex\":\""@);
    let close = octets::utf8("\""@);
    lemma_payload_first(data);
    acceptance::lemma_occurs(open, hex::lower(data), close);
    assert(open + hex::lower(data) + close =~= start);
    assert(octets::has(start, hex::lower(data)));
    let (comma, name) = (octets::utf8(","@), octets::utf8("\"rssi\":"@));
    assert(octets::utf8(",\"rssi\":"@) == comma + name) by {
        reveal_strlit(",\"rssi\":");
        reveal_strlit("\"rssi\":");
        reveal_strlit(",");
        assert(",\"rssi\":"@ =~= ","@ + "\"rssi\":"@);
        octets::lemma_utf8_concat(","@, "\"rssi\":"@);
    }
    acceptance::lemma_occurs(start + comma, name, none);
    assert(start + comma + name + none =~= start + (comma + name));
    assert(octets::has(start + (comma + name), name));
    broadcast use octets::has_in_longer;

    assert(octets::has(whole, hex::lower(data)));
    assert(octets::has(whole, name));
}

/// A result begins with what came of the downlink.
proof fn lemma_result_first()
    ensures
        octets::utf8("{\"result\":"@) + json::string("sent"@) == octets::utf8("{"@) + octets::utf8(
            "\"result\":\"sent\""@,
        ),
{
    reveal_strlit("sent");
    json::plain_text_is_only_quoted("sent"@);
    reveal_strlit("{\"result\":");
    reveal_strlit("\"result\":\"sent\"");
    reveal_strlit("{");
    reveal_strlit("\"result\":");
    reveal_strlit("\"");
    let brace = octets::utf8("{"@);
    let name = octets::utf8("\"result\":"@);
    let word = octets::utf8("sent"@);
    let quote = seq![34u8];
    assert("{\"result\":"@ =~= "{"@ + "\"result\":"@);
    octets::lemma_utf8_concat("{"@, "\"result\":"@);
    assert("\"result\":\"sent\""@ =~= "\"result\":"@ + "\""@ + "sent"@ + "\""@);
    octets::lemma_utf8_concat("\"result\":"@ + "\""@ + "sent"@, "\""@);
    octets::lemma_utf8_concat("\"result\":"@ + "\""@, "sent"@);
    octets::lemma_utf8_concat("\"result\":"@, "\""@);
    vstd::utf8::is_ascii_chars_encode_utf8("\""@);
    assert(octets::utf8("\""@) =~= quote);
    assert((brace + name) + (quote + word + quote) =~= brace + (name + quote + word + quote));
}

/// A field that follows others begins with a comma.
proof fn lemma_id_field(id: u32)
    ensures
        octets::utf8(",\"id\":"@) + decimal::digits(id as nat) == octets::utf8(","@) + id_text(id),
{
    reveal_strlit(",\"id\":");
    reveal_strlit("\"id\":");
    reveal_strlit(",");
    assert(",\"id\":"@ =~= ","@ + "\"id\":"@);
    octets::lemma_utf8_concat(","@, "\"id\":"@);
    let (comma, name) = (octets::utf8(","@), octets::utf8("\"id\":"@));
    let digits = decimal::digits(id as nat);
    assert((comma + name) + digits =~= comma + (name + digits));
}

proof fn lemma_result_recognised(id: u32)
    ensures
        acceptance::occurs(
            octets::utf8("\"result\":\"sent\""@),
            codec::tx_result_object("sent"@, Some(id), None),
        ),
        acceptance::occurs(id_text(id), codec::tx_result_object("sent"@, Some(id), None)),
{
    let whole = codec::tx_result_object("sent"@, Some(id), None);
    let none = Seq::<u8>::empty();
    let (brace, comma) = (octets::utf8("{"@), octets::utf8(","@));
    let first = octets::utf8("\"result\":\"sent\""@);
    lemma_result_first();
    lemma_id_field(id);
    acceptance::lemma_occurs(brace, first, none);
    assert(brace + first + none =~= brace + first);
    assert(octets::has(brace + first, first));
    acceptance::lemma_occurs(brace + first + comma, id_text(id), none);
    assert(brace + first + comma + id_text(id) + none =~= (brace + first) + (comma + id_text(id)));
    assert(octets::has((brace + first) + (comma + id_text(id)), id_text(id)));
    broadcast use octets::has_in_longer;

    assert(octets::has(whole, first));
    assert(octets::has(whole, id_text(id)));
}

/// The steps before the soak, in order, with as many rounds as asked for behind them.
pub proof fn the_check_runs_in_order(step: ScriptStep, rounds: u32, r: ScriptStep)
    requires
        call_ensures(ScriptStep::next, (step, rounds, true), r),
    ensures
        step is FindHub ==> r is Subscribe,
        step is Subscribe ==> r is ConnectNode,
        step is ConnectNode ==> r is ReadRadio,
        step is ReadRadio ==> r is PinSpreadingFactor,
        step is PinSpreadingFactor ==> r is SendUplink,
        step is SendUplink ==> r is AwaitUplink,
        step is AwaitUplink ==> r is SendDownlink,
        step is SendDownlink ==> r is HearDownlink,
        step is HearDownlink ==> r is AwaitResult,
        step is AwaitResult && rounds > 0 ==> r == (ScriptStep::SoakSend {
            round: 0,
            retry: false,
        }),
        step is AwaitResult && rounds == 0 ==> r is SendGarbage,
        step is SendGarbage ==> r is AwaitRejection,
        step is AwaitRejection ==> r is Passed,
{
}

/// A round sends and awaits an uplink, publishes a downlink, sees its result and hears it;
/// the next round follows, and behind the last one the garbage.
pub proof fn rounds_run_in_order(
    step: ScriptStep,
    rounds: u32,
    round: u32,
    retry: bool,
    r: ScriptStep,
)
    requires
        call_ensures(ScriptStep::next, (step, rounds, true), r),
        round < rounds,
    ensures
        step == (ScriptStep::SoakSend { round, retry }) ==> r == (ScriptStep::SoakAwait {
            round,
            retry,
        }),
        step == (ScriptStep::SoakAwait { round, retry }) ==> r == (ScriptStep::SoakPublish {
            round,
            retry: false,
        }),
        step == (ScriptStep::SoakPublish { round, retry }) ==> r == (ScriptStep::SoakResult {
            round,
            retry,
        }),
        step == (ScriptStep::SoakResult { round, retry }) ==> r == (ScriptStep::SoakHear {
            round,
            retry,
        }),
        step == (ScriptStep::SoakHear { round, retry }) && round + 1 < rounds ==> r == (
        ScriptStep::SoakSend { round: (round + 1) as u32, retry: false }),
        step == (ScriptStep::SoakHear { round, retry }) && round + 1 == rounds ==> r
            is SendGarbage,
{
}

/// What is lost on the air in a round is sent once more in that round; any other failure
/// ends the check.
pub proof fn losses_are_retried_once(step: ScriptStep, rounds: u32, round: u32, r: ScriptStep)
    requires
        call_ensures(ScriptStep::next, (step, rounds, false), r),
    ensures
        step == (ScriptStep::SoakAwait { round, retry: false }) ==> r == (ScriptStep::SoakSend {
            round,
            retry: true,
        }),
        step == (ScriptStep::SoakHear { round, retry: false }) ==> r == (ScriptStep::SoakPublish {
            round,
            retry: true,
        }),
        step == (ScriptStep::SoakAwait { round, retry: true }) ==> r is Failed,
        step == (ScriptStep::SoakHear { round, retry: true }) ==> r is Failed,
        step is SoakSend || step is SoakPublish || step is SoakResult ==> r is Failed,
        !(step is SoakAwait) && !(step is SoakHear) && !(step is Passed) ==> r is Failed,
{
}

/// A message is its prefix, the number of the run and, in a round, a dash and the round;
/// the number of the run is the last five digits of the time.
pub proof fn messages_tell_runs_apart(
    prefix: &str,
    run: u32,
    round: u32,
    once: Vec<u8>,
    soaked: Vec<u8>,
    unix_secs: u64,
    n: u32,
)
    requires
        call_ensures(payload, (prefix, run, None::<u32>), once),
        call_ensures(payload, (prefix, run, Some(round)), soaked),
        call_ensures(nonce, (unix_secs,), n),
    ensures
        once@ == octets::utf8(prefix@) + decimal::digits(run as nat),
        soaked@ == once@ + octets::utf8("-"@) + decimal::digits(round as nat),
        n < 100_000,
        (unix_secs - n) % 100_000 == 0,
        n <= unix_secs,
{
}

/// A request is the JSON of the payload in hex, with the id where there is one.
pub proof fn requests_are_spelled(
    data: &[u8],
    id: u32,
    without: Vec<u8>,
    with: Vec<u8>,
)
    requires
        call_ensures(downlink_request, (data, None::<u32>), without),
        call_ensures(downlink_request, (data, Some(id)), with),
    ensures
        without@ == octets::utf8("{\"payload_hex\":\""@) + hex::lower(data@) + octets::utf8(
            "\"}"@,
        ),
        with@ == octets::utf8("{\"payload_hex\":\""@) + hex::lower(data@) + octets::utf8(
            "\",\"id\":"@,
        ) + decimal::digits(id as nat) + octets::utf8("}"@),
{
    reveal_strlit("\"");
    reveal_strlit("}");
    reveal_strlit(",\"id\":");
    reveal_strlit("\"}");
    reveal_strlit("\",\"id\":");
    assert("\"}"@ =~= "\""@ + "}"@);
    assert("\",\"id\":"@ =~= "\""@ + ",\"id\":"@);
    octets::lemma_utf8_concat("\""@, "}"@);
    octets::lemma_utf8_concat("\""@, ",\"id\":"@);
}

/// The hub's messages are recognised by the very texts that they hold.
pub proof fn messages_are_recognised_by_their_text(
    text: &[u8],
    online: bool,
    signal: bool,
    sent: bool,
    bad: bool,
    id: u32,
    named: bool,
    data: &[u8],
    carried: bool,
    reported: bool,
)
    requires
        call_ensures(says_online, (text,), online),
        call_ensures(reports_signal, (text,), signal),
        call_ensures(says_sent, (text,), sent),
        call_ensures(says_bad_json, (text,), bad),
        call_ensures(has_id, (text, id), named),
        call_ensures(carries, (text, data), carried),
        call_ensures(reports_payload, (text, data), reported),
    ensures
        online <==> octets::has(text@, octets::utf8("\"online\":true"@)),
        signal <==> octets::has(text@, octets::utf8("\"rssi\":"@)),
        sent <==> octets::has(text@, octets::utf8("\"result\":\"sent\""@)),
        bad <==> octets::has(text@, octets::utf8("bad_json"@)),
        named <==> octets::has(text@, octets::utf8("\"id\":"@) + decimal::digits(id as nat)),
        carried <==> octets::has(text@, hex::lower(data@)),
        reported <==> octets::has(
            text@,
            octets::utf8("\"payload_hex\":\""@) + hex::lower(data@) + octets::utf8("\""@),
        ),
{
}

} // verus!
