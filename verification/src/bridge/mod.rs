//! LoRa <-> MQTT bridge logic.
//!
//! [`BridgeState`] is the state machine: it turns radio responses into MQTT
//! publications and downlink requests into LoRa commands, correlating downlink
//! ids with command sequence ids.
pub mod codec;

use crate::bounded::{Bytes, SmallMap};
use crate::bridge::codec::{
    parse_downlink, tx_result_json, uplink_json, CodecError, Downlink, DownlinkMsg, MAX_JSON,
};
use crate::json;
use crate::wt::{Command, Response, StockCommand, StockResponse};
use vstd::prelude::*;

verus! {

/// Destination topics, resolved to full strings by the MQTT task. The
/// status topic is not listed: the MQTT task publishes it directly at
/// connect time and via the LWT.
#[derive(Debug, Clone, Copy, PartialEq, Eq, Structural)]
pub enum Topic {
    /// Received packets.
    Rx,
    /// Outcomes of downlinks.
    TxResult,
}

/// A publication queued for the MQTT task.
#[derive(PartialEq)]
pub struct MqttOutbound {
    /// Where it goes.
    pub topic: Topic,
    /// What it says.
    pub payload: Bytes<640>,
    /// Whether the broker keeps it.
    pub retain: bool,
}

/// What a [`MqttOutbound`] says.
pub struct OutboundSpec {
    /// Where it goes.
    pub topic: Topic,
    /// What it says.
    pub payload: Seq<u8>,
    /// Whether the broker keeps it.
    pub retain: bool,
}

impl View for MqttOutbound {
    type V = OutboundSpec;

    open spec fn view(&self) -> OutboundSpec {
        OutboundSpec { topic: self.topic, payload: self.payload@, retain: self.retain }
    }
}

impl Clone for MqttOutbound {
    fn clone(&self) -> (r: Self)
        ensures
            r@ == self@,
    {
        MqttOutbound { topic: self.topic, payload: self.payload.clone(), retain: self.retain }
    }
}

/// Most concurrent downlinks awaiting a radio response.
pub const MAX_IN_FLIGHT: usize = 4;

/// What to do with a parsed downlink request.
#[derive(PartialEq)]
pub enum DownlinkOutcome {
    /// Send this command with the given sequence id.
    Send {
        /// Sequence id to send it under.
        sequence_id: u16,
        /// The command.
        command: Command,
    },
    /// Refused before reaching the radio; publish this result instead.
    Reject(MqttOutbound),
}

/// The bridge.
pub struct BridgeState {
    /// Command sequence id -> optional downlink correlation id.
    in_flight: SmallMap<Option<u32>, 4>,
    next_sequence: u16,
    rx_seq: u32,
}

/// The bridge as a mathematical value.
pub struct BridgeSpec {
    /// Command sequence id -> optional downlink correlation id.
    pub in_flight: Map<u16, Option<u32>>,
    /// The sequence id of the next command.
    pub next_sequence: u16,
    /// The sequence number of the next received packet.
    pub rx_seq: u32,
}

impl View for BridgeState {
    type V = BridgeSpec;

    closed spec fn view(&self) -> BridgeSpec {
        BridgeSpec {
            in_flight: self.in_flight@,
            next_sequence: self.next_sequence,
            rx_seq: self.rx_seq,
        }
    }
}

/// A `tx/result` publication.
pub open spec fn result_of(
    result: Seq<char>,
    id: Option<u32>,
    retry_after_secs: Option<u32>,
) -> OutboundSpec {
    OutboundSpec {
        topic: Topic::TxResult,
        payload: json::capped(
            codec::tx_result_object(result, id, retry_after_secs),
            MAX_JSON as int,
        ),
        retain: false,
    }
}

impl BridgeSpec {
    /// Nothing in flight, nothing received.
    pub open spec fn fresh() -> BridgeSpec {
        BridgeSpec { in_flight: Map::empty(), next_sequence: 0, rx_seq: 0 }
    }

    /// Why a downlink request is refused, with the id to echo, if it is.
    pub open spec fn rejection(self, msg: Option<&DownlinkMsg>) -> Option<OutboundSpec> {
        match codec::downlink_error(msg) {
            Some(CodecError::Json) => Some(result_of("bad_json"@, None, None)),
            Some(CodecError::Hex) => Some(result_of("bad_payload"@, None, None)),
            None => if self.in_flight.len() == MAX_IN_FLIGHT {
                Some(result_of("busy"@, msg->Some_0.id, None))
            } else {
                None
            },
        }
    }

    /// The bridge after it sent a downlink with this correlation id.
    pub open spec fn sent(self, id: Option<u32>) -> BridgeSpec {
        BridgeSpec {
            in_flight: self.in_flight.insert(self.next_sequence, id),
            next_sequence: if self.next_sequence == u16::MAX {
                0
            } else {
                (self.next_sequence + 1) as u16
            },
            ..self
        }
    }

    /// The bridge after a downlink was answered or abandoned.
    pub open spec fn settled(self, sequence_id: u16) -> BridgeSpec {
        BridgeSpec { in_flight: self.in_flight.remove(sequence_id), ..self }
    }

    /// The correlation id of a downlink in flight.
    pub open spec fn id_of(self, sequence_id: u16) -> Option<u32> {
        if self.in_flight.contains_key(sequence_id) {
            self.in_flight[sequence_id]
        } else {
            None
        }
    }
}

/// What the radio's answer to a downlink is published as.
pub open spec fn published_answer(id: Option<u32>, response: StockResponse) -> OutboundSpec {
    match response {
        StockResponse::TxComplete => result_of("sent"@, id, None),
        StockResponse::TxRefused(retry_after_secs) => result_of(
            "refused"@,
            id,
            Some(retry_after_secs),
        ),
        _ => result_of("error"@, id, None),
    }
}

fn tx_result(result: &str, id: Option<u32>, retry_after_secs: Option<u32>) -> (r: MqttOutbound)
    ensures
        r@ == result_of(result@, id, retry_after_secs),
{
    MqttOutbound {
        topic: Topic::TxResult,
        payload: tx_result_json(result, id, retry_after_secs),
        retain: false,
    }
}

impl Default for BridgeState {
    fn default() -> (r: Self)
        ensures
            r@ == BridgeSpec::fresh(),
    {
        Self::new()
    }
}

impl BridgeState {
    /// Nothing in flight, nothing received.
    pub fn new() -> (r: Self)
        ensures
            r@ == BridgeSpec::fresh(),
    {
        BridgeState { in_flight: SmallMap::new(), next_sequence: 0, rx_seq: 0 }
    }

    /// A received LoRa packet becomes an `rx` topic publication.
    pub fn on_rx_packet(&mut self, data: &[u8], rssi: i16, snr: i8, uptime_ms: u64) -> (r:
        MqttOutbound)
        ensures
            r@ == (OutboundSpec {
                topic: Topic::Rx,
                payload: codec::uplink_object(data@, rssi, snr, old(self)@.rx_seq, uptime_ms),
                retain: false,
            }),
            final(self)@ == (BridgeSpec {
                rx_seq: if old(self)@.rx_seq == u32::MAX {
                    0
                } else {
                    (old(self)@.rx_seq + 1) as u32
                },
                ..old(self)@
            }),
    {
        let seq: u32 = self.rx_seq;
        self.rx_seq = self.rx_seq.wrapping_add(1);
        MqttOutbound {
            topic: Topic::Rx,
            payload: uplink_json(data, rssi, snr, seq, uptime_ms),
            retain: false,
        }
    }

    /// A downlink request from the `tx` topic becomes a LoRa command, or an
    /// immediate error result. `msg` is the JSON as read, or `None` when it
    /// could not be read.
    pub fn on_downlink(&mut self, msg: Option<&DownlinkMsg>) -> (r: DownlinkOutcome)
        ensures
            match old(self)@.rejection(msg) {
                Some(result) => final(self)@ == old(self)@ && r is Reject && r->Reject_0@
                    == result,
                None => final(self)@ == old(self)@.sent(msg->Some_0.id) && r is Send
                    && r->sequence_id == old(self)@.next_sequence && r->command@
                    == StockCommand::LoraTx(codec::downlink_payload(msg)),
            },
    {
        let downlink: Downlink = match parse_downlink(msg) {
            Ok(downlink) => downlink,
            Err(err) => {
                let reason: &str = match err {
                    CodecError::Json => "bad_json",
                    CodecError::Hex => "bad_payload",
                };
                return DownlinkOutcome::Reject(tx_result(reason, None, None));
            },
        };
        if self.in_flight.len() == MAX_IN_FLIGHT {
            return DownlinkOutcome::Reject(tx_result("busy", downlink.id, None));
        }
        let sequence_id: u16 = self.next_sequence;
        self.next_sequence = self.next_sequence.wrapping_add(1);
        // Capacity checked above, so this insert cannot fail.
        let _ = self.in_flight.insert(sequence_id, downlink.id);
        DownlinkOutcome::Send { sequence_id, command: Command::LoraTx { data: downlink.payload } }
    }

    /// Call when a queued downlink never reached the command channel, so its
    /// correlation entry does not leak.
    pub fn abandon(&mut self, sequence_id: u16, reason: &str) -> (r: MqttOutbound)
        ensures
            r@ == result_of(reason@, old(self)@.id_of(sequence_id), None),
            final(self)@ == old(self)@.settled(sequence_id),
    {
        let id: Option<u32> = match self.in_flight.remove(sequence_id) {
            Some(id) => id,
            None => None,
        };
        tx_result(reason, id, None)
    }

    /// A WiFi-sourced command response becomes a `tx/result` publication.
    pub fn on_command_response(&mut self, sequence_id: u16, response: &Response) -> (r: Option<
        MqttOutbound,
    >)
        ensures
            final(self)@ == old(self)@.settled(sequence_id),
            match r {
                Some(outbound) => old(self)@.in_flight.contains_key(sequence_id) && outbound@
                    == published_answer(old(self)@.id_of(sequence_id), response@),
                None => !old(self)@.in_flight.contains_key(sequence_id),
            },
    {
        let id: Option<u32> = match self.in_flight.remove(sequence_id) {
            Some(id) => id,
            None => {
                return None;
            },
        };
        let outbound: MqttOutbound = match response {
            Response::TxComplete => tx_result("sent", id, None),
            Response::TxRefused { retry_after_secs } => tx_result(
                "refused",
                id,
                Some(*retry_after_secs),
            ),
            _ => tx_result("error", id, None),
        };
        Some(outbound)
    }
}

/// A downlink that was sent is answered under its own id: the entry made when
/// it was sent is the one that its answer finds.
pub proof fn answers_find_their_downlink(state: BridgeSpec, id: Option<u32>)
    ensures
        state.sent(id).in_flight.contains_key(state.next_sequence),
        state.sent(id).id_of(state.next_sequence) == id,
{
}

/// An answer is consumed once: after a downlink was answered or abandoned, a
/// further answer to it finds nothing, and others are still found.
pub proof fn answers_are_consumed_once(state: BridgeSpec, sequence_id: u16, other: u16)
    ensures
        !state.settled(sequence_id).in_flight.contains_key(sequence_id),
        other != sequence_id ==> state.settled(sequence_id).in_flight.contains_key(other)
            == state.in_flight.contains_key(other),
        other != sequence_id ==> state.settled(sequence_id).id_of(other) == state.id_of(other),
        state.settled(sequence_id).settled(sequence_id) == state.settled(sequence_id),
{
    assert(state.in_flight.remove(sequence_id).remove(sequence_id) =~= state.in_flight.remove(
        sequence_id,
    ));
}

/// An answer under an id that the bridge never issued changes nothing.
pub proof fn foreign_answers_are_ignored(state: BridgeSpec, sequence_id: u16)
    requires
        !state.in_flight.contains_key(sequence_id),
    ensures
        state.settled(sequence_id) == state,
{
    assert(state.in_flight.remove(sequence_id) =~= state.in_flight);
}

/// Never more than the cap is in flight: a downlink is sent only below it,
/// and answers and abandoned downlinks free their place.
pub proof fn in_flight_stays_within_the_cap(
    state: BridgeSpec,
    msg: Option<&DownlinkMsg>,
    sequence_id: u16,
)
    requires
        state.in_flight.dom().finite(),
        state.in_flight.len() <= MAX_IN_FLIGHT,
    ensures
        state.rejection(msg) is None ==> state.sent(msg->Some_0.id).in_flight.len()
            <= MAX_IN_FLIGHT,
        state.in_flight.contains_key(sequence_id) ==> state.settled(sequence_id).in_flight.len()
            == state.in_flight.len() - 1,
        state.settled(sequence_id).in_flight.len() <= MAX_IN_FLIGHT,
{
}

/// Sending does not disturb other downlinks in flight.
pub proof fn sending_keeps_others_in_flight(state: BridgeSpec, id: Option<u32>, other: u16)
    requires
        other != state.next_sequence,
    ensures
        state.sent(id).in_flight.contains_key(other) == state.in_flight.contains_key(other),
        state.sent(id).id_of(other) == state.id_of(other),
{
}

/// Results with short outcomes are never cut.
proof fn lemma_results_fit(word: Seq<char>, id: Option<u32>, secs: Option<u32>)
    requires
        json::plain(word),
        word.len() <= 20,
    ensures
        codec::tx_result_object(word, id, secs).len() <= 640,
        result_of(word, id, secs).payload == codec::tx_result_object(word, id, secs),
{
    json::plain_text_is_only_quoted(word);
    assert forall|i: int| 0 <= i < word.len() implies '\0' <= #[trigger] word[i] <= '\u{7f}' by {}
    vstd::utf8::is_ascii_chars_encode_utf8(word);
    reveal_strlit("{\"result\":");
    reveal_strlit(",\"id\":");
    reveal_strlit(",\"retry_after_secs\":");
    reveal_strlit("}");
    vstd::utf8::is_ascii_chars_encode_utf8("{\"result\":"@);
    vstd::utf8::is_ascii_chars_encode_utf8(",\"id\":"@);
    vstd::utf8::is_ascii_chars_encode_utf8(",\"retry_after_secs\":"@);
    vstd::utf8::is_ascii_chars_encode_utf8("}"@);
    if id is Some {
        crate::decimal::lemma_digits_len_u32(id->Some_0);
    }
    if secs is Some {
        crate::decimal::lemma_digits_len_u32(secs->Some_0);
    }
}

/// Whatever the radio answers, the result goes to the `tx/result` topic, is not
/// retained, and carries the id of the downlink that it answers: `sent` for a
/// transmission, `refused` with the seconds to wait for a refusal, and `error`
/// for anything else.
pub proof fn answers_carry_the_id(
    bridge: &mut BridgeState,
    sequence_id: u16,
    response: &Response,
    r: Option<MqttOutbound>,
)
    requires
        call_ensures(BridgeState::on_command_response, (bridge, sequence_id, response), r),
    ensures
        r is Some <==> old(bridge)@.in_flight.contains_key(sequence_id),
        r matches Some(outbound) ==> {
            let id = old(bridge)@.in_flight[sequence_id];
            &&& outbound.topic == Topic::TxResult
            &&& !outbound.retain
            &&& response@ is TxComplete ==> outbound.payload@ == codec::tx_result_object(
                "sent"@,
                id,
                None,
            )
            &&& response@ matches StockResponse::TxRefused(secs) ==> outbound.payload@
                == codec::tx_result_object("refused"@, id, Some(secs))
            &&& !(response@ is TxComplete) && !(response@ is TxRefused) ==> outbound.payload@
                == codec::tx_result_object("error"@, id, None)
        },
        !final(bridge)@.in_flight.contains_key(sequence_id),
        forall|other: u16|
            other != sequence_id ==> (#[trigger] final(bridge)@.in_flight.contains_key(other)
                <==> old(bridge)@.in_flight.contains_key(other)),
        final(bridge)@.next_sequence == old(bridge)@.next_sequence,
        final(bridge)@.rx_seq == old(bridge)@.rx_seq,
{
    reveal_strlit("sent");
    reveal_strlit("refused");
    reveal_strlit("error");
    let id = old(bridge)@.id_of(sequence_id);
    lemma_results_fit("sent"@, id, None);
    lemma_results_fit("error"@, id, None);
    if response@ is TxRefused {
        lemma_results_fit("refused"@, id, Some(response@->TxRefused_0));
    }
}

/// A downlink request that cannot be read or spells no packet is refused as
/// `bad_json` or `bad_payload`, and the fifth at a time as `busy`, with its id.
/// Any other is sent to the radio with its packet under the next sequence id,
/// and stands in flight with its own id. A refused one changes nothing.
pub proof fn requests_are_sent_or_refused(
    bridge: &mut BridgeState,
    msg: Option<&DownlinkMsg>,
    r: DownlinkOutcome,
)
    requires
        call_ensures(BridgeState::on_downlink, (bridge, msg), r),
    ensures
        r is Send <==> msg is Some && codec::is_payload_hex(
            crate::octets::utf8(msg->Some_0.payload_hex@),
        ) && old(bridge)@.in_flight.len() != 4,
        r is Send ==> {
            &&& r->sequence_id == old(bridge)@.next_sequence
            &&& r->command@ == StockCommand::LoraTx(codec::downlink_payload(msg))
            &&& final(bridge)@.next_sequence == (old(bridge)@.next_sequence + 1) % 65_536
            &&& final(bridge)@.in_flight == old(bridge)@.in_flight.insert(
                old(bridge)@.next_sequence,
                msg->Some_0.id,
            )
        },
        r is Reject ==> {
            &&& final(bridge)@ == old(bridge)@
            &&& r->Reject_0.topic == Topic::TxResult
            &&& !r->Reject_0.retain
            &&& msg is None ==> r->Reject_0.payload@ == codec::tx_result_object(
                "bad_json"@,
                None,
                None,
            )
            &&& msg is Some && !codec::is_payload_hex(
                crate::octets::utf8(msg->Some_0.payload_hex@),
            ) ==> r->Reject_0.payload@ == codec::tx_result_object("bad_payload"@, None, None)
            &&& msg is Some && codec::is_payload_hex(
                crate::octets::utf8(msg->Some_0.payload_hex@),
            ) ==> r->Reject_0.payload@ == codec::tx_result_object("busy"@, msg->Some_0.id, None)
        },
        final(bridge)@.rx_seq == old(bridge)@.rx_seq,
{
    reveal_strlit("bad_json");
    reveal_strlit("bad_payload");
    reveal_strlit("busy");
    lemma_results_fit("bad_json"@, None, None);
    lemma_results_fit("bad_payload"@, None, None);
    if msg is Some {
        lemma_results_fit("busy"@, msg->Some_0.id, None);
    }
}

/// A received packet goes to the `rx` topic, is not retained, and has the next
/// number; numbers wrap at 32 bits. Downlinks are not touched.
pub proof fn packets_are_numbered(
    bridge: &mut BridgeState,
    data: &[u8],
    rssi: i16,
    snr: i8,
    uptime_ms: u64,
    r: MqttOutbound,
)
    requires
        call_ensures(BridgeState::on_rx_packet, (bridge, data, rssi, snr, uptime_ms), r),
    ensures
        r.topic == Topic::Rx,
        !r.retain,
        r.payload@ == codec::uplink_object(data@, rssi, snr, old(bridge)@.rx_seq, uptime_ms),
        final(bridge)@.rx_seq == (old(bridge)@.rx_seq + 1) % 4_294_967_296,
        final(bridge)@.in_flight == old(bridge)@.in_flight,
        final(bridge)@.next_sequence == old(bridge)@.next_sequence,
{
}

/// A downlink that is given up is answered with the reason under its own id, and
/// is no longer in flight.
pub proof fn abandoned_downlinks_are_answered(
    bridge: &mut BridgeState,
    sequence_id: u16,
    reason: &str,
    r: MqttOutbound,
)
    requires
        call_ensures(BridgeState::abandon, (bridge, sequence_id, reason), r),
        json::plain(reason@),
        reason@.len() <= 20,
    ensures
        r.topic == Topic::TxResult,
        !r.retain,
        old(bridge)@.in_flight.contains_key(sequence_id) ==> r.payload@ == codec::tx_result_object(
            reason@,
            old(bridge)@.in_flight[sequence_id],
            None,
        ),
        final(bridge)@.in_flight == old(bridge)@.in_flight.remove(sequence_id),
{
    lemma_results_fit(reason@, old(bridge)@.id_of(sequence_id), None);
}

} // verus!
