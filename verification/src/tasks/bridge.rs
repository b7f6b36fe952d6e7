//! Bridge task decisions: what goes between the radio-side channels and the
//! MQTT-side channels, and what is counted on the way.
use crate::bridge::codec;
use crate::bridge::codec::DownlinkMsg;
use crate::bridge::{BridgeSpec, BridgeState, DownlinkOutcome, MqttOutbound, OutboundSpec, Topic};
use crate::dispatcher::{CommandEnvelope, CommandSource, MessageSpec, ResponseMessage};
use crate::hub_protocol::types::StatusSpec;
use crate::net::stats;
use crate::net::stats::HubStats;
use crate::wt::{Response, StockCommand, StockResponse};
use vstd::prelude::*;

verus! {

/// A publication on its way to the queue of the MQTT task.
pub struct Queued {
    /// The publication.
    pub outbound: MqttOutbound,
    /// Whether it is a received packet, which counts as an uplink once the
    /// queue takes it.
    pub uplink: bool,
}

/// What a message is published as, and whether that is an uplink.
pub open spec fn published(
    state: BridgeSpec,
    message: MessageSpec,
    uptime_ms: u64,
) -> Option<(OutboundSpec, bool)> {
    match message {
        MessageSpec::Unsolicited(StockResponse::RxPacket(data, rssi, snr)) => Some(
            (
                OutboundSpec {
                    topic: Topic::Rx,
                    payload: codec::uplink_object(data, rssi, snr, state.rx_seq, uptime_ms),
                    retain: false,
                },
                true,
            ),
        ),
        MessageSpec::Command(CommandSource::WiFi, sequence_id, response) => if state.in_flight.contains_key(
            sequence_id,
        ) {
            Some((crate::bridge::published_answer(state.id_of(sequence_id), response), false))
        } else {
            None
        },
        _ => None,
    }
}

/// The bridge after a message.
pub open spec fn after_message(state: BridgeSpec, message: MessageSpec) -> BridgeSpec {
    match message {
        MessageSpec::Unsolicited(StockResponse::RxPacket(..)) => BridgeSpec {
            rx_seq: if state.rx_seq == u32::MAX {
                0
            } else {
                (state.rx_seq + 1) as u32
            },
            ..state
        },
        MessageSpec::Command(CommandSource::WiFi, sequence_id, _) => state.settled(sequence_id),
        _ => state,
    }
}

/// Whether a message reports that a downlink of the bridge was transmitted.
pub open spec fn reports_transmission(state: BridgeSpec, message: MessageSpec) -> bool {
    message matches MessageSpec::Command(CommandSource::WiFi, sequence_id, response)
        && state.in_flight.contains_key(sequence_id) && response == StockResponse::TxComplete
}

/// The response subscriber fell behind and messages were lost.
pub fn on_lagged(stats: &mut HubStats, lost: u64)
    ensures
        final(stats)@ == (StatusSpec {
            dropped_count: stats::counted(
                old(stats)@.dropped_count,
                (lost % 0x1_0000_0000) as u32,
            ),
            ..old(stats)@
        }),
{
    stats.count_dropped((lost % 0x1_0000_0000) as u32);
}

/// A message from the radio side: what to queue for the MQTT task, if anything.
/// Received packets go out, and so do answers to the bridge's own commands;
/// everything else is for others. A transmitted downlink is counted.
pub fn on_message(
    state: &mut BridgeState,
    stats: &mut HubStats,
    message: &ResponseMessage,
    uptime_ms: u64,
) -> (r: Option<Queued>)
    ensures
        match r {
            Some(queued) => published(old(state)@, message@, uptime_ms) == Some(
                (queued.outbound@, queued.uplink),
            ),
            None => published(old(state)@, message@, uptime_ms) is None,
        },
        final(state)@ == after_message(old(state)@, message@),
        final(stats)@ == (if reports_transmission(old(state)@, message@) {
            StatusSpec {
                downlink_count: stats::counted(old(stats)@.downlink_count, 1),
                ..old(stats)@
            }
        } else {
            old(stats)@
        }),
{
    match message {
        ResponseMessage::Unsolicited(Response::RxPacket { data, rssi, snr }) => {
            let outbound: MqttOutbound = state.on_rx_packet(
                data.as_slice(),
                *rssi,
                *snr,
                uptime_ms,
            );
            Some(Queued { outbound, uplink: true })
        },
        ResponseMessage::Command { source: CommandSource::WiFi, sequence_id, response } => {
            let sent: bool = match response {
                Response::TxComplete => true,
                _ => false,
            };
            match state.on_command_response(*sequence_id, response) {
                Some(outbound) => {
                    if sent {
                        stats.count_downlink();
                    }
                    Some(Queued { outbound, uplink: false })
                },
                None => None,
            }
        },
        _ => None,
    }
}

/// The queue of the MQTT task took a publication or was full: a full queue
/// drops it, and an uplink that was taken is counted.
pub fn on_enqueued(stats: &mut HubStats, accepted: bool, uplink: bool)
    ensures
        final(stats)@ == (if !accepted {
            StatusSpec {
                dropped_count: stats::counted(old(stats)@.dropped_count, 1),
                ..old(stats)@
            }
        } else if uplink {
            StatusSpec {
                uplink_count: stats::counted(old(stats)@.uplink_count, 1),
                ..old(stats)@
            }
        } else {
            old(stats)@
        }),
{
    if !accepted {
        stats.count_dropped(1);
    } else if uplink {
        stats.count_uplink();
    }
}

/// What to do with a downlink request.
pub enum RequestStep {
    /// Queue this command; when the queue is full, publish what
    /// [`on_queue_full`] gives for its sequence ID.
    Command(CommandEnvelope),
    /// Publish this result.
    Publish(MqttOutbound),
}

/// A downlink request came from the broker; `msg` is its JSON as read, or `None`
/// when it could not be read.
pub fn on_request(state: &mut BridgeState, msg: Option<&DownlinkMsg>) -> (r: RequestStep)
    ensures
        match old(state)@.rejection(msg) {
            Some(result) => final(state)@ == old(state)@ && r is Publish && r->Publish_0@
                == result,
            None => final(state)@ == old(state)@.sent(msg->Some_0.id) && r is Command
                && r->Command_0.source == CommandSource::WiFi && r->Command_0.sequence_id
                == old(state)@.next_sequence && r->Command_0.command@ == StockCommand::LoraTx(
                codec::downlink_payload(msg),
            ),
        },
{
    match state.on_downlink(msg) {
        DownlinkOutcome::Send { sequence_id, command } => RequestStep::Command(
            CommandEnvelope { command, source: CommandSource::WiFi, sequence_id },
        ),
        DownlinkOutcome::Reject(outbound) => RequestStep::Publish(outbound),
    }
}

/// The command queue was full: the result to publish for the downlink, which is
/// no longer in flight.
pub fn on_queue_full(state: &mut BridgeState, sequence_id: u16) -> (r: MqttOutbound)
    ensures
        r@ == crate::bridge::result_of("queue_full"@, old(state)@.id_of(sequence_id), None),
        final(state)@ == old(state)@.settled(sequence_id),
{
    state.abandon(sequence_id, "queue_full")
}

/// Every downlink request is answered once. One that is sent is answered by the
/// radio under its own id and then forgotten.
pub proof fn sent_downlinks_are_answered(
    state: BridgeSpec,
    id: Option<u32>,
    response: StockResponse,
    uptime_ms: u64,
)
    ensures
        ({
            let answer = MessageSpec::Command(CommandSource::WiFi, state.next_sequence, response);
            &&& published(state.sent(id), answer, uptime_ms) == Some(
                (crate::bridge::published_answer(id, response), false),
            )
            &&& published(
                after_message(state.sent(id), answer),
                answer,
                uptime_ms,
            ) is None
        }),
{
}

/// Responses to commands of other interfaces are neither published nor counted.
pub proof fn foreign_responses_are_not_published(
    state: BridgeSpec,
    source: CommandSource,
    sequence_id: u16,
    response: StockResponse,
    uptime_ms: u64,
)
    requires
        source != CommandSource::WiFi,
    ensures
        published(state, MessageSpec::Command(source, sequence_id, response), uptime_ms) is None,
        after_message(state, MessageSpec::Command(source, sequence_id, response)) == state,
        !reports_transmission(state, MessageSpec::Command(source, sequence_id, response)),
{
}

/// A received packet is published on the packets' topic, not retained, with its data,
/// signal and number; it is an uplink, the next packet gets the next number, and
/// nothing is counted until the queue takes it.
pub proof fn packets_are_published(
    state: &mut BridgeState,
    stats: &mut HubStats,
    data: crate::bounded::Bytes<256>,
    rssi: i16,
    snr: i8,
    uptime_ms: u64,
    r: Option<Queued>,
)
    requires
        call_ensures(
            on_message,
            (
                state,
                stats,
                &ResponseMessage::Unsolicited(Response::RxPacket { data, rssi, snr }),
                uptime_ms,
            ),
            r,
        ),
        old(state)@.rx_seq < 4_294_967_295,
    ensures
        r matches Some(queued) && queued.uplink && queued.outbound.topic == Topic::Rx
            && !queued.outbound.retain && queued.outbound.payload@ == codec::uplink_object(
            data@,
            rssi,
            snr,
            old(state)@.rx_seq,
            uptime_ms,
        ),
        final(state)@.rx_seq == old(state)@.rx_seq + 1,
        final(state)@.in_flight == old(state)@.in_flight,
        final(stats)@ == old(stats)@,
{
}

/// An answer to a downlink of the bridge is published under the id of that downlink,
/// once; it counts as a downlink exactly when the packet was transmitted. An answer
/// that nothing waits for is neither published nor counted.
pub proof fn answers_are_published(
    state: &mut BridgeState,
    stats: &mut HubStats,
    sequence_id: u16,
    response: Response,
    uptime_ms: u64,
    r: Option<Queued>,
)
    requires
        call_ensures(
            on_message,
            (
                state,
                stats,
                &ResponseMessage::Command { source: CommandSource::WiFi, sequence_id, response },
                uptime_ms,
            ),
            r,
        ),
        old(stats)@.downlink_count < 4_294_967_295,
    ensures
        r is Some <==> old(state)@.in_flight.contains_key(sequence_id),
        r matches Some(queued) ==> !queued.uplink && queued.outbound@
            == crate::bridge::published_answer(old(state)@.in_flight[sequence_id], response@),
        final(stats)@.downlink_count == old(stats)@.downlink_count + (if r is Some && response@
            == StockResponse::TxComplete {
            1int
        } else {
            0int
        }),
        final(stats)@.uplink_count == old(stats)@.uplink_count,
        final(stats)@.dropped_count == old(stats)@.dropped_count,
        !final(state)@.in_flight.contains_key(sequence_id),
        final(state)@.rx_seq == old(state)@.rx_seq,
{
}

/// Other unsolicited responses, answers to other interfaces and hub frames pass the
/// bridge by.
pub proof fn other_messages_pass_by(
    state: &mut BridgeState,
    stats: &mut HubStats,
    message: &ResponseMessage,
    uptime_ms: u64,
    r: Option<Queued>,
)
    requires
        call_ensures(on_message, (state, stats, message, uptime_ms), r),
        message@ is HubRaw || (message@ is Unsolicited && !(message@->Unsolicited_0 is RxPacket))
            || (message@ is Command && message@->Command_0 != CommandSource::WiFi),
    ensures
        r is None,
        final(state)@ == old(state)@,
        final(stats)@ == old(stats)@,
{
}

/// A publication that the queue does not take is a drop; one that it takes is an uplink
/// if it is a received packet. Messages that were lost are drops.
pub proof fn the_queue_is_counted(
    stats: &mut HubStats,
    accepted: bool,
    uplink: bool,
    lagged: &mut HubStats,
    lost: u64,
)
    requires
        call_ensures(on_enqueued, (stats, accepted, uplink), ()),
        call_ensures(on_lagged, (lagged, lost), ()),
        old(stats)@.dropped_count < 4_294_967_295,
        old(stats)@.uplink_count < 4_294_967_295,
        old(lagged)@.dropped_count + lost <= 4_294_967_295,
    ensures
        final(stats)@.dropped_count == old(stats)@.dropped_count + (if accepted {
            0int
        } else {
            1int
        }),
        final(stats)@.uplink_count == old(stats)@.uplink_count + (if accepted && uplink {
            1int
        } else {
            0int
        }),
        final(stats)@.downlink_count == old(stats)@.downlink_count,
        final(lagged)@.dropped_count == old(lagged)@.dropped_count + lost,
        final(lagged)@.uplink_count == old(lagged)@.uplink_count,
        final(lagged)@.downlink_count == old(lagged)@.downlink_count,
{
}

/// A request that is accepted becomes a LoraTx command of the bridge under the next
/// sequence ID, which then waits with the id of the request.
pub proof fn requests_become_commands(
    state: &mut BridgeState,
    msg: Option<&DownlinkMsg>,
    r: RequestStep,
)
    requires
        call_ensures(on_request, (state, msg), r),
    ensures
        r matches RequestStep::Command(envelope) ==> {
            &&& msg is Some
            &&& envelope.source == CommandSource::WiFi
            &&& envelope.sequence_id == old(state)@.next_sequence
            &&& envelope.command@ == StockCommand::LoraTx(codec::downlink_payload(msg))
            &&& final(state)@.in_flight.contains_key(envelope.sequence_id)
            &&& final(state)@.in_flight[envelope.sequence_id] == msg->Some_0.id
            &&& final(state)@.next_sequence == (if old(state)@.next_sequence == 65_535 {
                0int
            } else {
                old(state)@.next_sequence + 1
            })
        },
        r is Publish ==> final(state)@ == old(state)@ && r->Publish_0.topic == Topic::TxResult
            && !r->Publish_0.retain,
{
}

/// A downlink that found the command queue full is answered under its own id and no
/// longer waits.
pub proof fn a_full_queue_is_answered(state: &mut BridgeState, sequence_id: u16, r: MqttOutbound)
    requires
        call_ensures(on_queue_full, (state, sequence_id), r),
        old(state)@.in_flight.contains_key(sequence_id),
    ensures
        r@ == crate::bridge::result_of("queue_full"@, old(state)@.in_flight[sequence_id], None),
        !final(state)@.in_flight.contains_key(sequence_id),
{
}

} // verus!
