//! BLE task decisions: the link life cycle and the command session of one
//! connection over the Nordic UART Service.
use crate::bounded::Text;
use crate::config;
use crate::dispatcher::{CommandEnvelope, CommandSource, MessageSpec, ResponseMessage};
use crate::hex;
use crate::octets;
use crate::wire;
use crate::wt::{Command, CommandId, Response, ResponseStatus, StockResponse};
use vstd::prelude::*;

verus! {

/// Device name prefix for BLE advertising.
pub const DEVICE_NAME_PREFIX: &'static str = "WalkieTextie-";

/// Number of maximum concurrent connections.
pub const CONNECTIONS_MAX: usize = 1;

/// Number of L2CAP channels.
pub const L2CAP_CHANNELS_MAX: usize = 3;

/// Largest notification of the Nordic UART Service.
pub const NUS_MAX_PACKET_SIZE: usize = 128;

/// Room for legacy advertising data.
pub const ADV_DATA_MAX: usize = 31;

/// Advertising flags: general discoverable, no classic Bluetooth.
pub const ADV_FLAGS: u8 = 0x06;

/// Shortest advertising interval. Advertising is fast so that a central
/// discovers the radio quickly and a flaky connect has more attempts to land.
pub const ADV_INTERVAL_MIN_MS: u64 = 30;

/// Longest advertising interval.
pub const ADV_INTERVAL_MAX_MS: u64 = 60;

/// Shortest connection interval to ask for.
pub const CONN_INTERVAL_MIN_MS: u64 = 15;

/// Longest connection interval to ask for.
pub const CONN_INTERVAL_MAX_MS: u64 = 30;

/// Interval of the keepalive notification, which keeps an idle link from
/// running into a central's supervision timeout.
pub const KEEPALIVE_MS: u64 = 1500;

/// The advertised name: the prefix and the device id in upper case hex.
pub fn format_device_name(device_id: [u8; 3]) -> (r: Text<32>)
    ensures
        r@ == DEVICE_NAME_PREFIX@ + hex::device_chars(device_id@),
{
    proof {
        reveal_strlit("WalkieTextie-");
        reveal_strlit("");
        vstd::utf8::is_ascii_chars_encode_utf8("WalkieTextie-"@);
        vstd::utf8::is_ascii_chars_encode_utf8(""@);
    }
    let name: Text<32> = hex::device_name(DEVICE_NAME_PREFIX, device_id, "");
    assert(name@ =~= DEVICE_NAME_PREFIX@ + hex::device_chars(device_id@));
    name
}

/// The random static address, derived from the device id.
pub fn random_address(device_id: [u8; 3]) -> (r: [u8; 6])
    ensures
        r@ == device_id@ + seq![0x1Eu8, 0x83, 0xE7],
{
    let address: [u8; 6] = [device_id[0], device_id[1], device_id[2], 0x1E, 0x83, 0xE7];
    assert(address@ =~= device_id@ + seq![0x1Eu8, 0x83, 0xE7]);
    address
}

/// Advertising data with flags and a complete local name: each structure is a
/// length, a type and its data.
pub open spec fn ad_structures(flags: u8, name: Seq<u8>) -> Seq<u8> {
    seq![2u8, 0x01, flags, (name.len() + 1) as u8, 0x09] + name
}

/// `trouble_host::advertise::AdStructure::encode_slice` on a `Flags` and a
/// `CompleteLocalName` structure: they are written one after the other, and it
/// fails exactly when they do not fit the room given.
#[verifier::external_body]
fn encode_ad_structures(flags: u8, name: &[u8], room: usize) -> (r: Option<Vec<u8>>)
    requires
        room <= 255,
    ensures
        match r {
            Some(data) => ad_structures(flags, name@).len() <= room && data@ == ad_structures(
                flags,
                name@,
            ),
            None => ad_structures(flags, name@).len() > room,
        },
{
    let mut dest = vec![0u8; room];
    let structures = [
        trouble_host::advertise::AdStructure::Flags(flags),
        trouble_host::advertise::AdStructure::CompleteLocalName(name),
    ];
    let len = trouble_host::advertise::AdStructure::encode_slice(&structures, &mut dest).ok()?;
    dest.truncate(len);
    Some(dest)
}

/// The advertising data of a device name; `None` when the name is too long
/// for it.
pub fn advertising_data(name: &str) -> (r: Option<Vec<u8>>)
    ensures
        match r {
            Some(data) => data@ == ad_structures(ADV_FLAGS, octets::utf8(name@))
                && octets::utf8(name@).len() <= 26,
            None => octets::utf8(name@).len() > 26,
        },
{
    encode_ad_structures(ADV_FLAGS, name.as_bytes(), ADV_DATA_MAX)
}

/// What the peripheral does next.
#[derive(Debug, Clone, Copy, PartialEq, Eq, Structural)]
pub enum LinkStep {
    /// Start advertising.
    Advertise,
    /// Wait for a central to connect.
    Accept,
    /// Attach the connection to the attribute server.
    Attach,
    /// Ask the central for faster connection parameters.
    UpdateParameters,
    /// Subscribe to the responses.
    Subscribe,
    /// Run the session until the central disconnects.
    Serve,
}

impl LinkStep {
    /// The step that follows one that went well.
    pub open spec fn following(self) -> LinkStep {
        match self {
            LinkStep::Advertise => LinkStep::Accept,
            LinkStep::Accept => LinkStep::Attach,
            LinkStep::Attach => LinkStep::UpdateParameters,
            LinkStep::UpdateParameters => LinkStep::Subscribe,
            LinkStep::Subscribe => LinkStep::Serve,
            LinkStep::Serve => LinkStep::Advertise,
        }
    }

    /// The next step. A failure goes back to advertising, except that of the
    /// connection parameters, which the central may well ignore.
    pub fn next(self, succeeded: bool) -> (r: LinkStep)
        ensures
            r == (if succeeded || self == LinkStep::UpdateParameters {
                self.following()
            } else {
                LinkStep::Advertise
            }),
    {
        if !succeeded && self != LinkStep::UpdateParameters {
            return LinkStep::Advertise;
        }
        match self {
            LinkStep::Advertise => LinkStep::Accept,
            LinkStep::Accept => LinkStep::Attach,
            LinkStep::Attach => LinkStep::UpdateParameters,
            LinkStep::UpdateParameters => LinkStep::Subscribe,
            LinkStep::Subscribe => LinkStep::Serve,
            LinkStep::Serve => LinkStep::Advertise,
        }
    }
}

/// A frame without its COBS encoding.
pub struct DecodedFrame {
    /// The raw frame, never empty.
    pub bytes: Vec<u8>,
    /// The command id, to be echoed back on error; 0 where the frame ends
    /// before it.
    pub command_id: u8,
}

/// The command id of a raw frame: its second byte, behind the protocol
/// version.
pub open spec fn frame_command_id(raw: Seq<u8>) -> u8 {
    if raw.len() > 1 {
        raw[1]
    } else {
        0
    }
}

/// Why a frame cannot be parsed at all, if so.
pub open spec fn frame_error(frame: Seq<u8>) -> Option<StockResponse> {
    match wire::cobs_decoded(frame) {
        None => Some(StockResponse::Error(ResponseStatus::CrcError, 0)),
        Some(raw) => if raw.len() == 0 {
            Some(StockResponse::Error(ResponseStatus::InvalidLength, 0))
        } else {
            None
        },
    }
}

/// Decode a COBS frame (delimiter included) for the command parser.
pub fn decode_frame(frame: &[u8]) -> (r: Result<DecodedFrame, Response>)
    ensures
        match r {
            Ok(decoded) => frame_error(frame@) is None && wire::cobs_decoded(frame@) == Some(
                decoded.bytes@,
            ) && decoded.command_id == frame_command_id(decoded.bytes@),
            Err(response) => frame_error(frame@) == Some(response@),
        },
{
    let bytes: Vec<u8> = match wire::cobs_decode(frame) {
        Some(bytes) => bytes,
        None => {
            return Err(Response::error_raw(ResponseStatus::CrcError, 0x00));
        },
    };
    if bytes.len() == 0 {
        return Err(Response::error_raw(ResponseStatus::InvalidLength, 0x00));
    }
    let command_id: u8 = if bytes.len() > 1 {
        bytes[1]
    } else {
        0
    };
    Ok(DecodedFrame { bytes, command_id })
}

/// What the command parser made of a frame: the command, or the error response
/// that echoes the command id.
pub fn parsed_command(parsed: Result<Command, ResponseStatus>, command_id: u8) -> (r: Result<
    Command,
    Response,
>)
    ensures
        match parsed {
            Ok(command) => r is Ok && r->Ok_0@ == command@,
            Err(status) => r is Err && r->Err_0@ == StockResponse::Error(status, command_id),
        },
{
    match parsed {
        Ok(command) => Ok(command),
        Err(status) => Err(Response::error_raw(status, command_id)),
    }
}

/// What to do with a frame from the central.
pub enum FrameStep {
    /// Queue the command; when the queue is full, notify
    /// [`queue_full`] for its id.
    Queue(CommandEnvelope),
    /// Notify this response.
    Notify(Response),
}

/// The session of one connection.
pub struct BleSession {
    sequence_id: u16,
}

impl View for BleSession {
    type V = u16;

    /// The sequence ID of the last frame.
    closed spec fn view(&self) -> u16 {
        self.sequence_id
    }
}

/// The sequence ID after this one, wrapping.
pub open spec fn next_id(id: u16) -> u16 {
    if id == u16::MAX {
        0
    } else {
        (id + 1) as u16
    }
}

impl Default for BleSession {
    fn default() -> (r: Self)
        ensures
            r@ == 0,
    {
        Self::new()
    }
}

impl BleSession {
    /// A session in which no frame was received.
    pub fn new() -> (r: Self)
        ensures
            r@ == 0,
    {
        BleSession { sequence_id: 0 }
    }

    /// A frame was received: a command goes to the queue under the next
    /// sequence ID, an error is answered at once. Either uses up an ID.
    pub fn on_frame(&mut self, parsed: Result<Command, Response>) -> (r: FrameStep)
        ensures
            final(self)@ == next_id(old(self)@),
            match parsed {
                Ok(command) => r is Queue && r->Queue_0.command@ == command@
                    && r->Queue_0.source == CommandSource::Ble && r->Queue_0.sequence_id
                    == next_id(old(self)@),
                Err(response) => r is Notify && r->Notify_0@ == response@,
            },
    {
        self.sequence_id = self.sequence_id.wrapping_add(1);
        match parsed {
            Ok(command) => FrameStep::Queue(
                CommandEnvelope {
                    command,
                    source: CommandSource::Ble,
                    sequence_id: self.sequence_id,
                },
            ),
            Err(response) => FrameStep::Notify(response),
        }
    }
}

/// The response to a command that found the queue full: the host is told
/// rather than left waiting.
pub fn queue_full(command_id: CommandId) -> (r: Response)
    ensures
        r@ == StockResponse::Error(ResponseStatus::Timeout, command_id.byte()),
{
    Response::error(ResponseStatus::Timeout, command_id)
}

/// What of a message goes to the central: responses to its own commands, and
/// every unsolicited packet.
pub open spec fn notified(message: MessageSpec) -> Option<StockResponse> {
    match message {
        MessageSpec::Command(source, _, response) => if source == CommandSource::Ble {
            Some(response)
        } else {
            None
        },
        MessageSpec::Unsolicited(response) => Some(response),
        MessageSpec::HubRaw(..) => None,
    }
}

/// The response to notify for a message, if it is for the central.
pub fn on_message(message: ResponseMessage) -> (r: Option<Response>)
    ensures
        match r {
            Some(response) => notified(message@) == Some(response@),
            None => notified(message@) is None,
        },
{
    match message {
        ResponseMessage::Command { source, response, .. } => if source == CommandSource::Ble {
            Some(response)
        } else {
            None
        },
        ResponseMessage::Unsolicited(response) => Some(response),
        ResponseMessage::HubRaw { .. } => None,
    }
}

/// The keepalive notification: an unsolicited Version response, which the host
/// treats as routine.
pub fn keepalive() -> (r: Response)
    ensures
        r@ == StockResponse::Version(
            config::VERSION_MAJOR,
            config::VERSION_MINOR,
            config::VERSION_PATCH,
        ),
{
    Response::Version {
        major: config::VERSION_MAJOR,
        minor: config::VERSION_MINOR,
        patch: config::VERSION_PATCH,
    }
}

/// A frame cut into chunks of `size` bytes, the last of them shorter where the
/// frame does not divide.
pub open spec fn chunked(frame: Seq<u8>, size: int) -> Seq<Seq<u8>>
    decreases frame.len(),
{
    if frame.len() == 0 || size <= 0 {
        Seq::empty()
    } else if frame.len() <= size {
        seq![frame]
    } else {
        seq![frame.take(size)] + chunked(frame.skip(size), size)
    }
}

/// Cut a frame into notifications. Each carries exactly the chunk bytes; the
/// receiver reassembles frames on the zero delimiter.
pub fn chunks(frame: &[u8], size: usize) -> (r: Vec<Vec<u8>>)
    requires
        size > 0,
    ensures
        r@.map_values(|chunk: Vec<u8>| chunk@) == chunked(frame@, size as int),
{
    let ghost content = |chunk: Vec<u8>| chunk@;
    let mut out: Vec<Vec<u8>> = Vec::new();
    let mut from: usize = 0;
    assert(frame@.skip(0) =~= frame@);
    assert(out@.map_values(content) + chunked(frame@, size as int) =~= chunked(frame@, size as int));
    while from < frame.len()
        invariant
            size > 0,
            from <= frame@.len(),
            content == (|chunk: Vec<u8>| chunk@),
            out@.map_values(content) + chunked(frame@.skip(from as int), size as int) == chunked(
                frame@,
                size as int,
            ),
        decreases frame@.len() - from,
    {
        let left: usize = frame.len() - from;
        let len: usize = if left < size {
            left
        } else {
            size
        };
        let chunk: Vec<u8> = octets::part(frame, from, from + len);
        let ghost rest = frame@.skip(from as int);
        let ghost before = out@.map_values(content);
        proof {
            if rest.len() <= size {
                assert(chunk@ =~= rest);
                assert(chunked(rest.skip(len as int), size as int) =~= Seq::<Seq<u8>>::empty());
                assert(seq![rest] =~= seq![chunk@] + chunked(rest.skip(len as int), size as int));
            } else {
                assert(chunk@ =~= rest.take(size as int));
            }
            assert(chunked(rest, size as int) =~= seq![chunk@] + chunked(
                rest.skip(len as int),
                size as int,
            ));
            assert(rest.skip(len as int) =~= frame@.skip(from + len));
            assert(out@.push(chunk).map_values(content) =~= before.push(chunk@));
            assert(before.push(chunk@) + chunked(frame@.skip(from + len), size as int) =~= before
                + chunked(rest, size as int));
        }
        out.push(chunk);
        from = from + len;
    }
    proof {
        assert(chunked(frame@.skip(from as int), size as int) =~= Seq::<Seq<u8>>::empty());
        assert(out@.map_values(content) =~= out@.map_values(content) + Seq::<Seq<u8>>::empty());
    }
    out
}

/// Chunks laid end to end.
pub open spec fn joined(chunks: Seq<Seq<u8>>) -> Seq<u8>
    decreases chunks.len(),
{
    if chunks.len() == 0 {
        Seq::empty()
    } else {
        chunks[0] + joined(chunks.skip(1))
    }
}

/// Nothing of a frame is lost or reordered on its way over notifications: the
/// chunks laid end to end are the frame, none is empty, and each fits a
/// notification.
pub proof fn chunks_reassemble(frame: Seq<u8>, size: int)
    requires
        size > 0,
    ensures
        joined(chunked(frame, size)) == frame,
        forall|k: int|
            0 <= k < chunked(frame, size).len() ==> 0 < (#[trigger] chunked(
                frame,
                size,
            )[k]).len() <= size,
    decreases frame.len(),
{
    let all = chunked(frame, size);
    if frame.len() == 0 {
    } else if frame.len() <= size {
        assert(all.skip(1) =~= Seq::<Seq<u8>>::empty());
        assert(joined(all.skip(1)) =~= Seq::<u8>::empty());
        assert(joined(all) =~= frame);
    } else {
        let rest = chunked(frame.skip(size), size);
        chunks_reassemble(frame.skip(size), size);
        assert(all.skip(1) =~= rest);
        assert(joined(all) =~= frame.take(size) + frame.skip(size));
        assert(frame.take(size) + frame.skip(size) =~= frame);
        assert forall|k: int| 0 <= k < all.len() implies 0 < (#[trigger] all[k]).len() <= size by {
            if k > 0 {
                assert(all[k] == rest[k - 1]);
            }
        }
    }
}

/// A response to a command of another interface is never notified, whatever it
/// says.
pub proof fn foreign_responses_stay_private(source: CommandSource, id: u16, response: StockResponse)
    requires
        source != CommandSource::Ble,
    ensures
        notified(MessageSpec::Command(source, id, response)) is None,
{
}

/// The name is `WalkieTextie-` and the three bytes in upper case hex; the address holds
/// those bytes before three fixed ones, the last of which marks it as static.
pub proof fn devices_are_named_after_their_id(
    device_id: [u8; 3],
    name: Text<32>,
    address: [u8; 6],
)
    requires
        call_ensures(format_device_name, (device_id,), name),
        call_ensures(random_address, (device_id,), address),
    ensures
        name@ == "WalkieTextie-"@ + octets::ascii_chars(hex::upper(device_id@)),
        address@[0] == device_id@[0],
        address@[1] == device_id@[1],
        address@[2] == device_id@[2],
        address@[3] == 0x1E,
        address@[4] == 0x83,
        address@[5] == 0xE7,
{
}

/// Advertising says general discoverable without classic Bluetooth, and the complete
/// name, for names of up to 26 bytes.
pub proof fn names_are_advertised(name: &str, r: Option<Vec<u8>>)
    requires
        call_ensures(advertising_data, (name,), r),
    ensures
        r is Some <==> octets::utf8(name@).len() <= 26,
        r matches Some(data) ==> data@.len() <= 31 && data@.take(3) == seq![2u8, 0x01, 0x06]
            && data@[3] == octets::utf8(name@).len() + 1 && data@[4] == 0x09 && data@.skip(5)
            == octets::utf8(name@),
{
}

/// A link that never fails advertises, accepts, attaches, asks for parameters,
/// subscribes, serves and advertises again. A failure leads back to advertising, but
/// parameters that the central refuses do not.
pub proof fn links_run_in_order(
    accept: LinkStep,
    attach: LinkStep,
    update: LinkStep,
    subscribe: LinkStep,
    refused: LinkStep,
    serve: LinkStep,
    again: LinkStep,
    step: LinkStep,
    failed: LinkStep,
)
    requires
        call_ensures(LinkStep::next, (LinkStep::Advertise, true), accept),
        call_ensures(LinkStep::next, (accept, true), attach),
        call_ensures(LinkStep::next, (attach, true), update),
        call_ensures(LinkStep::next, (update, true), subscribe),
        call_ensures(LinkStep::next, (update, false), refused),
        call_ensures(LinkStep::next, (subscribe, true), serve),
        call_ensures(LinkStep::next, (serve, true), again),
        step != LinkStep::UpdateParameters,
        call_ensures(LinkStep::next, (step, false), failed),
    ensures
        accept == LinkStep::Accept,
        attach == LinkStep::Attach,
        update == LinkStep::UpdateParameters,
        subscribe == LinkStep::Subscribe,
        refused == LinkStep::Subscribe,
        serve == LinkStep::Serve,
        again == LinkStep::Advertise,
        failed == LinkStep::Advertise,
{
}

/// A frame that does not decode is answered as a checksum error and an empty one as a
/// matter of length, both for command 0; any other is handed on with its second byte as
/// the command id.
pub proof fn frames_are_decoded_or_answered(frame: &[u8], r: Result<DecodedFrame, Response>)
    requires
        call_ensures(decode_frame, (frame,), r),
    ensures
        match wire::cobs_decoded(frame@) {
            None => r is Err && r->Err_0@ == StockResponse::Error(ResponseStatus::CrcError, 0),
            Some(raw) => if raw.len() == 0 {
                r is Err && r->Err_0@ == StockResponse::Error(ResponseStatus::InvalidLength, 0)
            } else {
                r is Ok && r->Ok_0.bytes@ == raw && (raw.len() > 1 ==> r->Ok_0.command_id == raw[1])
                    && (raw.len() == 1 ==> r->Ok_0.command_id == 0)
            },
        },
{
}

/// A command goes out as the central's own under a fresh sequence ID, unchanged; an
/// error goes back to the central at once. Both use up an ID, and IDs start over behind
/// 65535.
pub proof fn frames_are_numbered(
    session: &mut BleSession,
    parsed: Result<Command, Response>,
    r: FrameStep,
)
    requires
        call_ensures(BleSession::on_frame, (session, parsed), r),
    ensures
        old(session)@ < 65_535 ==> final(session)@ == old(session)@ + 1,
        old(session)@ == 65_535 ==> final(session)@ == 0,
        parsed matches Ok(command) ==> (r matches FrameStep::Queue(envelope)
            && envelope.command@ == command@ && envelope.source == CommandSource::Ble
            && envelope.sequence_id == final(session)@),
        parsed matches Err(response) ==> (r matches FrameStep::Notify(answer) && answer@
            == response@),
{
}

/// A command that the parser refused is answered with the parser's status and the
/// command's id; one that found the queue full with a timeout and its id.
pub proof fn refusals_name_the_command(
    status: ResponseStatus,
    command_id: u8,
    r: Result<Command, Response>,
    id: CommandId,
    full: Response,
)
    requires
        call_ensures(parsed_command, (Err::<Command, ResponseStatus>(status), command_id), r),
        call_ensures(queue_full, (id,), full),
    ensures
        r is Err && r->Err_0@ == StockResponse::Error(status, command_id),
        full@ == StockResponse::Error(ResponseStatus::Timeout, id.byte()),
{
}

/// The central gets the answers to its own commands and every received packet,
/// unchanged, and nothing else.
pub proof fn centrals_get_their_own(message: ResponseMessage, r: Option<Response>)
    requires
        call_ensures(on_message, (message,), r),
    ensures
        message@ matches MessageSpec::Command(CommandSource::Ble, _, response) ==> r is Some
            && r->Some_0@ == response,
        message@ matches MessageSpec::Unsolicited(response) ==> r is Some && r->Some_0@ == response,
        message@ matches MessageSpec::Command(source, _, _) ==> (source != CommandSource::Ble
            ==> r is None),
        message@ is HubRaw ==> r is None,
{
}

/// The keepalive reports version 0.1.0.
pub proof fn keepalives_report_the_version(r: Response)
    requires
        call_ensures(keepalive, (), r),
    ensures
        r@ == StockResponse::Version(0, 1, 0),
{
}

/// Every notification but the last one is full.
pub proof fn notifications_are_full(frame: Seq<u8>, size: int)
    requires
        size > 0,
    ensures
        forall|k: int|
            0 <= k < chunked(frame, size).len() - 1 ==> (#[trigger] chunked(frame, size)[k]).len()
                == size,
    decreases frame.len(),
{
    if frame.len() > size {
        notifications_are_full(frame.skip(size), size);
        let rest = chunked(frame.skip(size), size);
        assert forall|k: int| 0 <= k < chunked(frame, size).len() - 1 implies (#[trigger] chunked(
            frame,
            size,
        )[k]).len() == size by {
            if k > 0 {
                assert(chunked(frame, size)[k] == rest[k - 1]);
            }
        }
    }
}

/// The first frame of a session has sequence ID 1.
pub proof fn sessions_start_at_one(
    r: BleSession,
    session: &mut BleSession,
    command: Command,
    step: FrameStep,
)
    requires
        call_ensures(BleSession::new, (), r),
        call_ensures(BleSession::on_frame, (session, Ok::<Command, Response>(command)), step),
        old(session)@ == r@,
    ensures
        step matches FrameStep::Queue(envelope) && envelope.sequence_id == 1,
{
}

} // verus!
