//! Semtech UDP packet-forwarder protocol (version 2).
//!
//! Datagram layout: `[version:0x02][token:u16][identifier]` followed by the
//! gateway EUI (upstream packets) and/or a JSON object. Uplinks travel as
//! `rxpk` JSON in PUSH_DATA; downlinks arrive as `txpk` JSON in PULL_RESP.
use crate::bounded::Bytes;
use crate::decimal;
use crate::octets;
use crate::wire::MAX_LORA_PAYLOAD;
use base64::Engine;
use vstd::prelude::*;

verus! {

/// Protocol version, the first byte of every datagram.
pub const PROTOCOL_VERSION: u8 = 2;

/// Identifier: data from the gateway.
pub const PUSH_DATA: u8 = 0x00;

/// Identifier: acknowledges a PUSH_DATA.
pub const PUSH_ACK: u8 = 0x01;

/// Identifier: keepalive from the gateway.
pub const PULL_DATA: u8 = 0x02;

/// Identifier: a downlink from the server.
pub const PULL_RESP: u8 = 0x03;

/// Identifier: acknowledges a PULL_DATA.
pub const PULL_ACK: u8 = 0x04;

/// Identifier: answers a PULL_RESP.
pub const TX_ACK: u8 = 0x05;

/// Buffer size for a PUSH_DATA with one max-size rxpk.
pub const PUSH_BUF: usize = 600;

/// Buffer size for a TX_ACK.
pub const ACK_BUF: usize = 64;

/// Length of an upstream header with the gateway EUI.
pub const HEADER_LEN: usize = 12;

/// Room for the base64 form of a payload.
pub const BASE64_ROOM: usize = 352;

/// Metadata for one received uplink.
#[derive(Debug, Clone, Copy, PartialEq, Eq, Structural)]
pub struct RxMeta {
    /// Microsecond counter at RX completion (wraps every ~71.6 minutes).
    pub tmst: u32,
    /// Uplink frequency.
    pub freq_hz: u32,
    /// Uplink spreading factor.
    pub spreading_factor: u8,
    /// Uplink bandwidth.
    pub bandwidth_khz: u32,
    /// Coding rate denominator.
    pub coding_rate: u8,
    /// Received signal strength in dBm.
    pub rssi: i16,
    /// Signal to noise ratio in dB.
    pub snr: i8,
}

/// Counters for the periodic `stat` message.
#[derive(Debug, Clone, Copy, PartialEq, Eq, Structural)]
pub struct StatCounters {
    /// Radio packets received (CRC OK - the driver drops CRC failures).
    pub rxnb: u32,
    /// Packets received with a valid CRC.
    pub rxok: u32,
    /// Packets forwarded upstream.
    pub rxfw: u32,
    /// PUSH_DATA datagrams acknowledged, for the ack ratio.
    pub push_acked: u32,
    /// PUSH_DATA datagrams sent.
    pub push_sent: u32,
    /// Downlink datagrams received (PULL_RESP).
    pub dwnb: u32,
    /// Downlinks actually emitted by the radio.
    pub txnb: u32,
}

impl StatCounters {
    /// Nothing counted yet.
    pub open spec fn zero() -> StatCounters {
        StatCounters {
            rxnb: 0,
            rxok: 0,
            rxfw: 0,
            push_acked: 0,
            push_sent: 0,
            dwnb: 0,
            txnb: 0,
        }
    }
}

impl Default for StatCounters {
    fn default() -> (r: Self)
        ensures
            r == StatCounters::zero(),
    {
        StatCounters {
            rxnb: 0,
            rxok: 0,
            rxfw: 0,
            push_acked: 0,
            push_sent: 0,
            dwnb: 0,
            txnb: 0,
        }
    }
}

/// TX_ACK error values ChirpStack's gw.TxAckStatus enum recognises. There is
/// no TX_POWER variant here on purpose: over-limit power requests are
/// clamped, not refused (refusing would kill every 27 dBm RX2 request).
#[derive(Debug, Clone, Copy, PartialEq, Eq, Structural)]
pub enum TxAckError {
    /// The downlink is queued.
    NoError,
    /// Its window has passed.
    TooLate,
    /// Its window is too far out.
    TooEarly,
    /// The queue is full.
    CollisionPacket,
    /// The frequency is outside the band.
    TxFreq,
    /// The duty cycle budget is spent.
    DutyCycleOverflow,
}

impl TxAckError {
    /// The name of the error in a TX_ACK.
    pub open spec fn name(self) -> Seq<char> {
        match self {
            TxAckError::NoError => "NONE"@,
            TxAckError::TooLate => "TOO_LATE"@,
            TxAckError::TooEarly => "TOO_EARLY"@,
            TxAckError::CollisionPacket => "COLLISION_PACKET"@,
            TxAckError::TxFreq => "TX_FREQ"@,
            TxAckError::DutyCycleOverflow => "DUTY_CYCLE_OVERFLOW"@,
        }
    }

    /// The name of the error in a TX_ACK.
    pub fn as_str(self) -> (r: &'static str)
        ensures
            r@ == self.name(),
    {
        match self {
            TxAckError::NoError => "NONE",
            TxAckError::TooLate => "TOO_LATE",
            TxAckError::TooEarly => "TOO_EARLY",
            TxAckError::CollisionPacket => "COLLISION_PACKET",
            TxAckError::TxFreq => "TX_FREQ",
            TxAckError::DutyCycleOverflow => "DUTY_CYCLE_OVERFLOW",
        }
    }
}

/// Why a datagram from the server could not be used.
#[derive(Debug, Clone, Copy, PartialEq, Eq, Structural)]
pub enum ProtoError {
    /// Datagram too short, wrong version or unknown identifier.
    Malformed,
    /// The txpk JSON is missing fields or has values we cannot use.
    BadTxpk,
}

/// A downstream datagram from the network server.
#[derive(Debug, PartialEq, Eq)]
pub enum Downstream<'a> {
    /// A PUSH_DATA was received.
    PushAck {
        /// Token of the PUSH_DATA.
        token: u16,
    },
    /// A PULL_DATA was received.
    PullAck {
        /// Token of the PULL_DATA.
        token: u16,
    },
    /// The raw JSON payload of a PULL_RESP.
    PullResp {
        /// Token, echoed in the TX_ACK.
        token: u16,
        /// The JSON payload.
        json: &'a [u8],
    },
}

/// The token of a datagram.
pub open spec fn token_of(data: Seq<u8>) -> u16 {
    octets::from_le16(data[2], data[1])
}

/// Whether a datagram has a header of this protocol version.
pub open spec fn has_header(data: Seq<u8>) -> bool {
    data.len() >= 4 && data[0] == PROTOCOL_VERSION
}

/// Parse a downstream datagram from the server.
pub fn parse_datagram(data: &[u8]) -> (r: Result<Downstream<'_>, ProtoError>)
    ensures
        match r {
            Ok(Downstream::PushAck { token }) => has_header(data@) && data@[3] == PUSH_ACK && token
                == token_of(data@),
            Ok(Downstream::PullAck { token }) => has_header(data@) && data@[3] == PULL_ACK && token
                == token_of(data@),
            Ok(Downstream::PullResp { token, json }) => has_header(data@) && data@[3] == PULL_RESP
                && token == token_of(data@) && json@ == data@.skip(4),
            Err(e) => e == ProtoError::Malformed && !(has_header(data@) && (data@[3] == PUSH_ACK
                || data@[3] == PULL_ACK || data@[3] == PULL_RESP)),
        },
{
    if data.len() < 4 || data[0] != PROTOCOL_VERSION {
        return Err(ProtoError::Malformed);
    }
    let token: u16 = octets::join_be16(data[1], data[2]);
    let id: u8 = data[3];
    if id == PUSH_ACK {
        Ok(Downstream::PushAck { token })
    } else if id == PULL_ACK {
        Ok(Downstream::PullAck { token })
    } else if id == PULL_RESP {
        let json: &[u8] = &data[4..data.len()];
        assert(json@ =~= data@.skip(4));
        Ok(Downstream::PullResp { token, json })
    } else {
        Err(ProtoError::Malformed)
    }
}

/// The base64 form of a byte string: standard alphabet, padded.
pub uninterp spec fn base64_encoded(data: Seq<u8>) -> Seq<u8>;

/// The byte string behind a base64 text, if it is well-formed (standard
/// alphabet, canonical padding) and fits a room of so many bytes.
pub uninterp spec fn base64_decoded(text: Seq<u8>, room: usize) -> Option<Seq<u8>>;

/// The length of the base64 form of `n` bytes.
pub open spec fn base64_len(n: int) -> int {
    (n + 2) / 3 * 4
}

/// `base64::Engine::encode_slice` of the engine `STANDARD` into a buffer of
/// `room` bytes: the encoded form if it fits, and the error
/// `OutputSliceTooSmall` as `None` otherwise. It has four characters for each
/// begun group of three bytes, and `base64::Engine::decode_slice` gives the data
/// back in any room that holds it.
#[verifier::external_body]
fn base64_encode(data: &[u8], room: usize) -> (r: Option<Vec<u8>>)
    requires
        base64_len(data@.len() as int) <= usize::MAX,
        room <= isize::MAX,
    ensures
        match r {
            Some(text) => text@ == base64_encoded(data@) && text@.len() == base64_len(
                data@.len() as int,
            ) && text@.len() <= room && forall|space: usize|
                data@.len() <= space ==> #[trigger] base64_decoded(text@, space) == Some(data@),
            None => base64_len(data@.len() as int) > room,
        },
{
    let mut text = vec![0u8; room];
    let len = base64::engine::general_purpose::STANDARD.encode_slice(data, &mut text).ok()?;
    text.truncate(len);
    Some(text)
}

/// `base64::Engine::decode_slice` of the engine `STANDARD` into a buffer of
/// `room` bytes: the decoded bytes, or any of its errors as `None`.
#[verifier::external_body]
fn base64_decode(text: &[u8], room: usize) -> (r: Option<Vec<u8>>)
    requires
        room <= isize::MAX,
    ensures
        match r {
            Some(data) => base64_decoded(text@, room) == Some(data@) && data@.len() <= room,
            None => base64_decoded(text@, room) is None,
        },
{
    let mut data = vec![0u8; room];
    let len = base64::engine::general_purpose::STANDARD.decode_slice(text, &mut data).ok()?;
    data.truncate(len);
    Some(data)
}

/// An upstream header: version, token, identifier, gateway EUI.
pub open spec fn header(token: u16, id: u8, eui: Seq<u8>) -> Seq<u8> {
    seq![PROTOCOL_VERSION] + octets::be16(token) + seq![id] + eui
}

/// A datagram as it is written: the header, and the pieces of its JSON in
/// order. Where room runs out, a piece is written as a whole or not at all.
pub struct Datagram {
    /// The header.
    pub head: Seq<u8>,
    /// The pieces of the JSON.
    pub pieces: Seq<Seq<u8>>,
}

/// The bytes of some pieces.
pub open spec fn joined(pieces: Seq<Seq<u8>>) -> Seq<u8>
    decreases pieces.len(),
{
    if pieces.len() == 0 {
        Seq::empty()
    } else {
        joined(pieces.drop_last()) + pieces.last()
    }
}

/// The bytes of as many whole pieces, from the first one on, as there is room
/// for.
pub open spec fn whole_pieces(pieces: Seq<Seq<u8>>, room: int) -> Seq<u8>
    decreases pieces.len(),
{
    if pieces.len() == 0 || joined(pieces).len() <= room {
        joined(pieces)
    } else {
        whole_pieces(pieces.drop_last(), room)
    }
}

impl Datagram {
    /// All bytes of the datagram.
    pub open spec fn bytes(self) -> Seq<u8> {
        self.head + joined(self.pieces)
    }

    /// What of the datagram a buffer of `room` bytes takes: the header, cut
    /// where the room ends, and the pieces that fit behind it.
    pub open spec fn within(self, room: int) -> Seq<u8> {
        if room < self.head.len() {
            self.head.take(room)
        } else {
            self.head + whole_pieces(self.pieces, room - self.head.len())
        }
    }
}

/// What building a datagram in a buffer comes to: what the buffer takes of it
/// stands at the front, and the rest of the buffer is left as it was.
pub open spec fn built(datagram: Datagram, before: Seq<u8>, after: Seq<u8>, len: int) -> bool {
    let bytes = datagram.within(before.len() as int);
    len == bytes.len() && after == bytes + before.skip(len)
}

/// Pieces in a row have their bytes in a row.
pub broadcast proof fn joined_concat(a: Seq<Seq<u8>>, b: Seq<Seq<u8>>)
    ensures
        #[trigger] joined(a + b) == joined(a) + joined(b),
    decreases b.len(),
{
    if b.len() == 0 {
        assert(a + b =~= a);
    } else {
        joined_concat(a, b.drop_last());
        assert((a + b).drop_last() =~= a + b.drop_last());
        assert(joined(a + b) =~= joined(a) + joined(b));
    }
}

/// One piece is its bytes.
pub broadcast proof fn joined_single(piece: Seq<u8>)
    ensures
        #[trigger] joined(seq![piece]) == piece,
{
    reveal_with_fuel(joined, 2);
    assert(seq![piece].drop_last() =~= Seq::<Seq<u8>>::empty());
    assert(joined(seq![piece]) =~= piece);
}

/// A datagram that fits is taken as a whole.
pub proof fn datagrams_that_fit_are_whole(datagram: Datagram, room: int)
    requires
        datagram.bytes().len() <= room,
    ensures
        datagram.within(room) == datagram.bytes(),
{
}

/// A text is one piece.
pub open spec fn text_piece(text: Seq<char>) -> Seq<Seq<u8>> {
    seq![octets::utf8(text)]
}

/// A number without a sign is one piece.
pub open spec fn number_piece(n: nat) -> Seq<Seq<u8>> {
    seq![decimal::digits(n)]
}

/// The minus sign of a number is a piece of its own.
pub open spec fn signed_pieces(n: int) -> Seq<Seq<u8>> {
    if n < 0 {
        seq![seq![45u8]] + number_piece((-n) as nat)
    } else {
        number_piece(n as nat)
    }
}

/// So many zeros, each a piece of its own.
pub open spec fn zero_pieces(count: int) -> Seq<Seq<u8>>
    decreases count,
{
    if count <= 0 {
        Seq::empty()
    } else {
        zero_pieces(count - 1) + seq![seq![decimal::ZERO]]
    }
}

/// A number padded with zeros to six digits.
pub open spec fn padded_pieces(n: nat) -> Seq<Seq<u8>> {
    zero_pieces(6 - decimal::digits(n).len()) + number_piece(n)
}

/// The `data` text of an rxpk: the base64 form of the payload, and nothing
/// where that exceeds its room.
pub open spec fn rxpk_data(payload: Seq<u8>) -> Seq<u8> {
    if base64_len(payload.len() as int) <= BASE64_ROOM {
        base64_encoded(payload)
    } else {
        Seq::empty()
    }
}

/// A PUSH_DATA with the `rxpk` JSON of one received packet of `size` bytes,
/// whose `data` text is given.
pub open spec fn encoded_rxpk_datagram(
    token: u16,
    eui: Seq<u8>,
    meta: RxMeta,
    size: nat,
    data: Seq<u8>,
) -> Datagram {
    Datagram {
        head: header(token, PUSH_DATA, eui),
        pieces: text_piece("{\"rxpk\":[{\"tmst\":"@) + number_piece(meta.tmst as nat) + text_piece(
            ",\"chan\":0,\"rfch\":0,\"freq\":"@,
        ) + number_piece((meta.freq_hz / 1_000_000) as nat) + text_piece("."@) + padded_pieces(
            (meta.freq_hz % 1_000_000) as nat,
        ) + text_piece(",\"stat\":1,\"modu\":\"LORA\",\"datr\":\"SF"@) + number_piece(
            meta.spreading_factor as nat,
        ) + text_piece("BW"@) + number_piece(meta.bandwidth_khz as nat) + text_piece(
            "\",\"codr\":\"4/"@,
        ) + number_piece(meta.coding_rate as nat) + text_piece("\",\"rssi\":"@) + signed_pieces(
            meta.rssi as int,
        ) + text_piece(",\"lsnr\":"@) + signed_pieces(meta.snr as int) + text_piece(",\"size\":"@)
            + number_piece(size) + text_piece(",\"data\":\""@) + seq![data] + text_piece("\"}]}"@),
    }
}

/// A PUSH_DATA with the `rxpk` JSON of one received packet.
pub open spec fn rxpk_datagram(
    token: u16,
    eui: Seq<u8>,
    meta: RxMeta,
    payload: Seq<u8>,
) -> Datagram {
    encoded_rxpk_datagram(token, eui, meta, payload.len(), rxpk_data(payload))
}

/// Acknowledged PUSH_DATA per sent one, in tenths of a percent (the low 32
/// bits of it); 100% before the first was sent.
pub open spec fn ack_ratio_tenths(stats: StatCounters) -> int {
    if stats.push_sent == 0 {
        1000
    } else {
        (stats.push_acked * 1000 / stats.push_sent as int) % 0x1_0000_0000
    }
}

/// A PUSH_DATA with the `stat` JSON.
pub open spec fn stat_datagram(token: u16, eui: Seq<u8>, stats: StatCounters) -> Datagram {
    Datagram {
        head: header(token, PUSH_DATA, eui),
        pieces: text_piece("{\"stat\":{\"rxnb\":"@) + number_piece(stats.rxnb as nat) + text_piece(
            ",\"rxok\":"@,
        ) + number_piece(stats.rxok as nat) + text_piece(",\"rxfw\":"@) + number_piece(
            stats.rxfw as nat,
        ) + text_piece(",\"ackr\":"@) + number_piece((ack_ratio_tenths(stats) / 10) as nat)
            + text_piece("."@) + number_piece((ack_ratio_tenths(stats) % 10) as nat) + text_piece(
            ",\"dwnb\":"@,
        ) + number_piece(stats.dwnb as nat) + text_piece(",\"txnb\":"@) + number_piece(
            stats.txnb as nat,
        ) + text_piece("}}"@),
    }
}

/// A PULL_DATA, which is its header alone.
pub open spec fn pull_datagram(token: u16, eui: Seq<u8>) -> Datagram {
    Datagram { head: header(token, PULL_DATA, eui), pieces: Seq::empty() }
}

/// A TX_ACK with the `txpk_ack` JSON.
pub open spec fn ack_datagram(token: u16, eui: Seq<u8>, error: TxAckError) -> Datagram {
    Datagram {
        head: header(token, TX_ACK, eui),
        pieces: text_piece("{\"txpk_ack\":{\"error\":\""@) + text_piece(error.name()) + text_piece(
            "\"}}"@,
        ),
    }
}

/// Writer that collects a datagram piece by piece up to the room there is.
/// After a piece that does not fit nothing more is written.
struct SliceWriter {
    bytes: Vec<u8>,
    room: usize,
    open: bool,
    datagram: Ghost<Datagram>,
}

impl SliceWriter {
    spec fn valid(self) -> bool {
        let d = self.datagram@;
        &&& d.head.len() == HEADER_LEN
        &&& self.bytes@ == d.within(self.room as int)
        &&& self.open <==> self.room >= d.head.len() && joined(d.pieces).len() <= self.room
            - d.head.len()
    }

    /// The writer's datagram has grown by some pieces.
    spec fn adds(self, before: SliceWriter, pieces: Seq<Seq<u8>>) -> bool {
        &&& self.valid()
        &&& self.room == before.room
        &&& self.datagram@ == (Datagram {
            pieces: before.datagram@.pieces + pieces,
            ..before.datagram@
        })
    }

    /// Begins with the header, cut where the room ends.
    fn new(room: usize, token: u16, id: u8, eui: &[u8; 8]) -> (r: Self)
        ensures
            r.valid(),
            r.datagram@ == (Datagram { head: header(token, id, eui@), pieces: Seq::empty() }),
            r.room == room,
    {
        let mut head: Vec<u8> = Vec::new();
        head.push(PROTOCOL_VERSION);
        octets::append_be16(&mut head, token);
        head.push(id);
        octets::append(&mut head, eui);
        assert(head@ =~= header(token, id, eui@));
        let n: usize = if room < HEADER_LEN {
            room
        } else {
            HEADER_LEN
        };
        let bytes: Vec<u8> = octets::part(head.as_slice(), 0, n);
        let ghost datagram = Datagram { head: head@, pieces: Seq::empty() };
        assert(bytes@ =~= datagram.within(room as int));
        SliceWriter { bytes, room, open: n == HEADER_LEN, datagram: Ghost(datagram) }
    }

    /// Writes a piece, if everything before it was written and it fits.
    fn write(&mut self, piece: &[u8])
        requires
            old(self).valid(),
        ensures
            final(self).adds(*old(self), seq![piece@]),
    {
        let ghost before = self.datagram@;
        let ghost pieces = before.pieces + seq![piece@];
        if self.open && piece.len() <= self.room - self.bytes.len() {
            octets::append(&mut self.bytes, piece);
        } else {
            self.open = false;
        }
        proof {
            joined_concat(before.pieces, seq![piece@]);
            joined_single(piece@);
            assert(pieces.drop_last() =~= before.pieces);
            self.datagram@ = Datagram { pieces, ..before };
            assert(self.bytes@ =~= self.datagram@.within(self.room as int));
        }
    }

    fn text(&mut self, piece: &str)
        requires
            old(self).valid(),
        ensures
            final(self).adds(*old(self), text_piece(piece@)),
    {
        self.write(piece.as_bytes());
    }

    fn number(&mut self, n: u64)
        requires
            old(self).valid(),
        ensures
            final(self).adds(*old(self), number_piece(n as nat)),
    {
        let mut piece: Vec<u8> = Vec::new();
        decimal::append(&mut piece, n);
        assert(piece@ =~= decimal::digits(n as nat));
        self.write(piece.as_slice());
    }

    fn signed(&mut self, n: i32)
        requires
            old(self).valid(),
        ensures
            final(self).adds(*old(self), signed_pieces(n as int)),
    {
        let ghost before = self.datagram@.pieces;
        if n < 0 {
            let minus: [u8; 1] = [45];
            assert(minus@ =~= seq![45u8]);
            self.write(&minus);
            self.number((-(n as i64)) as u64);
            assert(self.datagram@.pieces =~= before + signed_pieces(n as int));
        } else {
            self.number(n as u64);
        }
    }

    fn padded(&mut self, n: u32)
        requires
            old(self).valid(),
        ensures
            final(self).adds(*old(self), padded_pieces(n as nat)),
    {
        let ghost before = *self;
        let mut piece: Vec<u8> = Vec::new();
        decimal::append(&mut piece, n as u64);
        assert(piece@ =~= decimal::digits(n as nat));
        let zero: [u8; 1] = [decimal::ZERO];
        assert(zero@ =~= seq![decimal::ZERO]);
        let zeros: usize = if piece.len() < 6 {
            6 - piece.len()
        } else {
            0
        };
        let mut written: usize = 0;
        assert(before.datagram@.pieces + zero_pieces(0) =~= before.datagram@.pieces);
        while written < zeros
            invariant
                written <= zeros,
                zero@ == seq![decimal::ZERO],
                self.adds(before, zero_pieces(written as int)),
            decreases zeros - written,
        {
            self.write(&zero);
            written = written + 1;
            assert(self.datagram@.pieces =~= before.datagram@.pieces + zero_pieces(
                written as int,
            ));
        }
        assert(zero_pieces(zeros as int) == zero_pieces(6 - piece@.len()));
        self.write(piece.as_slice());
        assert(self.datagram@.pieces =~= before.datagram@.pieces + padded_pieces(n as nat));
    }

    /// Puts what was written into the buffer.
    fn finish(self, out: &mut [u8]) -> (r: usize)
        requires
            self.valid(),
            self.room == old(out)@.len(),
        ensures
            built(self.datagram@, old(out)@, final(out)@, r as int),
    {
        let len: usize = self.bytes.len();
        proof {
            lemma_within_room(self.datagram@, self.room as int);
        }
        let mut i: usize = 0;
        while i < len
            invariant
                i <= len == self.bytes@.len() <= out@.len(),
                out@.len() == old(out)@.len(),
                out@ =~= self.bytes@.take(i as int) + old(out)@.skip(i as int),
            decreases len - i,
        {
            out[i] = self.bytes[i];
            i = i + 1;
        }
        assert(out@ =~= self.bytes@ + old(out)@.skip(len as int));
        len
    }
}

/// What a buffer takes of a datagram fits it.
proof fn lemma_within_room(datagram: Datagram, room: int)
    requires
        0 <= room,
    ensures
        datagram.within(room).len() <= room,
{
    if room >= datagram.head.len() {
        lemma_whole_pieces_fit(datagram.pieces, room - datagram.head.len());
    }
}

proof fn lemma_whole_pieces_fit(pieces: Seq<Seq<u8>>, room: int)
    requires
        0 <= room,
    ensures
        whole_pieces(pieces, room).len() <= room,
    decreases pieces.len(),
{
    if pieces.len() > 0 && joined(pieces).len() > room {
        lemma_whole_pieces_fit(pieces.drop_last(), room);
    }
}

/// Zeros that are pieces of their own are a byte each.
proof fn lemma_zeros_len(count: int)
    requires
        0 <= count,
    ensures
        joined(zero_pieces(count)).len() == count,
    decreases count,
{
    if count > 0 {
        lemma_zeros_len(count - 1);
        joined_concat(zero_pieces(count - 1), seq![seq![decimal::ZERO]]);
        joined_single(seq![decimal::ZERO]);
    }
}

/// An ASCII text has as many bytes as characters.
proof fn lemma_ascii_len(text: Seq<char>)
    requires
        vstd::utf8::is_ascii_chars(text),
    ensures
        octets::utf8(text).len() == text.len(),
{
    vstd::utf8::is_ascii_chars_encode_utf8(text);
}

/// The fixed parts of a PUSH_DATA with one packet come to 140 bytes.
proof fn lemma_rxpk_len(token: u16, eui: Seq<u8>, meta: RxMeta, size: nat, data: Seq<u8>)
    requires
        eui.len() == 8,
        size <= 256,
        data.len() <= BASE64_ROOM,
    ensures
        encoded_rxpk_datagram(token, eui, meta, size, data).bytes().len() <= PUSH_BUF,
{
    broadcast use {joined_concat, joined_single};

    reveal_strlit("{\"rxpk\":[{\"tmst\":");
    reveal_strlit(",\"chan\":0,\"rfch\":0,\"freq\":");
    reveal_strlit(".");
    reveal_strlit(",\"stat\":1,\"modu\":\"LORA\",\"datr\":\"SF");
    reveal_strlit("BW");
    reveal_strlit("\",\"codr\":\"4/");
    reveal_strlit("\",\"rssi\":");
    reveal_strlit(",\"lsnr\":");
    reveal_strlit(",\"size\":");
    reveal_strlit(",\"data\":\"");
    reveal_strlit("\"}]}");
    lemma_ascii_len("{\"rxpk\":[{\"tmst\":"@);
    lemma_ascii_len(",\"chan\":0,\"rfch\":0,\"freq\":"@);
    lemma_ascii_len("."@);
    lemma_ascii_len(",\"stat\":1,\"modu\":\"LORA\",\"datr\":\"SF"@);
    lemma_ascii_len("BW"@);
    lemma_ascii_len("\",\"codr\":\"4/"@);
    lemma_ascii_len("\",\"rssi\":"@);
    lemma_ascii_len(",\"lsnr\":"@);
    lemma_ascii_len(",\"size\":"@);
    lemma_ascii_len(",\"data\":\""@);
    lemma_ascii_len("\"}]}"@);
    decimal::lemma_digits_len_u32(meta.tmst);
    decimal::lemma_digits_len_u32(meta.freq_hz / 1_000_000);
    decimal::lemma_digits_len_u32(meta.spreading_factor as u32);
    decimal::lemma_digits_len_u32(meta.bandwidth_khz);
    decimal::lemma_digits_len_u32(meta.coding_rate as u32);
    decimal::lemma_digits_len_u32(meta.freq_hz % 1_000_000);
    lemma_zeros_len(6 - decimal::digits((meta.freq_hz % 1_000_000) as nat).len());
    decimal::lemma_digits_len_u32(size as u32);
    decimal::lemma_digits_len_u32(
        if meta.rssi < 0 {
            (-meta.rssi) as u32
        } else {
            meta.rssi as u32
        },
    );
    decimal::lemma_digits_len_u32(
        if meta.snr < 0 {
            (-meta.snr) as u32
        } else {
            meta.snr as u32
        },
    );
}

/// A TX_ACK fits its buffer, whatever its error.
pub proof fn tx_ack_fits_its_buffer(token: u16, eui: Seq<u8>, error: TxAckError)
    requires
        eui.len() == 8,
    ensures
        ack_datagram(token, eui, error).bytes().len() <= ACK_BUF,
{
    broadcast use {joined_concat, joined_single};

    reveal_strlit("{\"txpk_ack\":{\"error\":\"");
    reveal_strlit("\"}}");
    reveal_strlit("NONE");
    reveal_strlit("TOO_LATE");
    reveal_strlit("TOO_EARLY");
    reveal_strlit("COLLISION_PACKET");
    reveal_strlit("TX_FREQ");
    reveal_strlit("DUTY_CYCLE_OVERFLOW");
    lemma_ascii_len("{\"txpk_ack\":{\"error\":\""@);
    lemma_ascii_len("\"}}"@);
    lemma_ascii_len(error.name());
}

/// PUSH_DATA carrying one received packet. Returns the datagram length. A
/// packet that LoRa can carry always fits [`PUSH_BUF`] bytes, and is what its
/// `data` decodes to.
pub fn build_push_data_rxpk(
    out: &mut [u8],
    token: u16,
    eui: &[u8; 8],
    meta: &RxMeta,
    payload: &[u8],
) -> (r: usize)
    ensures
        built(
            rxpk_datagram(token, eui@, *meta, payload@),
            old(out)@,
            final(out)@,
            r as int,
        ),
        payload@.len() <= 256 && old(out)@.len() >= PUSH_BUF ==> r == rxpk_datagram(
            token,
            eui@,
            *meta,
            payload@,
        ).bytes().len(),
        payload@.len() <= 256 ==> base64_decoded(rxpk_data(payload@), MAX_LORA_PAYLOAD) == Some(
            payload@,
        ),
{
    let encoded: Option<Vec<u8>> = if payload.len() <= BASE64_ROOM {
        base64_encode(payload, BASE64_ROOM)
    } else {
        None
    };
    let data: Vec<u8> = match encoded {
        Some(text) => text,
        None => Vec::new(),
    };
    assert(data@ =~= rxpk_data(payload@));
    proof {
        if payload@.len() <= 256 {
            lemma_rxpk_len(token, eui@, *meta, payload@.len(), data@);
        }
    }
    build_push_data_encoded(out, token, eui, meta, payload.len(), data.as_slice())
}

/// PUSH_DATA carrying one received packet of `size` bytes, whose `data` text
/// is given. Returns the datagram length.
pub fn build_push_data_encoded(
    out: &mut [u8],
    token: u16,
    eui: &[u8; 8],
    meta: &RxMeta,
    size: usize,
    data: &[u8],
) -> (r: usize)
    ensures
        built(
            encoded_rxpk_datagram(token, eui@, *meta, size as nat, data@),
            old(out)@,
            final(out)@,
            r as int,
        ),
{
    let mut w: SliceWriter = SliceWriter::new(out.len(), token, PUSH_DATA, eui);
    assert(w.datagram@.pieces + text_piece("{\"rxpk\":[{\"tmst\":"@) =~= text_piece(
        "{\"rxpk\":[{\"tmst\":"@,
    ));
    w.text("{\"rxpk\":[{\"tmst\":");
    w.number(meta.tmst as u64);
    w.text(",\"chan\":0,\"rfch\":0,\"freq\":");
    w.number((meta.freq_hz / 1_000_000) as u64);
    w.text(".");
    w.padded(meta.freq_hz % 1_000_000);
    w.text(",\"stat\":1,\"modu\":\"LORA\",\"datr\":\"SF");
    w.number(meta.spreading_factor as u64);
    w.text("BW");
    w.number(meta.bandwidth_khz as u64);
    w.text("\",\"codr\":\"4/");
    w.number(meta.coding_rate as u64);
    w.text("\",\"rssi\":");
    w.signed(meta.rssi as i32);
    w.text(",\"lsnr\":");
    w.signed(meta.snr as i32);
    w.text(",\"size\":");
    w.number(size as u64);
    w.text(",\"data\":\"");
    w.write(data);
    w.text("\"}]}");
    w.finish(out)
}

/// PUSH_DATA carrying the periodic `stat` object.
pub fn build_push_data_stat(out: &mut [u8], token: u16, eui: &[u8; 8], stats: &StatCounters) -> (r:
    usize)
    ensures
        built(
            stat_datagram(token, eui@, *stats),
            old(out)@,
            final(out)@,
            r as int,
        ),
{
    // Ack ratio as a percentage with one decimal, computed in tenths.
    let ackr_tenths: u64 = if stats.push_sent == 0 {
        1000
    } else {
        (stats.push_acked as u64 * 1000 / stats.push_sent as u64) % 0x1_0000_0000
    };
    let mut w: SliceWriter = SliceWriter::new(out.len(), token, PUSH_DATA, eui);
    assert(w.datagram@.pieces + text_piece("{\"stat\":{\"rxnb\":"@) =~= text_piece(
        "{\"stat\":{\"rxnb\":"@,
    ));
    w.text("{\"stat\":{\"rxnb\":");
    w.number(stats.rxnb as u64);
    w.text(",\"rxok\":");
    w.number(stats.rxok as u64);
    w.text(",\"rxfw\":");
    w.number(stats.rxfw as u64);
    w.text(",\"ackr\":");
    w.number(ackr_tenths / 10);
    w.text(".");
    w.number(ackr_tenths % 10);
    w.text(",\"dwnb\":");
    w.number(stats.dwnb as u64);
    w.text(",\"txnb\":");
    w.number(stats.txnb as u64);
    w.text("}}");
    w.finish(out)
}

/// PULL_DATA keepalive (opens the NAT pinhole for downlinks).
pub fn build_pull_data(out: &mut [u8], token: u16, eui: &[u8; 8]) -> (r: usize)
    ensures
        built(pull_datagram(token, eui@), old(out)@, final(out)@, r as int),
{
    let w: SliceWriter = SliceWriter::new(out.len(), token, PULL_DATA, eui);
    w.finish(out)
}

/// TX_ACK answering a PULL_RESP (token must echo the PULL_RESP's).
pub fn build_tx_ack(out: &mut [u8], token: u16, eui: &[u8; 8], error: TxAckError) -> (r: usize)
    ensures
        built(ack_datagram(token, eui@, error), old(out)@, final(out)@, r as int),
{
    let mut w: SliceWriter = SliceWriter::new(out.len(), token, TX_ACK, eui);
    assert(w.datagram@.pieces + text_piece("{\"txpk_ack\":{\"error\":\""@) =~= text_piece(
        "{\"txpk_ack\":{\"error\":\""@,
    ));
    w.text("{\"txpk_ack\":{\"error\":\"");
    w.text(error.as_str());
    w.text("\"}}");
    w.finish(out)
}

/// A txpk as the server sends it, read from JSON, with the frequency in Hz.
/// `ncrc` and `prea` are never set by ChirpStack; the gateway forces CRC off
/// and preamble 8 for LoRa downlinks itself.
pub struct Txpk<'a> {
    /// Transmit immediately (Class C).
    pub imme: bool,
    /// Target microsecond counter.
    pub tmst: Option<u32>,
    /// Frequency in Hz.
    pub freq_hz: u32,
    /// Transmit power in dBm.
    pub powe: Option<i8>,
    /// Modulation.
    pub modu: &'a str,
    /// Data rate.
    pub datr: &'a str,
    /// Coding rate.
    pub codr: Option<&'a str>,
    /// Inverted polarisation.
    pub ipol: bool,
    /// Preamble length.
    pub prea: Option<u16>,
    /// Payload in base64.
    pub data: &'a str,
}

/// A parsed and normalised txpk downlink request.
#[derive(PartialEq)]
pub struct TxPacket {
    /// Transmit immediately (Class C).
    pub immediate: bool,
    /// Target microsecond counter.
    pub tmst: Option<u32>,
    /// Frequency in Hz.
    pub freq_hz: u32,
    /// Requested power; the forwarder clamps it to the radio's ceiling.
    pub power_dbm: i8,
    /// Spreading factor.
    pub spreading_factor: u8,
    /// Bandwidth in kHz.
    pub bandwidth_khz: u32,
    /// Coding rate denominator.
    pub coding_rate: u8,
    /// Inverted IQ.
    pub iq_inverted: bool,
    /// Preamble length in symbols.
    pub preamble: u16,
    /// The packet.
    pub payload: Bytes<256>,
}

/// What a [`TxPacket`] asks for.
pub struct TxSpec {
    /// Transmit immediately.
    pub immediate: bool,
    /// Target microsecond counter.
    pub tmst: Option<u32>,
    /// Frequency in Hz.
    pub freq_hz: u32,
    /// Requested power.
    pub power_dbm: i8,
    /// Spreading factor.
    pub spreading_factor: u8,
    /// Bandwidth in kHz.
    pub bandwidth_khz: u32,
    /// Coding rate denominator.
    pub coding_rate: u8,
    /// Inverted IQ.
    pub iq_inverted: bool,
    /// Preamble length in symbols.
    pub preamble: u16,
    /// The packet.
    pub payload: Seq<u8>,
}

impl View for TxPacket {
    type V = TxSpec;

    open spec fn view(&self) -> TxSpec {
        TxSpec {
            immediate: self.immediate,
            tmst: self.tmst,
            freq_hz: self.freq_hz,
            power_dbm: self.power_dbm,
            spreading_factor: self.spreading_factor,
            bandwidth_khz: self.bandwidth_khz,
            coding_rate: self.coding_rate,
            iq_inverted: self.iq_inverted,
            preamble: self.preamble,
            payload: self.payload@,
        }
    }
}

/// The data rate behind a text such as `SF7BW125`: spreading factor 5 to 12
/// and bandwidth.
pub open spec fn data_rate(datr: Seq<u8>) -> Option<(u8, u32)> {
    let rest = datr.skip(2);
    if !octets::holds_at(datr, octets::utf8("SF"@), 0) {
        None
    } else {
        match octets::first_at(rest, octets::utf8("BW"@), 0) {
            None => None,
            Some(at) => match (
                decimal::parsed(rest.take(at), u8::MAX as nat),
                decimal::parsed(rest.skip(at + 2), u32::MAX as nat),
            ) {
                (Some(sf), Some(bw)) => if 5 <= sf <= 12 {
                    Some((sf as u8, bw as u32))
                } else {
                    None
                },
                _ => None,
            },
        }
    }
}

/// The coding rate denominator behind a text such as `4/5` or `4/5LI`: the
/// digit after the slash where it is 5 to 8, else 5.
pub open spec fn coding_rate_of(codr: Option<&str>) -> u8 {
    match codr {
        Some(text) => {
            let bytes = octets::utf8(text@);
            if bytes.len() > 2 && 53 <= bytes[2] <= 56 {
                (bytes[2] - 48) as u8
            } else {
                5
            }
        },
        None => 5,
    }
}

/// The downlink request behind a txpk whose `data` decodes to `payload`, or
/// `None` where it cannot be used: another modulation than LoRa, an unknown
/// data rate, or no payload that LoRa can carry.
pub open spec fn normalised_with(txpk: Txpk, payload: Option<Seq<u8>>) -> Option<TxSpec> {
    match (data_rate(octets::utf8(txpk.datr@)), payload) {
        (Some((spreading_factor, bandwidth_khz)), Some(payload)) => if txpk.modu@ == "LORA"@ && 0
            < payload.len() <= MAX_LORA_PAYLOAD {
            Some(
                TxSpec {
                    immediate: txpk.imme,
                    tmst: txpk.tmst,
                    freq_hz: txpk.freq_hz,
                    power_dbm: match txpk.powe {
                        Some(power) => power,
                        None => 14,
                    },
                    spreading_factor,
                    bandwidth_khz,
                    coding_rate: coding_rate_of(txpk.codr),
                    iq_inverted: txpk.ipol,
                    preamble: match txpk.prea {
                        Some(preamble) => preamble,
                        None => 8,
                    },
                    payload,
                },
            )
        } else {
            None
        },
        _ => None,
    }
}

/// The downlink request behind a txpk, or `None` where it cannot be used.
pub open spec fn normalised(txpk: Txpk) -> Option<TxSpec> {
    normalised_with(txpk, base64_decoded(octets::utf8(txpk.data@), MAX_LORA_PAYLOAD))
}

/// "SF7BW125" -> (7, 125)
fn parse_datr(datr: &str) -> (r: Option<(u8, u32)>)
    ensures
        r == data_rate(octets::utf8(datr@)),
{
    let text: &[u8] = datr.as_bytes();
    let prefix: &[u8] = "SF".as_bytes();
    let mark: &[u8] = "BW".as_bytes();
    proof {
        reveal_strlit("SF");
        reveal_strlit("BW");
        vstd::utf8::is_ascii_chars_encode_utf8("SF"@);
        vstd::utf8::is_ascii_chars_encode_utf8("BW"@);
    }
    let total: usize = text.len();
    if total < 2 || !octets::equal(&text[0..2], prefix) {
        return None;
    }
    let rest: &[u8] = &text[2..total];
    assert(rest@ =~= text@.skip(2));
    let rest_len: usize = rest.len();
    let at: usize = match octets::find(rest, mark, 0) {
        Some(at) => at,
        None => {
            return None;
        },
    };
    assert(rest@.subrange(0, at as int) =~= rest@.take(at as int));
    assert(rest@.subrange(at + 2, rest@.len() as int) =~= rest@.skip(at + 2));
    let sf: u64 = match decimal::parse(&rest[0..at], u8::MAX as u64) {
        Some(sf) => sf,
        None => {
            return None;
        },
    };
    let bw: u64 = match decimal::parse(&rest[at + 2..rest_len], u32::MAX as u64) {
        Some(bw) => bw,
        None => {
            return None;
        },
    };
    if sf < 5 || sf > 12 {
        return None;
    }
    Some((sf as u8, bw as u32))
}

/// Tolerates "4/5LI" style suffixes: takes the digit after the slash.
fn parse_codr(codr: Option<&str>) -> (r: u8)
    ensures
        r == coding_rate_of(codr),
{
    match codr {
        Some(text) => {
            let bytes: &[u8] = text.as_bytes();
            if bytes.len() > 2 && 53 <= bytes[2] && bytes[2] <= 56 {
                bytes[2] - 48
            } else {
                5
            }
        },
        None => 5,
    }
}

/// Normalise the txpk of a PULL_RESP. `txpk` is the JSON payload as read, or
/// `None` when it could not be read.
pub fn parse_txpk(txpk: Option<&Txpk>) -> (r: Result<TxPacket, ProtoError>)
    ensures
        match r {
            Ok(packet) => txpk is Some && normalised(*txpk->Some_0) == Some(packet@),
            Err(e) => e == ProtoError::BadTxpk && (txpk is None || normalised(
                *txpk->Some_0,
            ) is None),
        },
{
    match txpk {
        Some(txpk) => match base64_decode(txpk.data.as_bytes(), MAX_LORA_PAYLOAD) {
            Some(payload) => normalise_txpk(txpk, payload.as_slice()),
            None => Err(ProtoError::BadTxpk),
        },
        None => Err(ProtoError::BadTxpk),
    }
}

/// Normalise a txpk whose `data` decodes to `payload`.
pub fn normalise_txpk(txpk: &Txpk, payload: &[u8]) -> (r: Result<TxPacket, ProtoError>)
    ensures
        match r {
            Ok(packet) => normalised_with(*txpk, Some(payload@)) == Some(packet@),
            Err(e) => e == ProtoError::BadTxpk && normalised_with(*txpk, Some(payload@)) is None,
        },
{
    if !octets::same_text(txpk.modu, "LORA") || payload.len() == 0 {
        return Err(ProtoError::BadTxpk);
    }
    let (spreading_factor, bandwidth_khz): (u8, u32) = match parse_datr(txpk.datr) {
        Some(rate) => rate,
        None => {
            return Err(ProtoError::BadTxpk);
        },
    };
    let coding_rate: u8 = parse_codr(txpk.codr);
    let payload: Bytes<256> = match Bytes::from_slice(payload) {
        Ok(payload) => payload,
        Err(_) => {
            return Err(ProtoError::BadTxpk);
        },
    };
    Ok(
        TxPacket {
            immediate: txpk.imme,
            tmst: txpk.tmst,
            freq_hz: txpk.freq_hz,
            power_dbm: match txpk.powe {
                Some(power) => power,
                None => 14,
            },
            spreading_factor,
            bandwidth_khz,
            coding_rate,
            iq_inverted: txpk.ipol,
            preamble: match txpk.prea {
                Some(preamble) => preamble,
                None => 8,
            },
            payload,
        },
    )
}

/// A header is the protocol version 2, the token with its high byte first, the
/// identifier and the EUI. PUSH_DATA is 0, PULL_DATA 2 and TX_ACK 5.
pub proof fn headers_are_laid_out(
    token: u16,
    eui: Seq<u8>,
    meta: RxMeta,
    payload: Seq<u8>,
    stats: StatCounters,
    error: TxAckError,
)
    requires
        eui.len() == 8,
    ensures
        ({
            let rxpk = rxpk_datagram(token, eui, meta, payload).head;
            let stat = stat_datagram(token, eui, stats).head;
            let pull = pull_datagram(token, eui).head;
            let ack = ack_datagram(token, eui, error).head;
            &&& rxpk.len() == 12 && rxpk[0] == 2 && 256 * rxpk[1] + rxpk[2] == token && rxpk[3] == 0
            &&& rxpk.skip(4) == eui
            &&& stat == rxpk
            &&& pull.len() == 12 && pull[0] == 2 && 256 * pull[1] + pull[2] == token && pull[3] == 2
            &&& pull.skip(4) == eui
            &&& ack.len() == 12 && ack[0] == 2 && 256 * ack[1] + ack[2] == token && ack[3] == 5
            &&& ack.skip(4) == eui
            &&& pull_datagram(token, eui).bytes() == pull
        }),
{
    assert(header(token, 0, eui).skip(4) =~= eui);
    assert(header(token, 2, eui).skip(4) =~= eui);
    assert(header(token, 5, eui).skip(4) =~= eui);
    assert(pull_datagram(token, eui).bytes() =~= header(token, 2, eui));
}

/// Zeros before a number do not change it.
proof fn lemma_zeros_number(count: int, text: Seq<u8>)
    requires
        0 <= count,
    ensures
        decimal::number(joined(zero_pieces(count)) + text) == decimal::number(text),
        forall|i: int|
            0 <= i < joined(zero_pieces(count)).len() ==> #[trigger] joined(zero_pieces(count))[i]
                == 48,
    decreases count, text.len(),
{
    let zeros = joined(zero_pieces(count));
    if text.len() > 0 {
        lemma_zeros_number(count, text.drop_last());
        assert((zeros + text).drop_last() =~= zeros + text.drop_last());
    } else if count > 0 {
        lemma_zeros_number(count - 1, text);
        joined_concat(zero_pieces(count - 1), seq![seq![decimal::ZERO]]);
        joined_single(seq![decimal::ZERO]);
        let fewer = joined(zero_pieces(count - 1));
        assert((zeros + text).drop_last() =~= fewer + text);
    } else {
        assert(zeros + text =~= text);
    }
}

/// The part of a frequency behind the point is six digits that spell it, and a signed
/// number is spelled as a whole.
pub proof fn pieces_spell_their_numbers(n: nat, signed: int)
    requires
        n < 1_000_000,
    ensures
        joined(padded_pieces(n)).len() == 6,
        decimal::number(joined(padded_pieces(n))) == n,
        joined(signed_pieces(signed)) == decimal::signed(signed),
{
    broadcast use {joined_concat, joined_single};

    let d = decimal::digits(n);
    decimal::lemma_digits_len_u32(n as u32);
    decimal::lemma_digits_parsed(n);
    lemma_zeros_len(6 - d.len());
    lemma_zeros_number(6 - d.len(), d);
    assert(joined(padded_pieces(n)) == joined(zero_pieces(6 - d.len())) + d);
    assert(joined(signed_pieces(signed)) =~= decimal::signed(signed));
}

/// An uplink report tells when, where and how the packet was heard: the counter,
/// the frequency in MHz, spreading factor and bandwidth, the coding rate, signal
/// strength and signal to noise ratio, and the size and the payload, each under
/// its own name.
pub proof fn uplink_reports_tell_the_reception(
    token: u16,
    eui: Seq<u8>,
    meta: RxMeta,
    size: nat,
    data: Seq<u8>,
)
    ensures
        ({
            let json = joined(encoded_rxpk_datagram(token, eui, meta, size, data).pieces);
            let mhz = decimal::digits((meta.freq_hz / 1_000_000) as nat);
            let hz = joined(padded_pieces((meta.freq_hz % 1_000_000) as nat));
            &&& octets::has(
                json,
                octets::utf8("{\"rxpk\":[{\"tmst\":"@) + decimal::digits(meta.tmst as nat)
                    + octets::utf8(",\"chan\":0,\"rfch\":0,\"freq\":"@),
            )
            &&& octets::has(
                json,
                octets::utf8(",\"chan\":0,\"rfch\":0,\"freq\":"@) + mhz + octets::utf8("."@),
            )
            &&& octets::has(
                json,
                octets::utf8("."@) + hz + octets::utf8(
                    ",\"stat\":1,\"modu\":\"LORA\",\"datr\":\"SF"@,
                ),
            )
            &&& octets::has(
                json,
                octets::utf8(",\"stat\":1,\"modu\":\"LORA\",\"datr\":\"SF"@) + decimal::digits(
                    meta.spreading_factor as nat,
                ) + octets::utf8("BW"@),
            )
            &&& octets::has(
                json,
                octets::utf8("BW"@) + decimal::digits(meta.bandwidth_khz as nat) + octets::utf8(
                    "\",\"codr\":\"4/"@,
                ),
            )
            &&& octets::has(
                json,
                octets::utf8("\",\"codr\":\"4/"@) + decimal::digits(meta.coding_rate as nat)
                    + octets::utf8("\",\"rssi\":"@),
            )
        }),
{
    broadcast use {
        joined_concat,
        joined_single,
        octets::has_in_longer,
        octets::has_at_the_end,
        octets::has_at_the_start,
    };

}

/// The rest of what an uplink report tells.
pub proof fn uplink_reports_tell_the_packet(
    token: u16,
    eui: Seq<u8>,
    meta: RxMeta,
    size: nat,
    data: Seq<u8>,
)
    ensures
        ({
            let json = joined(encoded_rxpk_datagram(token, eui, meta, size, data).pieces);
            &&& octets::has(
                json,
                octets::utf8("\",\"rssi\":"@) + decimal::signed(meta.rssi as int) + octets::utf8(
                    ",\"lsnr\":"@,
                ),
            )
            &&& octets::has(
                json,
                octets::utf8(",\"lsnr\":"@) + decimal::signed(meta.snr as int) + octets::utf8(
                    ",\"size\":"@,
                ),
            )
            &&& octets::has(
                json,
                octets::utf8(",\"size\":"@) + decimal::digits(size) + octets::utf8(",\"data\":\""@),
            )
            &&& octets::has(
                json,
                octets::utf8(",\"data\":\""@) + data + octets::utf8("\"}]}"@),
            )
        }),
{
    broadcast use {
        joined_concat,
        joined_single,
        octets::has_in_longer,
        octets::has_at_the_end,
        octets::has_at_the_start,
    };

    pieces_spell_their_numbers(0, meta.rssi as int);
    pieces_spell_their_numbers(0, meta.snr as int);
}

/// The periodic report tells each counter under its own name, and the share of
/// acknowledged datagrams in percent, with one decimal cut off behind it; that is
/// 100.0 before the first was sent.
pub proof fn reports_tell_the_counters(token: u16, eui: Seq<u8>, stats: StatCounters)
    ensures
        ({
            let json = joined(stat_datagram(token, eui, stats).pieces);
            &&& octets::has(
                json,
                octets::utf8("{\"stat\":{\"rxnb\":"@) + decimal::digits(stats.rxnb as nat)
                    + octets::utf8(",\"rxok\":"@),
            )
            &&& octets::has(
                json,
                octets::utf8(",\"rxok\":"@) + decimal::digits(stats.rxok as nat) + octets::utf8(
                    ",\"rxfw\":"@,
                ),
            )
            &&& octets::has(
                json,
                octets::utf8(",\"rxfw\":"@) + decimal::digits(stats.rxfw as nat) + octets::utf8(
                    ",\"ackr\":"@,
                ),
            )
            &&& octets::has(
                json,
                octets::utf8(",\"ackr\":"@) + decimal::digits(
                    (ack_ratio_tenths(stats) / 10) as nat,
                ) + octets::utf8("."@),
            )
            &&& octets::has(
                json,
                octets::utf8("."@) + decimal::digits((ack_ratio_tenths(stats) % 10) as nat)
                    + octets::utf8(",\"dwnb\":"@),
            )
            &&& octets::has(
                json,
                octets::utf8(",\"dwnb\":"@) + decimal::digits(stats.dwnb as nat) + octets::utf8(
                    ",\"txnb\":"@,
                ),
            )
            &&& octets::has(
                json,
                octets::utf8(",\"txnb\":"@) + decimal::digits(stats.txnb as nat) + octets::utf8(
                    "}}"@,
                ),
            )
        }),
        stats.push_sent == 0 ==> ack_ratio_tenths(stats) == 1_000,
        0 < stats.push_sent && stats.push_acked <= stats.push_sent ==> ack_ratio_tenths(stats)
            * stats.push_sent <= 1_000 * stats.push_acked < (ack_ratio_tenths(stats) + 1)
            * stats.push_sent,
{
    broadcast use {
        joined_concat,
        joined_single,
        octets::has_in_longer,
        octets::has_at_the_end,
        octets::has_at_the_start,
    };

    if 0 < stats.push_sent && stats.push_acked <= stats.push_sent {
        let (a, s) = (stats.push_acked * 1000, stats.push_sent as int);
        assert(0 <= a / s <= 1_000 && a / s * s <= a < (a / s + 1) * s) by (nonlinear_arith)
            requires
                0 <= a <= 1000 * s,
                0 < s,
        ;
    }
}

/// A TX_ACK names its error as ChirpStack knows it.
pub proof fn acks_name_their_error(token: u16, eui: Seq<u8>, error: TxAckError)
    ensures
        joined(ack_datagram(token, eui, error).pieces) == octets::utf8(
            "{\"txpk_ack\":{\"error\":\""@,
        ) + octets::utf8(error.name()) + octets::utf8("\"}}"@),
        TxAckError::NoError.name() == "NONE"@,
        TxAckError::TooLate.name() == "TOO_LATE"@,
        TxAckError::TooEarly.name() == "TOO_EARLY"@,
        TxAckError::CollisionPacket.name() == "COLLISION_PACKET"@,
        TxAckError::TxFreq.name() == "TX_FREQ"@,
        TxAckError::DutyCycleOverflow.name() == "DUTY_CYCLE_OVERFLOW"@,
{
    broadcast use {joined_concat, joined_single};

}

/// A datagram from the server is one of three: an acknowledgement of a PUSH_DATA
/// (1) or a PULL_DATA (4), or a downlink (3) with JSON behind its four bytes. The
/// token stands in bytes 1 and 2, the high one first. Anything else, and any
/// other protocol version than 2, is malformed.
pub proof fn datagrams_are_read(data: &[u8], r: Result<Downstream<'_>, ProtoError>)
    requires
        call_ensures(parse_datagram, (data,), r),
    ensures
        ({
            let ours = data@.len() >= 4 && data@[0] == 2;
            &&& ours && data@[3] == 1 ==> (r matches Ok(Downstream::PushAck { token }) && token
                == 256 * data@[1] + data@[2])
            &&& ours && data@[3] == 4 ==> (r matches Ok(Downstream::PullAck { token }) && token
                == 256 * data@[1] + data@[2])
            &&& ours && data@[3] == 3 ==> (r matches Ok(Downstream::PullResp { token, json })
                && token == 256 * data@[1] + data@[2] && json@ == data@.skip(4))
            &&& !ours || (data@[3] != 1 && data@[3] != 3 && data@[3] != 4) ==> r == Err::<
                Downstream<'_>,
                ProtoError,
            >(ProtoError::Malformed)
        }),
{
}

/// A downlink request is what its txpk says, with 14 dBm, a coding rate of 4/5
/// and a preamble of eight symbols where it says nothing. It is usable only with
/// LoRa modulation, a data rate and one to 256 bytes.
pub proof fn requests_are_what_they_say(txpk: Txpk, payload: Seq<u8>)
    ensures
        normalised_with(txpk, None) is None,
        normalised_with(txpk, Some(payload)) is Some <==> txpk.modu@ == "LORA"@ && data_rate(
            octets::utf8(txpk.datr@),
        ) is Some && 1 <= payload.len() <= 256,
        normalised_with(txpk, Some(payload)) matches Some(request) ==> {
            &&& request.immediate == txpk.imme
            &&& request.tmst == txpk.tmst
            &&& request.freq_hz == txpk.freq_hz
            &&& txpk.powe matches Some(power) ==> request.power_dbm == power
            &&& txpk.powe is None ==> request.power_dbm == 14
            &&& Some((request.spreading_factor, request.bandwidth_khz)) == data_rate(
                octets::utf8(txpk.datr@),
            )
            &&& request.coding_rate == coding_rate_of(txpk.codr)
            &&& request.iq_inverted == txpk.ipol
            &&& txpk.prea matches Some(preamble) ==> request.preamble == preamble
            &&& txpk.prea is None ==> request.preamble == 8
            &&& request.payload == payload
        },
        normalised(txpk) == normalised_with(
            txpk,
            base64_decoded(octets::utf8(txpk.data@), 256),
        ),
{
}

/// The coding rate is the digit in third place, `5` to `8`, and 4/5 where there
/// is none.
pub proof fn coding_rates_are_read(codr: &str)
    ensures
        coding_rate_of(None) == 5,
        ({
            let text = octets::utf8(codr@);
            &&& text.len() >= 3 && 53 <= text[2] <= 56 ==> coding_rate_of(Some(codr)) == text[2]
                - 48
            &&& text.len() < 3 || !(53 <= text[2] <= 56) ==> coding_rate_of(Some(codr)) == 5
        }),
{
}

/// A data rate is read as it is written: `SF`, the spreading factor in decimal,
/// `BW` and the bandwidth in kHz. Spreading factors from 5 to 12 are known.
pub proof fn data_rates_are_read(sf: u8, khz: u32)
    ensures
        ({
            let text = octets::utf8("SF"@) + decimal::digits(sf as nat) + octets::utf8("BW"@)
                + decimal::digits(khz as nat);
            &&& 5 <= sf <= 12 ==> data_rate(text) == Some((sf, khz))
            &&& !(5 <= sf <= 12) ==> data_rate(text) is None
        }),
{
    reveal_strlit("SF");
    reveal_strlit("BW");
    vstd::utf8::is_ascii_chars_encode_utf8("SF"@);
    vstd::utf8::is_ascii_chars_encode_utf8("BW"@);
    let (s, b) = (octets::utf8("SF"@), octets::utf8("BW"@));
    let (d, k) = (decimal::digits(sf as nat), decimal::digits(khz as nat));
    let text = s + d + b + k;
    let rest = text.skip(2);
    assert(b[0] == 66);
    assert(rest =~= d + b + k);
    assert(text.subrange(0, 2) =~= s);
    assert(octets::holds_at(text, s, 0));
    decimal::lemma_digits_parsed(sf as nat);
    decimal::lemma_digits_parsed(khz as nat);
    octets::lemma_first_at(rest, b, 0);
    let at = d.len() as int;
    assert(rest.subrange(at, at + 2) =~= b);
    assert(octets::holds_at(rest, b, at));
    assert forall|i: int| 0 <= i < at implies !octets::holds_at(rest, b, i) by {
        assert(decimal::is_digit(d[i]));
        assert(rest[i] == d[i]);
        if octets::holds_at(rest, b, i) {
            assert(rest.subrange(i, i + 2)[0] == b[0]);
        }
    }
    assert(octets::first_at(rest, b, 0) == Some(at));
    assert(rest.take(at) =~= d);
    assert(rest.skip(at + 2) =~= k);
    assert(decimal::parsed(d, u8::MAX as nat) == Some(sf as nat));
    assert(decimal::parsed(k, u32::MAX as nat) == Some(khz as nat));
}

/// A datagram that fits stands at the front of the buffer, whole, and what is behind it
/// is left as it was.
pub proof fn datagrams_stand_at_the_front(
    datagram: Datagram,
    before: Seq<u8>,
    after: Seq<u8>,
    len: int,
)
    requires
        built(datagram, before, after, len),
        datagram.bytes().len() <= before.len(),
    ensures
        len == datagram.bytes().len(),
        after.len() == before.len(),
        after.take(len) == datagram.bytes(),
        after.skip(len) == before.skip(len),
        datagram.head.len() <= len && after.take(datagram.head.len() as int) == datagram.head,
{
    datagrams_that_fit_are_whole(datagram, before.len() as int);
    assert(after.take(len) =~= datagram.bytes());
    assert(after.skip(len) =~= before.skip(len));
    assert(after.take(datagram.head.len() as int) =~= datagram.head);
}

/// A keepalive is twelve bytes: 2, the token with its high byte first, 2 and the EUI.
pub proof fn keepalives_are_built(out: &mut [u8], token: u16, eui: &[u8; 8], r: usize)
    requires
        call_ensures(build_pull_data, (out, token, eui), r),
        old(out)@.len() >= 12,
    ensures
        r == 12,
        final(out)@[0] == 2,
        256 * final(out)@[1] + final(out)@[2] == token,
        final(out)@[3] == 2,
        final(out)@.subrange(4, 12) == eui@,
        final(out)@.skip(12) == old(out)@.skip(12),
{
    let datagram = pull_datagram(token, eui@);
    assert(datagram.bytes() =~= header(token, 2, eui@));
    datagrams_stand_at_the_front(datagram, old(out)@, final(out)@, r as int);
    let head = final(out)@.take(12);
    assert(head =~= header(token, 2, eui@));
    assert(final(out)@[0] == head[0] && final(out)@[1] == head[1] && final(out)@[2] == head[2]
        && final(out)@[3] == head[3]);
    assert(final(out)@.subrange(4, 12) =~= head.skip(4));
    assert(header(token, 2, eui@).skip(4) =~= eui@);
}

/// An acknowledgement of a downlink is 2, the token of the downlink, 5, the EUI and the
/// JSON that names the error.
pub proof fn acks_are_built(
    out: &mut [u8],
    token: u16,
    eui: &[u8; 8],
    error: TxAckError,
    r: usize,
)
    requires
        call_ensures(build_tx_ack, (out, token, eui, error), r),
        old(out)@.len() >= 64,
    ensures
        12 <= r <= 64,
        final(out)@[0] == 2,
        256 * final(out)@[1] + final(out)@[2] == token,
        final(out)@[3] == 5,
        final(out)@.subrange(4, 12) == eui@,
        final(out)@.take(r as int) == ack_datagram(token, eui@, error).bytes(),
        final(out)@.skip(r as int) == old(out)@.skip(r as int),
{
    let datagram = ack_datagram(token, eui@, error);
    tx_ack_fits_its_buffer(token, eui@, error);
    datagrams_stand_at_the_front(datagram, old(out)@, final(out)@, r as int);
    assert(datagram.head =~= header(token, 5, eui@));
    let head = final(out)@.take(12);
    assert(final(out)@[0] == head[0] && final(out)@[1] == head[1] && final(out)@[2] == head[2]
        && final(out)@[3] == head[3]);
    assert(final(out)@.subrange(4, 12) =~= head.skip(4));
    assert(header(token, 5, eui@).skip(4) =~= eui@);
}

/// Whole pieces stay within the room.
proof fn lemma_pieces_fit(pieces: Seq<Seq<u8>>, room: int)
    requires
        0 <= room,
    ensures
        whole_pieces(pieces, room).len() <= room,
    decreases pieces.len(),
{
    if pieces.len() > 0 && joined(pieces).len() > room {
        lemma_pieces_fit(pieces.drop_last(), room);
    }
}

/// What was taken as a whole fits.
proof fn lemma_taken_fits(datagram: Datagram, room: int)
    requires
        0 <= room,
        datagram.within(room).len() == datagram.bytes().len(),
    ensures
        datagram.bytes().len() <= room,
{
    if datagram.head.len() <= room {
        lemma_pieces_fit(datagram.pieces, room - datagram.head.len());
    }
}

/// A report of a received packet is 2, the token, 0, the EUI and the JSON of the packet.
pub proof fn uplink_reports_are_built(
    out: &mut [u8],
    token: u16,
    eui: &[u8; 8],
    meta: &RxMeta,
    payload: &[u8],
    r: usize,
)
    requires
        call_ensures(build_push_data_rxpk, (out, token, eui, meta, payload), r),
        payload@.len() <= 256,
        old(out)@.len() >= 600,
    ensures
        12 <= r <= old(out)@.len(),
        final(out)@[0] == 2,
        256 * final(out)@[1] + final(out)@[2] == token,
        final(out)@[3] == 0,
        final(out)@.subrange(4, 12) == eui@,
        final(out)@.take(r as int) == rxpk_datagram(token, eui@, *meta, payload@).bytes(),
        final(out)@.skip(r as int) == old(out)@.skip(r as int),
{
    let datagram = rxpk_datagram(token, eui@, *meta, payload@);
    let taken = datagram.within(old(out)@.len() as int);
    assert(taken.len() == datagram.bytes().len());
    assert(datagram.head =~= header(token, 0, eui@));
    lemma_taken_fits(datagram, old(out)@.len() as int);
    datagrams_stand_at_the_front(datagram, old(out)@, final(out)@, r as int);
    let head = final(out)@.take(12);
    assert(final(out)@[0] == head[0] && final(out)@[1] == head[1] && final(out)@[2] == head[2]
        && final(out)@[3] == head[3]);
    assert(final(out)@.subrange(4, 12) =~= head.skip(4));
    assert(header(token, 0, eui@).skip(4) =~= eui@);
}

} // verus!
