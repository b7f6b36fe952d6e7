//! Frames of the Walkie Textie wire protocol.
//!
//! A raw frame is `[version:u8][id:u8][length:u16 LE][payload][crc16:u16 LE]`
//! with a CRC-16-XMODEM over everything before the CRC. On the wire it is
//! COBS-encoded with a trailing `0x00` delimiter.
use crate::octets;
use vstd::prelude::*;

verus! {

/// Protocol version, the first byte of every frame.
pub const PROTOCOL_VERSION: u8 = 1;

/// Largest LoRa payload in bytes.
pub const MAX_LORA_PAYLOAD: usize = 256;

/// Room for any frame on the wire.
pub const MAX_FRAME_SIZE: usize = 300;

/// Bytes of a raw frame around its payload.
pub const FRAME_OVERHEAD: usize = 6;

/// Why bytes are not a frame, or a frame's payload is not a message.
#[derive(Debug, Clone, Copy, PartialEq, Eq, Structural)]
pub enum ParseError {
    /// The data ends before the message does.
    TooShort,
    /// The version byte is not ours.
    InvalidVersion,
    /// The checksum does not match.
    CrcError,
    /// A field holds a value that it cannot have, or bytes are left over.
    BadPayload,
    /// No message has this id.
    UnknownId(u8),
}

/// A CRC register shifted left by some bits: where a one falls out, the
/// polynomial `0x1021` is subtracted.
pub open spec fn crc_shifted(crc: u16, bits: nat) -> u16
    decreases bits,
{
    if bits == 0 {
        crc
    } else {
        let before = crc_shifted(crc, (bits - 1) as nat);
        if before & 0x8000 == 0 {
            before << 1
        } else {
            (before << 1) ^ 0x1021
        }
    }
}

/// The CRC-16-XMODEM of a byte string: from zero on, each byte is added to the
/// upper half of the register, which is then shifted by its eight bits.
pub open spec fn crc16_xmodem(data: Seq<u8>) -> u16
    decreases data.len(),
{
    if data.len() == 0 {
        0
    } else {
        crc_shifted(crc16_xmodem(data.drop_last()) ^ ((data.last() as u16) << 8), 8)
    }
}

/// Where the run of non-zero bytes ends that reaches from the start of a byte
/// string to `k` or beyond; a run has at most 254 bytes.
pub open spec fn run_end(data: Seq<u8>, k: int) -> int
    decreases data.len() - k,
{
    if k >= data.len() || k >= 254 || data[k] == 0 {
        k
    } else {
        run_end(data, k + 1)
    }
}

/// The COBS form of a byte string, with the trailing zero delimiter: each run
/// of non-zero bytes stands behind its length plus one. The zero that ends a
/// run is left out, unless the run is of the greatest length.
pub open spec fn cobs_encoded(data: Seq<u8>) -> Seq<u8>
    decreases data.len(),
{
    proof {
        lemma_run_end(data, 0);
    }
    let n = run_end(data, 0);
    let run = seq![(n + 1) as u8] + data.take(n);
    if n == data.len() {
        run + seq![0u8]
    } else if n == 254 {
        run + cobs_encoded(data.skip(n))
    } else {
        run + cobs_encoded(data.skip(n + 1))
    }
}

/// The bytes behind a COBS form up to its delimiter, where a zero is still owed
/// or not, or `None` where the data ends before the delimiter. A zero is owed
/// after every run but one of the greatest length, and paid by the next one.
pub open spec fn runs_decoded(data: Seq<u8>, zero_owed: bool) -> Option<Seq<u8>>
    decreases data.len(),
{
    if data.len() == 0 || data.len() < data[0] {
        None
    } else if data[0] == 0 {
        Some(Seq::empty())
    } else {
        match runs_decoded(data.skip(data[0] as int), data[0] != 255) {
            Some(rest) => Some(
                (if zero_owed {
                    seq![0u8]
                } else {
                    Seq::empty()
                }) + data.subrange(1, data[0] as int) + rest,
            ),
            None => None,
        }
    }
}

/// The byte string behind a COBS form that ends in a zero delimiter, or `None`
/// where the data ends before the delimiter.
pub open spec fn cobs_decoded(data: Seq<u8>) -> Option<Seq<u8>> {
    runs_decoded(data, false)
}

/// `crc::Crc::<u16>::checksum` with the algorithm `CRC_16_XMODEM`: polynomial
/// `0x1021`, register zero at the start, no reflection and no final XOR.
#[verifier::external_body]
fn xmodem_checksum(data: &[u8]) -> (r: u16)
    ensures
        r == crc16_xmodem(data@),
{
    crc::Crc::<u16>::new(&crc::CRC_16_XMODEM).checksum(data)
}

/// The largest COBS form of `n` bytes: one byte for each begun run of 254, at
/// least one, and the delimiter.
pub open spec fn max_cobs_len(n: int) -> int {
    if n == 0 {
        2
    } else {
        n + (n + 253) / 254 + 1
    }
}

/// A run ends at a zero, at its greatest length or with the data.
pub proof fn lemma_run_end(data: Seq<u8>, k: int)
    requires
        0 <= k <= data.len(),
        k <= 254,
    ensures
        k <= run_end(data, k) <= data.len(),
        run_end(data, k) <= 254,
        forall|i: int| k <= i < run_end(data, k) ==> data[i] != 0,
        run_end(data, k) < data.len() && run_end(data, k) < 254 ==> data[run_end(data, k)] == 0,
    decreases data.len() - k,
{
    if k < data.len() && k < 254 && data[k] != 0 {
        lemma_run_end(data, k + 1);
    }
}

/// A COBS form ends in the only zero it holds, and is no longer than the
/// maximum.
proof fn lemma_encoded_form(data: Seq<u8>)
    ensures
        0 < cobs_encoded(data).len() <= max_cobs_len(data.len() as int),
        forall|k: int|
            0 <= k < cobs_encoded(data).len() ==> (#[trigger] cobs_encoded(data)[k] == 0 <==> k
                == cobs_encoded(data).len() - 1),
    decreases data.len(),
{
    lemma_run_end(data, 0);
    let n = run_end(data, 0);
    if n < data.len() {
        let rest = data.skip(
            if n == 254 {
                n
            } else {
                n + 1
            },
        );
        lemma_encoded_form(rest);
        assert forall|k: int| 0 <= k < cobs_encoded(data).len() implies (#[trigger] cobs_encoded(
            data,
        )[k] == 0 <==> k == cobs_encoded(data).len() - 1) by {
            if k > n {
                assert(cobs_encoded(data)[k] == cobs_encoded(rest)[k - n - 1]);
            }
        }
    }
}

/// Decoding gives back what was encoded, behind the zero that was owed.
proof fn lemma_decoded_form(data: Seq<u8>, zero_owed: bool)
    ensures
        runs_decoded(cobs_encoded(data), zero_owed) == Some(
            (if zero_owed {
                seq![0u8]
            } else {
                Seq::empty()
            }) + data,
        ),
    decreases data.len(),
{
    lemma_run_end(data, 0);
    let n = run_end(data, 0);
    let e = cobs_encoded(data);
    assert(e[0] == n + 1);
    assert(e.subrange(1, n + 1) =~= data.take(n));
    if n == data.len() {
        assert(e.skip(n + 1) =~= seq![0u8]);
        reveal_with_fuel(runs_decoded, 2);
        assert(data.take(n) =~= data);
    } else {
        let rest = data.skip(
            if n == 254 {
                n
            } else {
                n + 1
            },
        );
        lemma_decoded_form(rest, n != 254);
        assert(e.skip(n + 1) =~= cobs_encoded(rest));
        if n == 254 {
            assert(data =~= data.take(n) + (Seq::<u8>::empty() + rest));
        } else {
            assert(data =~= data.take(n) + (seq![0u8] + rest));
        }
    }
}

/// Decoding never lengthens.
proof fn lemma_decoded_len(data: Seq<u8>, zero_owed: bool)
    ensures
        runs_decoded(data, zero_owed) matches Some(bytes) ==> bytes.len() < data.len() + (
        if zero_owed {
            1int
        } else {
            0
        }),
    decreases data.len(),
{
    if data.len() > 0 && data.len() >= data[0] && data[0] != 0 {
        lemma_decoded_len(data.skip(data[0] as int), data[0] != 255);
    }
}

/// The COBS form of a byte string is decoded to that byte string.
pub proof fn cobs_round_trip(data: Seq<u8>)
    ensures
        cobs_decoded(cobs_encoded(data)) == Some(data),
{
    lemma_decoded_form(data, false);
    assert(Seq::<u8>::empty() + data =~= data);
}

/// `corncobs::encode_buf` into a buffer of `corncobs::max_encoded_len` bytes:
/// the encoded form with its delimiter.
#[verifier::external_body]
fn corncobs_encode(data: &[u8]) -> (r: Vec<u8>)
    requires
        max_cobs_len(data@.len() as int) <= isize::MAX,
    ensures
        r@ == cobs_encoded(data@),
{
    let mut encoded = vec![0u8; corncobs::max_encoded_len(data.len())];
    let len = corncobs::encode_buf(data, &mut encoded);
    encoded.truncate(len);
    encoded
}

/// `corncobs::decode_buf` into a buffer as long as the data: the bytes before
/// the first delimiter, decoded, or the error `Truncated` as `None`.
#[verifier::external_body]
fn corncobs_decode(data: &[u8]) -> (r: Option<Vec<u8>>)
    ensures
        match r {
            Some(decoded) => cobs_decoded(data@) == Some(decoded@),
            None => cobs_decoded(data@) is None,
        },
{
    let mut decoded = vec![0u8; data.len()];
    let len = corncobs::decode_buf(data, &mut decoded).ok()?;
    decoded.truncate(len);
    Some(decoded)
}

/// CRC-16-XMODEM checksum.
pub fn crc16(data: &[u8]) -> (r: u16)
    ensures
        r == crc16_xmodem(data@),
{
    xmodem_checksum(data)
}

/// COBS-encodes data, with the trailing zero delimiter.
pub fn cobs_encode(data: &[u8]) -> (r: Vec<u8>)
    requires
        max_cobs_len(data@.len() as int) <= isize::MAX,
    ensures
        r@ == cobs_encoded(data@),
        0 < r@.len() <= max_cobs_len(data@.len() as int),
        forall|k: int| 0 <= k < r@.len() ==> (#[trigger] r@[k] == 0 <==> k == r@.len() - 1),
        cobs_decoded(r@) == Some(data@),
{
    proof {
        lemma_encoded_form(data@);
        cobs_round_trip(data@);
    }
    corncobs_encode(data)
}

/// COBS-decodes a frame up to its zero delimiter. Fails exactly when the data
/// ends before a delimiter is reached.
pub fn cobs_decode(data: &[u8]) -> (r: Option<Vec<u8>>)
    ensures
        match r {
            Some(decoded) => cobs_decoded(data@) == Some(decoded@) && decoded@.len() <= data@.len(),
            None => cobs_decoded(data@) is None,
        },
{
    proof {
        lemma_decoded_len(data@, false);
    }
    corncobs_decode(data)
}

/// A raw frame without its checksum. The length field is the low 16 bits of
/// the payload's length.
pub open spec fn frame_body(id: u8, payload: Seq<u8>) -> Seq<u8> {
    seq![PROTOCOL_VERSION, id] + octets::le16((payload.len() % 65_536) as u16) + payload
}

/// A raw frame.
pub open spec fn raw_frame(id: u8, payload: Seq<u8>) -> Seq<u8> {
    frame_body(id, payload) + octets::le16(crc16_xmodem(frame_body(id, payload)))
}

/// Builds a raw (un-COBS) frame: version, id, length, payload, CRC.
pub fn build_raw(id: u8, payload: &[u8]) -> (r: Vec<u8>)
    ensures
        r@ == raw_frame(id, payload@),
        r@.len() == payload@.len() + FRAME_OVERHEAD,
{
    let mut frame: Vec<u8> = Vec::new();
    frame.push(PROTOCOL_VERSION);
    frame.push(id);
    assert(frame@ =~= seq![PROTOCOL_VERSION, id]);
    octets::append_le16(&mut frame, (payload.len() % 65_536) as u16);
    octets::append(&mut frame, payload);
    let crc: u16 = crc16(frame.as_slice());
    octets::append_le16(&mut frame, crc);
    frame
}

/// The length field of a raw frame.
pub open spec fn frame_length(data: Seq<u8>) -> int {
    octets::from_le16(data[2], data[3]) as int
}

/// The checksum field of a raw frame.
pub open spec fn frame_crc(data: Seq<u8>) -> u16 {
    octets::from_le16(data[4 + frame_length(data)], data[5 + frame_length(data)])
}

/// The id and payload of a raw frame, or what is wrong with it. Bytes behind
/// the checksum are not looked at.
pub open spec fn frame_parts(data: Seq<u8>) -> Result<(u8, Seq<u8>), ParseError> {
    if data.len() < FRAME_OVERHEAD {
        Err(ParseError::TooShort)
    } else if data[0] != PROTOCOL_VERSION {
        Err(ParseError::InvalidVersion)
    } else if data.len() < frame_length(data) + FRAME_OVERHEAD {
        Err(ParseError::TooShort)
    } else if crc16_xmodem(data.take(4 + frame_length(data))) != frame_crc(data) {
        Err(ParseError::CrcError)
    } else {
        Ok((data[1], data.subrange(4, 4 + frame_length(data))))
    }
}

/// Validates a raw frame and returns `(id, payload)`.
pub fn parse_raw(data: &[u8]) -> (r: Result<(u8, &[u8]), ParseError>)
    ensures
        match r {
            Ok((id, payload)) => frame_parts(data@) == Ok::<(u8, Seq<u8>), ParseError>(
                (id, payload@),
            ),
            Err(e) => frame_parts(data@) == Err::<(u8, Seq<u8>), ParseError>(e),
        },
{
    if data.len() < 6 {
        return Err(ParseError::TooShort);
    }
    if data[0] != PROTOCOL_VERSION {
        return Err(ParseError::InvalidVersion);
    }
    let id: u8 = data[1];
    let length: usize = octets::join_le16(data[2], data[3]) as usize;
    if data.len() < 4 + length + 2 {
        return Err(ParseError::TooShort);
    }
    let received: u16 = octets::join_le16(data[4 + length], data[5 + length]);
    assert(data@.subrange(0, 4 + length) =~= data@.take(4 + length));
    if crc16(&data[0..4 + length]) != received {
        return Err(ParseError::CrcError);
    }
    Ok((id, &data[4..4 + length]))
}

/// A raw frame is read back as it was built, also with bytes behind it.
pub proof fn raw_frame_round_trip(id: u8, payload: Seq<u8>, behind: Seq<u8>)
    requires
        payload.len() <= u16::MAX,
    ensures
        frame_parts(raw_frame(id, payload) + behind) == Ok::<(u8, Seq<u8>), ParseError>(
            (id, payload),
        ),
{
    let data = raw_frame(id, payload) + behind;
    let n = payload.len() as int;
    octets::le16_round_trip(payload.len() as u16);
    octets::le16_round_trip(crc16_xmodem(frame_body(id, payload)));
    assert(data[2] == octets::le16(payload.len() as u16)[0]);
    assert(data[3] == octets::le16(payload.len() as u16)[1]);
    assert(frame_length(data) == payload.len());
    assert(data.take(4 + n) =~= frame_body(id, payload));
    assert(data.subrange(4, 4 + n) =~= payload);
    let crc = octets::le16(crc16_xmodem(frame_body(id, payload)));
    assert(data[4 + n] == crc[0]);
    assert(data[5 + n] == crc[1]);
}

/// A raw frame holds version 1, the id, the payload's length with the low byte first,
/// the payload, and the checksum of all that with the low byte first.
pub proof fn frames_are_laid_out(id: u8, payload: &[u8], r: Vec<u8>)
    requires
        payload@.len() <= 65_535,
        call_ensures(build_raw, (id, payload), r),
    ensures
        r@.len() == payload@.len() + 6,
        r@[0] == 1,
        r@[1] == id,
        r@[2] + 256 * r@[3] == payload@.len(),
        ({
            let n = payload@.len() as int;
            &&& r@.subrange(4, 4 + n) == payload@
            &&& r@[4 + n] + 256 * r@[5 + n] == crc16_xmodem(r@.take(4 + n))
        }),
{
    let n = payload@.len() as int;
    assert(r@.take(4 + n) =~= frame_body(id, payload@));
}

/// A raw frame is accepted exactly when it is complete, of version 1 and its checksum
/// matches, and then gives the id behind the version and as many bytes of payload as
/// its length field says.
pub proof fn frames_are_checked(data: &[u8], r: Result<(u8, &[u8]), ParseError>)
    requires
        call_ensures(parse_raw, (data,), r),
    ensures
        data@.len() < 6 ==> r == Err::<(u8, &[u8]), ParseError>(ParseError::TooShort),
        data@.len() >= 6 ==> ({
            let n = data@[2] + 256 * data@[3];
            let crc = data@[4 + n] + 256 * data@[5 + n];
            &&& data@[0] != 1 ==> r == Err::<(u8, &[u8]), ParseError>(ParseError::InvalidVersion)
            &&& data@[0] == 1 && data@.len() < n + 6 ==> r == Err::<(u8, &[u8]), ParseError>(
                ParseError::TooShort,
            )
            &&& data@[0] == 1 && data@.len() >= n + 6 && crc16_xmodem(data@.take(4 + n)) != crc
                ==> r == Err::<(u8, &[u8]), ParseError>(ParseError::CrcError)
            &&& data@[0] == 1 && data@.len() >= n + 6 && crc16_xmodem(data@.take(4 + n)) == crc
                ==> (r matches Ok((id, payload)) && id == data@[1] && payload@
                == data@.subrange(4, 4 + n))
        }),
{
}

} // verus!
