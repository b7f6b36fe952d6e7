//! Catch-all DNS responder for the provisioning hotspot.
//!
//! Answers every A query with the portal address so phones raise their
//! captive-portal sheet and any typed hostname lands on the config page.
use crate::octets;
use crate::portal::AP_IP;
use vstd::prelude::*;

verus! {

/// Length of a DNS header.
pub const HEADER_LEN: usize = 12;

/// Length of the answer record.
pub const ANSWER_LEN: usize = 16;

/// Where the name that begins at `at` ends: at its zero byte, or behind the
/// query when there is none. Each label is one length byte and its bytes.
pub open spec fn name_end(query: Seq<u8>, at: int) -> int
    decreases query.len() + 300 - at,
{
    if 0 <= at < query.len() && query[at] != 0 {
        name_end(query, at + query[at] + 1)
    } else {
        at
    }
}

/// Where the first question ends: name, zero byte, type and class.
pub open spec fn question_end(query: Seq<u8>) -> int {
    name_end(query, HEADER_LEN as int) + 5
}

/// Whether a datagram is a plain query that fits: not a response, at least one
/// question, and the first question whole.
pub open spec fn answerable(query: Seq<u8>) -> bool {
    &&& HEADER_LEN <= query.len() <= 512 - ANSWER_LEN
    &&& query[2] < 0x80
    &&& !(query[4] == 0 && query[5] == 0)
    &&& question_end(query) <= query.len()
}

/// The answer record: pointer to the question name, A IN, TTL 60 s, the
/// portal address.
pub open spec fn answer_record() -> Seq<u8> {
    seq![0xC0u8, 0x0C, 0x00, 0x01, 0x00, 0x01, 0x00, 0x00, 0x00, 0x3C, 0x00, 0x04] + AP_IP@
}

/// The reply: the id, flags of a response without error, one question, one
/// answer, then the question as asked and the answer record.
pub open spec fn reply(query: Seq<u8>) -> Seq<u8> {
    query.take(2) + seq![0x81u8, 0x80, 0, 1, 0, 1, 0, 0, 0, 0] + query.subrange(
        HEADER_LEN as int,
        question_end(query),
    ) + answer_record()
}

proof fn lemma_name_end(query: Seq<u8>, at: int)
    requires
        0 <= at,
    ensures
        at <= name_end(query, at),
        at <= query.len() ==> name_end(query, at) <= query.len() + 255,
    decreases query.len() + 300 - at,
{
    if at < query.len() && query[at] != 0 {
        lemma_name_end(query, at + query[at] + 1);
    }
}

/// Build the answer for one query datagram. Returns the reply length in
/// `out`, or None when the datagram is not a plain query; then `out` is left
/// as it was.
pub fn answer(query: &[u8], out: &mut [u8; 512]) -> (r: Option<usize>)
    ensures
        match r {
            Some(len) => answerable(query@) && len == reply(query@).len() && len <= 512
                && final(out)@ == reply(query@) + old(out)@.skip(len as int),
            None => !answerable(query@) && final(out)@ == old(out)@,
        },
{
    // Header: id(2) flags(2) qdcount(2) ancount(2) nscount(2) arcount(2)
    if query.len() < HEADER_LEN || query.len() > 512 - ANSWER_LEN {
        return None;
    }
    let is_response: bool = query[2] >= 0x80;
    let question_count: u16 = octets::join_be16(query[4], query[5]);
    if is_response || question_count == 0 {
        return None;
    }
    // Find the end of the first question (name, then type+class).
    let mut at: usize = HEADER_LEN;
    while at < query.len() && query[at] != 0
        invariant
            HEADER_LEN <= at <= query@.len() + 255,
            query@.len() <= 496,
            name_end(query@, at as int) == name_end(query@, HEADER_LEN as int),
        decreases query@.len() + 256 - at,
    {
        at = at + query[at] as usize + 1;
    }
    let end: usize = at + 5;
    if end > query.len() {
        return None;
    }
    let mut bytes: Vec<u8> = octets::part(query, 0, 2);
    let flags: [u8; 10] = [0x81, 0x80, 0, 1, 0, 1, 0, 0, 0, 0];
    octets::append(&mut bytes, &flags);
    octets::append(&mut bytes, &query[HEADER_LEN..end]);
    let record: [u8; 12] = [
        0xC0,
        0x0C,
        0x00,
        0x01,
        0x00,
        0x01,
        0x00,
        0x00,
        0x00,
        0x3C,
        0x00,
        0x04,
    ];
    octets::append(&mut bytes, &record);
    octets::append(&mut bytes, &AP_IP);
    assert(bytes@ =~= reply(query@));
    let mut i: usize = 0;
    let len: usize = bytes.len();
    while i < len
        invariant
            i <= len == bytes@.len() <= 512,
            out@.len() == 512,
            out@ =~= bytes@.take(i as int) + old(out)@.skip(i as int),
        decreases len - i,
    {
        out[i] = bytes[i];
        i = i + 1;
    }
    assert(bytes@.take(len as int) =~= bytes@);
    Some(len)
}

/// The reply echoes the id and the question, is marked as a response, and its
/// last four bytes are the portal address.
pub proof fn reply_echoes_and_points_home(query: Seq<u8>)
    requires
        answerable(query),
    ensures
        reply(query).take(2) == query.take(2),
        reply(query)[2] >= 0x80,
        reply(query).subrange(HEADER_LEN as int, question_end(query)) == query.subrange(
            HEADER_LEN as int,
            question_end(query),
        ),
        reply(query).len() == question_end(query) + ANSWER_LEN,
        reply(query).skip(reply(query).len() - 4) == AP_IP@,
{
    lemma_name_end(query, HEADER_LEN as int);
    let r = reply(query);
    let end = question_end(query);
    assert(AP_IP@.len() == 4);
    assert(r.take(2) =~= query.take(2));
    assert(r.subrange(HEADER_LEN as int, end) =~= query.subrange(HEADER_LEN as int, end));
    assert(r.skip(r.len() - 4) =~= AP_IP@);
}

/// A name is a row of labels, each behind its length, and ends with a zero.
pub proof fn names_are_rows_of_labels(query: Seq<u8>, at: int)
    requires
        0 <= at < query.len(),
    ensures
        query[at] == 0 ==> name_end(query, at) == at,
        query[at] != 0 ==> name_end(query, at) == name_end(query, at + 1 + query[at]),
{
}

/// A datagram of 12 to 496 bytes is answered if it is no response and asks something,
/// and its first question, the name from 12 on with its zero and four bytes more, is
/// whole. Anything else is not answered, and the reply buffer stays as it was.
pub proof fn questions_are_answered(query: &[u8], out: &mut [u8; 512], r: Option<usize>)
    requires
        call_ensures(answer, (query, out), r),
    ensures
        r is Some <==> 12 <= query@.len() <= 496 && query@[2] < 128 && (query@[4] != 0 || query@[5]
            != 0) && name_end(query@, 12) + 5 <= query@.len(),
        r is None ==> final(out)@ == old(out)@,
{
}

/// An answer holds the id of the query, the flags of a response without an error, one
/// question and one answer, the question as it was asked, and an address record for the
/// asked name with 60 seconds to live and the address 192.168.4.1.
pub proof fn answers_are_laid_out(query: &[u8], out: &mut [u8; 512], len: usize)
    requires
        call_ensures(answer, (query, out), Some(len)),
    ensures
        ({
            let end = name_end(query@, 12) + 5;
            let reply = final(out)@.take(len as int);
            &&& len == end + 16
            &&& reply.take(2) == query@.take(2)
            &&& reply.subrange(2, 12) == seq![0x81u8, 0x80, 0, 1, 0, 1, 0, 0, 0, 0]
            &&& reply.subrange(12, end) == query@.subrange(12, end)
            &&& reply.skip(end) == seq![
                0xC0u8,
                0x0C,
                0,
                1,
                0,
                1,
                0,
                0,
                0,
                60,
                0,
                4,
                192,
                168,
                4,
                1,
            ]
        }),
{
    lemma_name_end(query@, 12);
    let end = name_end(query@, 12) + 5;
    assert(AP_IP@ =~= seq![192u8, 168, 4, 1]);
    assert(final(out)@.take(len as int) =~= reply(query@));
    let r = reply(query@);
    assert(r.take(2) =~= query@.take(2));
    assert(r.subrange(2, 12) =~= seq![0x81u8, 0x80, 0, 1, 0, 1, 0, 0, 0, 0]);
    assert(r.subrange(12, end) =~= query@.subrange(12, end));
    assert(r.skip(end) =~= answer_record());
}

} // verus!
