//! JSON text.
use crate::octets;
use vstd::prelude::*;
use vstd::utf8::*;

verus! {

/// A hexadecimal digit in upper case.
pub open spec fn upper_hex(n: int) -> u8 {
    if n <= 9 {
        (48 + n) as u8
    } else {
        (65 + n - 10) as u8
    }
}

/// A character inside a JSON string: the quotation mark, the backslash and
/// control characters are escaped, everything else is UTF-8.
pub open spec fn escaped(c: char) -> Seq<u8> {
    if c == '\\' {
        seq![92u8, 92]
    } else if c == '"' {
        seq![92u8, 34]
    } else if c as int == 8 {
        seq![92u8, 98]
    } else if c as int == 9 {
        seq![92u8, 116]
    } else if c as int == 10 {
        seq![92u8, 110]
    } else if c as int == 12 {
        seq![92u8, 102]
    } else if c as int == 13 {
        seq![92u8, 114]
    } else if (c as int) < 32 {
        seq![92u8, 117, 48, 48, upper_hex(c as int / 16), upper_hex(c as int % 16)]
    } else {
        octets::utf8(seq![c])
    }
}

/// The characters of a text inside a JSON string.
pub open spec fn string_body(text: Seq<char>) -> Seq<u8>
    decreases text.len(),
{
    if text.len() == 0 {
        Seq::empty()
    } else {
        string_body(text.drop_last()) + escaped(text.last())
    }
}

/// A text as a JSON string.
pub open spec fn string(text: Seq<char>) -> Seq<u8> {
    seq![34u8] + string_body(text) + seq![34u8]
}

/// `serde_json_core::to_slice` of a text into a buffer of `room` bytes: the
/// JSON string if it fits, and the error `BufferFull` as `None` otherwise.
#[verifier::external_body]
fn serde_json_text(text: &str, room: usize) -> (r: Option<Vec<u8>>)
    requires
        room <= isize::MAX,
    ensures
        match r {
            Some(json) => json@ == string(text@) && json@.len() <= room,
            None => string(text@).len() > room,
        },
{
    let mut buf = vec![0u8; room];
    let len = serde_json_core::to_slice(text, &mut buf).ok()?;
    buf.truncate(len);
    Some(buf)
}

/// A JSON string is at most six times as long as its text, and two.
proof fn lemma_string_len(text: Seq<char>)
    ensures
        string_body(text).len() <= 6 * text.len(),
        text.len() <= octets::utf8(text).len(),
    decreases text.len(),
{
    if text.len() > 0 {
        lemma_string_len(text.drop_last());
        let last = seq![text.last()];
        assert(text =~= text.drop_last() + last);
        octets::lemma_utf8_concat(text.drop_last(), last);
        reveal_with_fuel(encode_utf8, 2);
        assert(last.drop_first() =~= Seq::<char>::empty());
        assert(1 <= octets::utf8(last).len() <= 4);
    }
}

/// Appends a text as a JSON string.
pub fn append_string(out: &mut Vec<u8>, text: &str)
    requires
        6 * octets::utf8(text@).len() + 2 <= isize::MAX,
    ensures
        final(out)@ == old(out)@ + string(text@),
{
    proof {
        lemma_string_len(text@);
    }
    let room: usize = 6 * text.as_bytes().len() + 2;
    match serde_json_text(text, room) {
        Some(json) => octets::append(out, json.as_slice()),
        None => {},
    }
}

/// Appends a text as a JSON string of at most `cap` bytes. Returns false, and
/// appends nothing, when the string is longer.
pub fn append_within(out: &mut Vec<u8>, text: &str, cap: usize) -> (r: bool)
    requires
        cap <= isize::MAX,
    ensures
        r == (string(text@).len() <= cap),
        r ==> final(out)@ == old(out)@ + string(text@),
        !r ==> final(out)@ == old(out)@,
{
    match serde_json_text(text, cap) {
        Some(json) => {
            octets::append(out, json.as_slice());
            true
        },
        None => false,
    }
}

/// What a buffer of `cap` bytes makes of a JSON text: all of it, or nothing
/// when it does not fit.
pub open spec fn capped(json: Seq<u8>, cap: int) -> Seq<u8> {
    if json.len() <= cap {
        json
    } else {
        Seq::empty()
    }
}

/// A text of printable ASCII characters without quotation mark and backslash.
pub open spec fn plain(text: Seq<char>) -> bool {
    forall|i: int|
        0 <= i < text.len() ==> 32 <= #[trigger] text[i] as int && (text[i] as int) < 127
            && text[i] != '"' && text[i] != '\\'
}

/// A plain text stands in its JSON string as it is.
pub proof fn plain_text_is_only_quoted(text: Seq<char>)
    requires
        plain(text),
    ensures
        string(text) == seq![34u8] + octets::utf8(text) + seq![34u8],
    decreases text.len(),
{
    lemma_plain_body(text);
}

proof fn lemma_plain_body(text: Seq<char>)
    requires
        plain(text),
    ensures
        string_body(text) == octets::utf8(text),
    decreases text.len(),
{
    if text.len() > 0 {
        lemma_plain_body(text.drop_last());
        let last = seq![text.last()];
        assert(text =~= text.drop_last() + last);
        octets::lemma_utf8_concat(text.drop_last(), last);
    } else {
        assert(octets::utf8(text) =~= Seq::<u8>::empty());
    }
}

} // verus!
