//! Byte strings: comparison, fixed-width integers and UTF-8.
use vstd::prelude::*;
use vstd::utf8::*;

verus! {

/// The bytes of a text in UTF-8.
pub open spec fn utf8(text: Seq<char>) -> Seq<u8> {
    encode_utf8(text)
}

/// A 16-bit number, low byte first.
pub open spec fn le16(x: u16) -> Seq<u8> {
    seq![(x % 256) as u8, (x / 256) as u8]
}

/// A 16-bit number, high byte first.
pub open spec fn be16(x: u16) -> Seq<u8> {
    seq![(x / 256) as u8, (x % 256) as u8]
}

/// A 32-bit number, low byte first.
pub open spec fn le32(x: u32) -> Seq<u8> {
    seq![
        (x % 256) as u8,
        (x / 256 % 256) as u8,
        (x / 65_536 % 256) as u8,
        (x / 16_777_216) as u8,
    ]
}

/// A 32-bit number, high byte first.
pub open spec fn be32(x: u32) -> Seq<u8> {
    seq![
        (x / 16_777_216) as u8,
        (x / 65_536 % 256) as u8,
        (x / 256 % 256) as u8,
        (x % 256) as u8,
    ]
}

/// The number behind two bytes, low byte first.
pub open spec fn from_le16(lo: u8, hi: u8) -> u16 {
    (lo + 256 * hi) as u16
}

/// The number behind four bytes, lowest first.
pub open spec fn from_le32(a: u8, b: u8, c: u8, d: u8) -> u32 {
    (a + 256 * b + 65_536 * c + 16_777_216 * d) as u32
}

/// Reading two bytes gives back the number that was written.
pub proof fn le16_round_trip(x: u16)
    ensures
        from_le16(le16(x)[0], le16(x)[1]) == x,
{
}

/// Reading four bytes gives back the number that was written.
pub proof fn le32_round_trip(x: u32)
    ensures
        from_le32(le32(x)[0], le32(x)[1], le32(x)[2], le32(x)[3]) == x,
{
}

/// Joins two bytes, low byte first.
pub fn join_le16(lo: u8, hi: u8) -> (r: u16)
    ensures
        r == from_le16(lo, hi),
{
    lo as u16 + 256 * hi as u16
}

/// Joins two bytes, high byte first.
pub fn join_be16(hi: u8, lo: u8) -> (r: u16)
    ensures
        r == from_le16(lo, hi),
{
    lo as u16 + 256 * hi as u16
}

/// Joins four bytes, lowest first.
pub fn join_le32(a: u8, b: u8, c: u8, d: u8) -> (r: u32)
    ensures
        r == from_le32(a, b, c, d),
{
    a as u32 + 256 * b as u32 + 65_536 * c as u32 + 16_777_216 * d as u32
}

/// Appends one byte string to another.
pub fn append(out: &mut Vec<u8>, bytes: &[u8])
    ensures
        final(out)@ == old(out)@ + bytes@,
{
    let ghost before = out@;
    out.extend_from_slice(bytes);
    assert(out@ =~= before + bytes@);
}

/// Appends the UTF-8 bytes of a text.
pub fn append_text(out: &mut Vec<u8>, text: &str)
    ensures
        final(out)@ == old(out)@ + utf8(text@),
{
    append(out, text.as_bytes());
}

/// Appends a 16-bit number, low byte first.
pub fn append_le16(out: &mut Vec<u8>, x: u16)
    ensures
        final(out)@ == old(out)@ + le16(x),
{
    let ghost before = out@;
    out.push((x % 256) as u8);
    out.push((x / 256) as u8);
    assert(out@ =~= before + le16(x));
}

/// Appends a 16-bit number, high byte first.
pub fn append_be16(out: &mut Vec<u8>, x: u16)
    ensures
        final(out)@ == old(out)@ + be16(x),
{
    let ghost before = out@;
    out.push((x / 256) as u8);
    out.push((x % 256) as u8);
    assert(out@ =~= before + be16(x));
}

/// Appends a 32-bit number, low byte first.
pub fn append_le32(out: &mut Vec<u8>, x: u32)
    ensures
        final(out)@ == old(out)@ + le32(x),
{
    let ghost before = out@;
    out.push((x % 256) as u8);
    out.push((x / 256 % 256) as u8);
    out.push((x / 65_536 % 256) as u8);
    out.push((x / 16_777_216) as u8);
    assert(out@ =~= before + le32(x));
}

/// Appends a 32-bit number, high byte first.
pub fn append_be32(out: &mut Vec<u8>, x: u32)
    ensures
        final(out)@ == old(out)@ + be32(x),
{
    let ghost before = out@;
    out.push((x / 16_777_216) as u8);
    out.push((x / 65_536 % 256) as u8);
    out.push((x / 256 % 256) as u8);
    out.push((x % 256) as u8);
    assert(out@ =~= before + be32(x));
}

/// A copy of a byte string.
pub fn copied(bytes: &[u8]) -> (r: Vec<u8>)
    ensures
        r@ == bytes@,
{
    let mut out: Vec<u8> = Vec::new();
    append(&mut out, bytes);
    assert(out@ =~= bytes@);
    out
}

/// A copy of the bytes from `from` up to `to`.
pub fn part(bytes: &[u8], from: usize, to: usize) -> (r: Vec<u8>)
    requires
        from <= to <= bytes@.len(),
    ensures
        r@ == bytes@.subrange(from as int, to as int),
{
    copied(&bytes[from..to])
}

/// Whether two byte strings are equal.
pub fn equal(a: &[u8], b: &[u8]) -> (r: bool)
    ensures
        r == (a@ == b@),
{
    if a.len() != b.len() {
        return false;
    }
    let mut i: usize = 0;
    while i < a.len()
        invariant
            a@.len() == b@.len(),
            0 <= i <= a@.len(),
            forall|k: int| 0 <= k < i ==> a@[k] == b@[k],
        decreases a@.len() - i,
    {
        if a[i] != b[i] {
            return false;
        }
        i = i + 1;
    }
    assert(a@ =~= b@);
    true
}

/// Whether two texts are equal.
pub fn same_text(a: &str, b: &str) -> (r: bool)
    ensures
        r == (a@ == b@),
{
    proof {
        encode_utf8_decode_utf8(a@);
        encode_utf8_decode_utf8(b@);
    }
    equal(a.as_bytes(), b.as_bytes())
}

/// Only the empty text has no bytes.
pub proof fn lemma_utf8_empty(text: Seq<char>)
    ensures
        (utf8(text).len() == 0) == (text.len() == 0),
{
    encode_utf8_decode_utf8(text);
    encode_utf8_decode_utf8(Seq::<char>::empty());
    if utf8(text).len() == 0 {
        assert(utf8(text) =~= Seq::<u8>::empty());
        assert(utf8(Seq::<char>::empty()) =~= Seq::<u8>::empty());
    } else if text.len() == 0 {
        assert(text =~= Seq::<char>::empty());
    }
}

/// The bytes of two texts in a row.
pub proof fn lemma_utf8_concat(a: Seq<char>, b: Seq<char>)
    ensures
        utf8(a + b) == utf8(a) + utf8(b),
    decreases a.len(),
{
    if a.len() == 0 {
        assert(a + b =~= b);
        assert(utf8(a) + utf8(b) =~= utf8(b));
    } else {
        assert((a + b).drop_first() =~= a.drop_first() + b);
        lemma_utf8_concat(a.drop_first(), b);
        assert(utf8(a + b) =~= utf8(a) + utf8(b));
    }
}

/// Cutting valid UTF-8 before and behind an ASCII byte leaves valid UTF-8.
pub proof fn lemma_cut_at_ascii(text: Seq<u8>, at: int)
    requires
        valid_utf8(text),
        0 <= at < text.len(),
        text[at] < 128,
    ensures
        valid_utf8(text.take(at)),
        valid_utf8(text.skip(at + 1)),
{
    is_char_boundary_iff_is_leading_byte(text, at);
    assert(is_leading_byte_width_1(text[at]));
    valid_utf8_split(text, at);
    let rest = text.subrange(at, text.len() as int);
    assert(text.take(at) =~= text.subrange(0, at));
    assert(rest[0] == text[at]);
    assert(length_of_first_scalar(rest) == 1);
    assert(pop_first_scalar(rest) =~= text.skip(at + 1));
}

/// ASCII bytes as characters.
pub open spec fn ascii_chars(bytes: Seq<u8>) -> Seq<char> {
    bytes.map_values(|b: u8| b as char)
}

/// ASCII bytes are valid UTF-8, each of them one character.
pub proof fn lemma_ascii(bytes: Seq<u8>)
    requires
        forall|i: int| 0 <= i < bytes.len() ==> #[trigger] bytes[i] < 128,
    ensures
        utf8(ascii_chars(bytes)) == bytes,
        valid_utf8(bytes),
{
    let chars = ascii_chars(bytes);
    assert forall|i: int| 0 <= i < chars.len() implies '\0' <= #[trigger] chars[i] <= '\u{7f}' by {
        assert(bytes[i] < 128);
    }
    is_ascii_chars_encode_utf8(chars);
    assert forall|i: int| 0 <= i < bytes.len() implies utf8(chars)[i] == bytes[i] by {
        assert(bytes[i] < 128);
        assert(chars[i] as u8 == utf8(chars)[i]);
    }
    assert(utf8(chars) =~= bytes);
    encode_utf8_valid_utf8(chars);
}

/// ASCII bytes as a text.
pub fn ascii_text(bytes: &[u8]) -> (r: &str)
    requires
        forall|i: int| 0 <= i < bytes@.len() ==> #[trigger] bytes@[i] < 128,
    ensures
        r@ == ascii_chars(bytes@),
{
    proof {
        lemma_ascii(bytes@);
        encode_utf8_decode_utf8(ascii_chars(bytes@));
    }
    match text_of(bytes) {
        Some(text) => {
            proof {
                encode_utf8_decode_utf8(text@);
            }
            text
        },
        None => "",
    }
}

/// Whether `bytes` holds `needle` at `at`.
pub open spec fn holds_at(bytes: Seq<u8>, needle: Seq<u8>, at: int) -> bool {
    0 <= at && at + needle.len() <= bytes.len() && bytes.subrange(at, at + needle.len()) == needle
}

/// Where `needle` first occurs in `bytes` at `from` or later, if it does.
pub open spec fn first_at(bytes: Seq<u8>, needle: Seq<u8>, from: int) -> Option<int>
    decreases bytes.len() + 1 - from,
{
    if from + needle.len() > bytes.len() {
        None
    } else if holds_at(bytes, needle, from) {
        Some(from)
    } else {
        first_at(bytes, needle, from + 1)
    }
}

/// What `first_at` finds is an occurrence, and the first.
pub proof fn lemma_first_at(bytes: Seq<u8>, needle: Seq<u8>, from: int)
    requires
        0 <= from,
    ensures
        match first_at(bytes, needle, from) {
            Some(at) => from <= at && holds_at(bytes, needle, at) && forall|k: int|
                from <= k < at ==> !holds_at(bytes, needle, k),
            None => forall|k: int| from <= k ==> !holds_at(bytes, needle, k),
        },
    decreases bytes.len() + 1 - from,
{
    if from + needle.len() <= bytes.len() && !holds_at(bytes, needle, from) {
        lemma_first_at(bytes, needle, from + 1);
    }
}

/// Where `needle` first occurs in `bytes` at `from` or later, if it does.
pub fn find(bytes: &[u8], needle: &[u8], from: usize) -> (r: Option<usize>)
    ensures
        match r {
            Some(at) => first_at(bytes@, needle@, from as int) == Some(at as int) && from <= at
                && holds_at(bytes@, needle@, at as int),
            None => first_at(bytes@, needle@, from as int) is None,
        },
{
    let total: usize = bytes.len();
    let mut i: usize = from;
    while i <= total && needle.len() <= total - i
        invariant
            total == bytes@.len(),
            from <= i,
            i <= total + 1 || i == from,
            first_at(bytes@, needle@, from as int) == first_at(bytes@, needle@, i as int),
        decreases total + 1 - i,
    {
        if equal(&bytes[i..i + needle.len()], needle) {
            return Some(i);
        }
        proof {
            if i == total {
                assert(bytes@.subrange(i as int, i as int) =~= needle@);
            }
        }
        i = i + 1;
    }
    None
}

/// The byte string up to the first `needle`, or all of it.
pub open spec fn before(bytes: Seq<u8>, needle: Seq<u8>) -> Seq<u8> {
    match first_at(bytes, needle, 0) {
        Some(at) => bytes.take(at),
        None => bytes,
    }
}

/// The text behind a byte string in UTF-8, by `core::str::from_utf8`: the text
/// exactly when the bytes are valid UTF-8, and then it has those bytes.
#[verifier::external_body]
pub(crate) fn text_of(bytes: &[u8]) -> (r: Option<&str>)
    ensures
        match r {
            Some(text) => utf8(text@) == bytes@ && valid_utf8(bytes@),
            None => !valid_utf8(bytes@),
        },
{
    core::str::from_utf8(bytes).ok()
}

/// Whether a byte string occurs in another.
pub open spec fn has(bytes: Seq<u8>, part: Seq<u8>) -> bool {
    exists|at: int| #[trigger] holds_at(bytes, part, at)
}

/// What occurs in a byte string occurs in a longer one.
pub broadcast proof fn has_in_longer(bytes: Seq<u8>, more: Seq<u8>, part: Seq<u8>)
    requires
        has(bytes, part),
    ensures
        #[trigger] has(bytes + more, part),
{
    let at = choose|at: int| #[trigger] holds_at(bytes, part, at);
    assert((bytes + more).subrange(at, at + part.len()) =~= bytes.subrange(at, at + part.len()));
    assert(holds_at(bytes + more, part, at));
}

/// Three byte strings in a row at the end of another occur in it.
pub broadcast proof fn has_at_the_end(bytes: Seq<u8>, a: Seq<u8>, b: Seq<u8>, c: Seq<u8>)
    ensures
        #[trigger] has(bytes + a + b + c, a + b + c),
{
    let whole = bytes + a + b + c;
    let part = a + b + c;
    assert(whole.subrange(bytes.len() as int, (bytes.len() + part.len()) as int) =~= part);
    assert(holds_at(whole, part, bytes.len() as int));
}

/// A byte string occurs at the start of itself and any more.
pub broadcast proof fn has_at_the_start(a: Seq<u8>, b: Seq<u8>, c: Seq<u8>)
    ensures
        #[trigger] has(a + b + c, a + b + c),
{
    assert((a + b + c).subrange(0, (a + b + c).len() as int) =~= a + b + c);
    assert(holds_at(a + b + c, a + b + c, 0));
}

/// Numbers of several bytes are read in their order: little endian with the low
/// byte first, big endian with the high byte first.
pub proof fn byte_orders(x: u16, y: u32)
    ensures
        le16(x).len() == 2 && le16(x)[0] + 256 * le16(x)[1] == x,
        be16(x).len() == 2 && 256 * be16(x)[0] + be16(x)[1] == x,
        le32(y).len() == 4 && le32(y)[0] + 256 * le32(y)[1] + 65_536 * le32(y)[2] + 16_777_216
            * le32(y)[3] == y,
        be32(y).len() == 4 && 16_777_216 * be32(y)[0] + 65_536 * be32(y)[1] + 256 * be32(y)[2]
            + be32(y)[3] == y,
{
}

/// Joining bytes is the inverse of the byte orders.
pub proof fn bytes_are_joined(a: u8, b: u8, c: u8, d: u8, low_first: u16, high_first: u16, word: u32)
    requires
        call_ensures(join_le16, (a, b), low_first),
        call_ensures(join_be16, (a, b), high_first),
        call_ensures(join_le32, (a, b, c, d), word),
    ensures
        low_first == a + 256 * b,
        high_first == 256 * a + b,
        word == a + 256 * b + 65_536 * c + 16_777_216 * d,
{
}

/// A number is appended in the order that the name says, behind what was there.
pub proof fn numbers_are_appended(
    p: &mut Vec<u8>,
    q: &mut Vec<u8>,
    s: &mut Vec<u8>,
    t: &mut Vec<u8>,
    x: u16,
    y: u32,
)
    requires
        call_ensures(append_le16, (p, x), ()),
        call_ensures(append_be16, (q, x), ()),
        call_ensures(append_le32, (s, y), ()),
        call_ensures(append_be32, (t, y), ()),
    ensures
        ({
            let n = old(p)@.len() as int;
            &&& final(p)@.len() == n + 2
            &&& final(p)@.take(n) == old(p)@
            &&& final(p)@[n] + 256 * final(p)@[n + 1] == x
        }),
        ({
            let n = old(q)@.len() as int;
            &&& final(q)@.len() == n + 2
            &&& final(q)@.take(n) == old(q)@
            &&& 256 * final(q)@[n] + final(q)@[n + 1] == x
        }),
        ({
            let n = old(s)@.len() as int;
            &&& final(s)@.len() == n + 4
            &&& final(s)@.take(n) == old(s)@
            &&& final(s)@[n] + 256 * final(s)@[n + 1] + 65_536 * final(s)@[n + 2] + 16_777_216
                * final(s)@[n + 3] == y
        }),
        ({
            let n = old(t)@.len() as int;
            &&& final(t)@.len() == n + 4
            &&& final(t)@.take(n) == old(t)@
            &&& 16_777_216 * final(t)@[n] + 65_536 * final(t)@[n + 1] + 256 * final(t)@[n + 2]
                + final(t)@[n + 3] == y
        }),
{
    byte_orders(x, y);
    let (n, m, k, l) = (
        old(p)@.len() as int,
        old(q)@.len() as int,
        old(s)@.len() as int,
        old(t)@.len() as int,
    );
    assert(final(p)@[n] == le16(x)[0] && final(p)@[n + 1] == le16(x)[1]);
    assert(final(q)@[m] == be16(x)[0] && final(q)@[m + 1] == be16(x)[1]);
    assert(final(s)@[k] == le32(y)[0] && final(s)@[k + 1] == le32(y)[1] && final(s)@[k + 2]
        == le32(y)[2] && final(s)@[k + 3] == le32(y)[3]);
    assert(final(t)@[l] == be32(y)[0] && final(t)@[l + 1] == be32(y)[1] && final(t)@[l + 2]
        == be32(y)[2] && final(t)@[l + 3] == be32(y)[3]);
    assert(final(p)@.take(n) =~= old(p)@);
    assert(final(q)@.take(m) =~= old(q)@);
    assert(final(s)@.take(k) =~= old(s)@);
    assert(final(t)@.take(l) =~= old(t)@);
}

/// What is found is the first occurrence from the given place on, and nothing is found
/// only where there is none.
pub proof fn the_first_occurrence_is_found(
    bytes: &[u8],
    needle: &[u8],
    from: usize,
    r: Option<usize>,
)
    requires
        call_ensures(find, (bytes, needle, from), r),
    ensures
        r matches Some(at) ==> from <= at && at + needle@.len() <= bytes@.len() && bytes@.subrange(
            at as int,
            at + needle@.len(),
        ) == needle@ && forall|k: int| from <= k < at ==> !holds_at(bytes@, needle@, k),
        r is None ==> forall|k: int| from <= k ==> !holds_at(bytes@, needle@, k),
{
    lemma_first_at(bytes@, needle@, from as int);
}

} // verus!
