//! Hexadecimal text.
use crate::bounded::Text;
use crate::octets;
use vstd::prelude::*;

verus! {

/// A digit in lower case.
pub open spec fn lower_digit(n: int) -> u8 {
    if n < 10 {
        (48 + n) as u8
    } else {
        (97 + n - 10) as u8
    }
}

/// A digit in upper case.
pub open spec fn upper_digit(n: int) -> u8 {
    if n < 10 {
        (48 + n) as u8
    } else {
        (65 + n - 10) as u8
    }
}

/// Two lower case digits for each byte.
pub open spec fn lower(data: Seq<u8>) -> Seq<u8> {
    Seq::new(
        2 * data.len(),
        |i: int|
            if i % 2 == 0 {
                lower_digit(data[i / 2] as int / 16)
            } else {
                lower_digit(data[i / 2] as int % 16)
            },
    )
}

/// Two upper case digits for each byte.
pub open spec fn upper(data: Seq<u8>) -> Seq<u8> {
    Seq::new(
        2 * data.len(),
        |i: int|
            if i % 2 == 0 {
                upper_digit(data[i / 2] as int / 16)
            } else {
                upper_digit(data[i / 2] as int % 16)
            },
    )
}

/// The value of a digit in either case.
pub open spec fn value(b: u8) -> Option<u8> {
    if 48 <= b <= 57 {
        Some((b - 48) as u8)
    } else if 97 <= b <= 102 {
        Some((b - 97 + 10) as u8)
    } else if 65 <= b <= 70 {
        Some((b - 65 + 10) as u8)
    } else {
        None
    }
}

/// Whether a text is digits in pairs.
pub open spec fn is_hex(text: Seq<u8>) -> bool {
    text.len() % 2 == 0 && forall|i: int| 0 <= i < text.len() ==> value(#[trigger] text[i]) is Some
}

/// The bytes behind digits in pairs.
pub open spec fn bytes_of(text: Seq<u8>) -> Seq<u8> {
    Seq::new(
        text.len() / 2,
        |i: int| (16 * value(text[2 * i])->Some_0 + value(text[2 * i + 1])->Some_0) as u8,
    )
}

/// The digits of a byte string are read back as that byte string.
pub proof fn hex_round_trip(data: Seq<u8>)
    ensures
        is_hex(lower(data)),
        bytes_of(lower(data)) == data,
        is_hex(upper(data)),
        bytes_of(upper(data)) == data,
{
    let l = lower(data);
    let u = upper(data);
    assert forall|i: int| 0 <= i < l.len() implies value(#[trigger] l[i]) is Some by {}
    assert forall|i: int| 0 <= i < u.len() implies value(#[trigger] u[i]) is Some by {}
    assert forall|i: int| 0 <= i < data.len() implies bytes_of(l)[i] == data[i] && bytes_of(u)[i]
        == data[i] by {
        assert((2 * i) / 2 == i && (2 * i) % 2 == 0);
        assert((2 * i + 1) / 2 == i && (2 * i + 1) % 2 == 1);
    }
    assert(bytes_of(l) =~= data);
    assert(bytes_of(u) =~= data);
}

/// A digit in lower case.
fn low(n: u8) -> (r: u8)
    requires
        n < 16,
    ensures
        r == lower_digit(n as int),
{
    if n < 10 {
        48 + n
    } else {
        97 + (n - 10)
    }
}

/// A digit in upper case.
fn up(n: u8) -> (r: u8)
    requires
        n < 16,
    ensures
        r == upper_digit(n as int),
{
    if n < 10 {
        48 + n
    } else {
        65 + (n - 10)
    }
}

/// The value of a digit in either case.
pub fn digit(b: u8) -> (r: Option<u8>)
    ensures
        r == value(b),
        r matches Some(v) ==> v < 16,
{
    if 48 <= b && b <= 57 {
        Some(b - 48)
    } else if 97 <= b && b <= 102 {
        Some(b - 97 + 10)
    } else if 65 <= b && b <= 70 {
        Some(b - 65 + 10)
    } else {
        None
    }
}

/// Two lower case digits for each byte.
pub fn to_lower(data: &[u8]) -> (r: Vec<u8>)
    ensures
        r@ == lower(data@),
{
    let mut out: Vec<u8> = Vec::new();
    let mut i: usize = 0;
    while i < data.len()
        invariant
            i <= data@.len(),
            out@ =~= lower(data@.take(i as int)),
        decreases data@.len() - i,
    {
        let b: u8 = data[i];
        out.push(low(b / 16));
        out.push(low(b % 16));
        i = i + 1;
    }
    assert(data@.take(i as int) =~= data@);
    out
}

/// Two upper case digits for each byte.
pub fn to_upper(data: &[u8]) -> (r: Vec<u8>)
    ensures
        r@ == upper(data@),
{
    let mut out: Vec<u8> = Vec::new();
    let mut i: usize = 0;
    while i < data.len()
        invariant
            i <= data@.len(),
            out@ =~= upper(data@.take(i as int)),
        decreases data@.len() - i,
    {
        let b: u8 = data[i];
        out.push(up(b / 16));
        out.push(up(b % 16));
        i = i + 1;
    }
    assert(data@.take(i as int) =~= data@);
    out
}

/// A device id in upper case hex, as characters.
pub open spec fn device_chars(device_id: Seq<u8>) -> Seq<char> {
    octets::ascii_chars(upper(device_id))
}

/// A name derived from a device id: a prefix, the id in upper case hex, and a
/// suffix.
pub fn device_name(prefix: &str, device_id: [u8; 3], suffix: &str) -> (r: Text<32>)
    requires
        octets::utf8(prefix@).len() + octets::utf8(suffix@).len() <= 26,
    ensures
        r@ == prefix@ + device_chars(device_id@) + suffix@,
{
    let digits: Vec<u8> = to_upper(&device_id);
    proof {
        octets::lemma_ascii(digits@);
    }
    let id: &str = octets::ascii_text(digits.as_slice());
    let mut name: Text<32> = Text::new();
    proof {
        octets::lemma_utf8_concat(prefix@, id@);
        octets::lemma_utf8_empty(name@);
    }
    let _ = name.push_str(prefix);
    assert(name@ =~= prefix@);
    let _ = name.push_str(id);
    let _ = name.push_str(suffix);
    name
}

/// The digits `0` to `9` stand for their value, and `a` to `f` in either case for
/// ten to fifteen; nothing else is a digit.
pub proof fn hex_digits(b: u8)
    ensures
        value(b) is Some <==> 48 <= b <= 57 || 65 <= b <= 70 || 97 <= b <= 102,
        48 <= b <= 57 ==> value(b) == Some((b - 48) as u8),
        65 <= b <= 70 ==> value(b) == Some((b - 55) as u8),
        97 <= b <= 102 ==> value(b) == Some((b - 87) as u8),
        value(b) matches Some(v) ==> v < 16,
{
}

/// Each byte is spelled by two digits, the high one first, in lower case or in
/// upper case.
pub proof fn bytes_are_spelled_by_two_digits(data: Seq<u8>, i: int)
    requires
        0 <= i < data.len(),
    ensures
        lower(data).len() == 2 * data.len(),
        upper(data).len() == 2 * data.len(),
        value(lower(data)[2 * i]) == Some((data[i] / 16) as u8),
        value(lower(data)[2 * i + 1]) == Some((data[i] % 16) as u8),
        value(upper(data)[2 * i]) == Some((data[i] / 16) as u8),
        value(upper(data)[2 * i + 1]) == Some((data[i] % 16) as u8),
        lower(data)[2 * i] <= 57 || lower(data)[2 * i] >= 97,
        lower(data)[2 * i + 1] <= 57 || lower(data)[2 * i + 1] >= 97,
        upper(data)[2 * i] <= 70,
        upper(data)[2 * i + 1] <= 70,
{
    assert((2 * i) / 2 == i && (2 * i) % 2 == 0);
    assert((2 * i + 1) / 2 == i && (2 * i + 1) % 2 == 1);
}

/// Bytes are spelled with the digits `0` to `9` and `a` to `f`, or `A` to `F`, the high
/// half of each byte first; a digit has the value that it spells.
pub proof fn digits_are_written_and_read(
    data: &[u8],
    small: Vec<u8>,
    capital: Vec<u8>,
    i: int,
    b: u8,
    r: Option<u8>,
)
    requires
        call_ensures(to_lower, (data,), small),
        call_ensures(to_upper, (data,), capital),
        call_ensures(digit, (b,), r),
        0 <= i < data@.len(),
    ensures
        small@.len() == 2 * data@.len(),
        capital@.len() == 2 * data@.len(),
        ({
            let (high, low) = (data@[i] as int / 16, data@[i] as int % 16);
            &&& small@[2 * i] == (if high < 10 { 48 + high } else { 87 + high })
            &&& small@[2 * i + 1] == (if low < 10 { 48 + low } else { 87 + low })
            &&& capital@[2 * i] == (if high < 10 { 48 + high } else { 55 + high })
            &&& capital@[2 * i + 1] == (if low < 10 { 48 + low } else { 55 + low })
        }),
        48 <= b <= 57 ==> r == Some((b - 48) as u8),
        65 <= b <= 70 ==> r == Some((b - 55) as u8),
        97 <= b <= 102 ==> r == Some((b - 87) as u8),
        r is Some ==> 48 <= b <= 57 || 65 <= b <= 70 || 97 <= b <= 102,
{
}

} // verus!
