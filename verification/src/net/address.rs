//! IPv4 addresses as text.
use crate::decimal;
use crate::octets;
use vstd::prelude::*;

verus! {

/// The byte between the numbers of an address.
pub const DOT: u8 = 46;

/// An IPv4 address in dotted decimal.
pub open spec fn dotted(ip: Seq<u8>) -> Seq<u8> {
    decimal::digits(ip[0] as nat) + seq![DOT] + decimal::digits(ip[1] as nat) + seq![DOT]
        + decimal::digits(ip[2] as nat) + seq![DOT] + decimal::digits(ip[3] as nat)
}

/// An IPv4 address in dotted decimal.
pub fn dotted_text(ip: &[u8; 4]) -> (r: Vec<u8>)
    ensures
        r@ == dotted(ip@),
{
    let mut out: Vec<u8> = Vec::new();
    decimal::append(&mut out, ip[0] as u64);
    assert(out@ =~= decimal::digits(ip@[0] as nat));
    out.push(DOT);
    assert(out@ =~= decimal::digits(ip@[0] as nat) + seq![DOT]);
    decimal::append(&mut out, ip[1] as u64);
    let ghost two = out@;
    out.push(DOT);
    assert(out@ =~= two + seq![DOT]);
    decimal::append(&mut out, ip[2] as u64);
    let ghost three = out@;
    out.push(DOT);
    assert(out@ =~= three + seq![DOT]);
    decimal::append(&mut out, ip[3] as u64);
    out
}

/// Where the digits that start at a place end.
pub open spec fn digits_end(text: Seq<u8>, at: int) -> int
    decreases text.len() - at,
{
    if 0 <= at < text.len() && decimal::is_digit(text[at]) {
        digits_end(text, at + 1)
    } else {
        at
    }
}

/// Digits end where the first other byte stands, or with the text.
proof fn lemma_digits_end(text: Seq<u8>, at: int, end: int)
    requires
        0 <= at <= end <= text.len(),
        forall|i: int| at <= i < end ==> decimal::is_digit(#[trigger] text[i]),
        end < text.len() ==> !decimal::is_digit(text[end]),
    ensures
        digits_end(text, at) == end,
    decreases end - at,
{
    if at < end {
        lemma_digits_end(text, at + 1, end);
    }
}

/// The number of an address that starts at a place, with the place behind it:
/// all digits from there, without leading zeros, up to 255.
fn octet_at(text: &[u8], at: usize) -> (r: Option<(u8, usize)>)
    requires
        at <= text@.len(),
    ensures
        match r {
            Some((n, end)) => at <= end <= text@.len() && end == digits_end(text@, at as int)
                && text@.subrange(at as int, end as int) == decimal::digits(n as nat),
            None => at <= digits_end(text@, at as int) <= text@.len() && forall|n: u8|
                text@.subrange(at as int, digits_end(text@, at as int)) != #[trigger] decimal::digits(
                    n as nat,
                ),
        },
{
    let mut end: usize = at;
    while end < text.len() && decimal::ZERO <= text[end] && text[end] <= 57
        invariant
            at <= end <= text@.len(),
            forall|i: int| at <= i < end ==> decimal::is_digit(#[trigger] text@[i]),
        decreases text@.len() - end,
    {
        end = end + 1;
    }
    proof {
        lemma_digits_end(text@, at as int, end as int);
    }
    let piece: Vec<u8> = octets::part(text, at, end);
    let n: u64 = match decimal::parse(piece.as_slice(), 255) {
        Some(n) => n,
        None => {
            proof {
                assert forall|n: u8| piece@ != #[trigger] decimal::digits(n as nat) by {
                    decimal::lemma_digits_parsed(n as nat);
                }
            }
            return None;
        },
    };
    let mut spelled: Vec<u8> = Vec::new();
    decimal::append(&mut spelled, n);
    assert(spelled@ =~= decimal::digits(n as nat));
    if !octets::equal(piece.as_slice(), spelled.as_slice()) {
        proof {
            assert forall|m: u8| piece@ != #[trigger] decimal::digits(m as nat) by {
                decimal::lemma_digits_parsed(m as nat);
            }
        }
        return None;
    }
    Some((n as u8, end))
}

/// In an address, the digits of each number end where its dot or the end
/// stands.
proof fn lemma_dotted(text: Seq<u8>, ip: Seq<u8>)
    requires
        ip.len() == 4,
        text == dotted(ip),
    ensures
        ({
            let a = digits_end(text, 0);
            let b = digits_end(text, a + 1);
            let c = digits_end(text, b + 1);
            let d = digits_end(text, c + 1);
            &&& 0 <= a < b < c < d == text.len()
            &&& text[a] == DOT && text[b] == DOT && text[c] == DOT
            &&& text.subrange(0, a) == decimal::digits(ip[0] as nat)
            &&& text.subrange(a + 1, b) == decimal::digits(ip[1] as nat)
            &&& text.subrange(b + 1, c) == decimal::digits(ip[2] as nat)
            &&& text.subrange(c + 1, d) == decimal::digits(ip[3] as nat)
        }),
{
    let p = decimal::digits(ip[0] as nat);
    let q = decimal::digits(ip[1] as nat);
    let r = decimal::digits(ip[2] as nat);
    let s = decimal::digits(ip[3] as nat);
    decimal::lemma_digits_parsed(ip[0] as nat);
    decimal::lemma_digits_parsed(ip[1] as nat);
    decimal::lemma_digits_parsed(ip[2] as nat);
    decimal::lemma_digits_parsed(ip[3] as nat);
    let a = p.len() as int;
    let b = a + 1 + q.len();
    let c = b + 1 + r.len();
    let d = c + 1 + s.len();
    assert(text.subrange(0, a) =~= p);
    assert(text.subrange(a + 1, b) =~= q);
    assert(text.subrange(b + 1, c) =~= r);
    assert(text.subrange(c + 1, d) =~= s);
    assert forall|i: int| 0 <= i < a implies decimal::is_digit(#[trigger] text[i]) by {
        assert(text[i] == p[i]);
    }
    assert forall|i: int| a + 1 <= i < b implies decimal::is_digit(#[trigger] text[i]) by {
        assert(text[i] == q[i - a - 1]);
    }
    assert forall|i: int| b + 1 <= i < c implies decimal::is_digit(#[trigger] text[i]) by {
        assert(text[i] == r[i - b - 1]);
    }
    assert forall|i: int| c + 1 <= i < d implies decimal::is_digit(#[trigger] text[i]) by {
        assert(text[i] == s[i - c - 1]);
    }
    lemma_digits_end(text, 0, a);
    lemma_digits_end(text, a + 1, b);
    lemma_digits_end(text, b + 1, c);
    lemma_digits_end(text, c + 1, d);
}

/// The place behind a dot, if one stands there.
fn behind_dot(text: &[u8], at: usize) -> (r: Option<usize>)
    ensures
        match r {
            Some(next) => next == at + 1 && at < text@.len() && text@[at as int] == DOT,
            None => at >= text@.len() || text@[at as int] != DOT,
        },
{
    if at < text.len() && text[at] == DOT {
        Some(at + 1)
    } else {
        None
    }
}

/// The address that a text spells, if it is one in dotted decimal: four numbers
/// up to 255, without leading zeros and with nothing before, between or behind
/// them but the dots.
pub fn parse_ipv4(host: &str) -> (r: Option<[u8; 4]>)
    ensures
        match r {
            Some(ip) => octets::utf8(host@) == dotted(ip@),
            None => forall|ip: Seq<u8>|
                ip.len() == 4 ==> octets::utf8(host@) != #[trigger] dotted(ip),
        },
{
    let text: &[u8] = host.as_bytes();
    proof {
        assert forall|ip: Seq<u8>| ip.len() == 4 && text@ == #[trigger] dotted(ip) implies ({
            let a = digits_end(text@, 0);
            let b = digits_end(text@, a + 1);
            let c = digits_end(text@, b + 1);
            let d = digits_end(text@, c + 1);
            &&& 0 <= a < b < c < d == text@.len()
            &&& text@[a] == DOT && text@[b] == DOT && text@[c] == DOT
            &&& text@.subrange(0, a) == decimal::digits(ip[0] as nat)
            &&& text@.subrange(a + 1, b) == decimal::digits(ip[1] as nat)
            &&& text@.subrange(b + 1, c) == decimal::digits(ip[2] as nat)
            &&& text@.subrange(c + 1, d) == decimal::digits(ip[3] as nat)
        }) by {
            lemma_dotted(text@, ip);
        }
    }
    let (a, at): (u8, usize) = match octet_at(text, 0) {
        Some(read) => read,
        None => {
            return None;
        },
    };
    let ghost end_a = at;
    let from: usize = match behind_dot(text, at) {
        Some(from) => from,
        None => {
            return None;
        },
    };
    let (b, at): (u8, usize) = match octet_at(text, from) {
        Some(read) => read,
        None => {
            return None;
        },
    };
    let ghost end_b = at;
    let from: usize = match behind_dot(text, at) {
        Some(from) => from,
        None => {
            return None;
        },
    };
    let (c, at): (u8, usize) = match octet_at(text, from) {
        Some(read) => read,
        None => {
            return None;
        },
    };
    let ghost end_c = at;
    let from: usize = match behind_dot(text, at) {
        Some(from) => from,
        None => {
            return None;
        },
    };
    let (d, at): (u8, usize) = match octet_at(text, from) {
        Some(read) => read,
        None => {
            return None;
        },
    };
    if at != text.len() {
        return None;
    }
    let ip: [u8; 4] = [a, b, c, d];
    proof {
        let t = text@;
        let p = t.subrange(0, end_a as int);
        let q = t.subrange(end_a + 1, end_b as int);
        let r = t.subrange(end_b + 1, end_c as int);
        let s = t.subrange(end_c + 1, t.len() as int);
        assert(t =~= p + seq![DOT] + q + seq![DOT] + r + seq![DOT] + s);
        assert(dotted(ip@) =~= p + seq![DOT] + q + seq![DOT] + r + seq![DOT] + s);
    }
    Some(ip)
}

/// An address that is written out is read back.
pub proof fn addresses_read_back(ip: Seq<u8>, other: Seq<u8>)
    requires
        ip.len() == 4,
        other.len() == 4,
        dotted(ip) == dotted(other),
    ensures
        ip == other,
{
    lemma_dotted(dotted(ip), ip);
    lemma_dotted(dotted(ip), other);
    decimal::lemma_digits_parsed(ip[0] as nat);
    decimal::lemma_digits_parsed(ip[1] as nat);
    decimal::lemma_digits_parsed(ip[2] as nat);
    decimal::lemma_digits_parsed(ip[3] as nat);
    decimal::lemma_digits_parsed(other[0] as nat);
    decimal::lemma_digits_parsed(other[1] as nat);
    decimal::lemma_digits_parsed(other[2] as nat);
    decimal::lemma_digits_parsed(other[3] as nat);
    assert(ip =~= other);
}

/// An address is its four numbers in decimal with a dot between each two, in the order
/// of its bytes.
pub proof fn addresses_are_dotted(ip: &[u8; 4], r: Vec<u8>)
    requires
        call_ensures(dotted_text, (ip,), r),
    ensures
        ({
            let a = decimal::digits(ip@[0] as nat).len() as int;
            let b = decimal::digits(ip@[1] as nat).len() as int;
            let c = decimal::digits(ip@[2] as nat).len() as int;
            &&& r@.subrange(0, a) == decimal::digits(ip@[0] as nat)
            &&& r@[a] == 46
            &&& r@.subrange(a + 1, a + 1 + b) == decimal::digits(ip@[1] as nat)
            &&& r@[a + 1 + b] == 46
            &&& r@.subrange(a + b + 2, a + b + 2 + c) == decimal::digits(ip@[2] as nat)
            &&& r@[a + b + 2 + c] == 46
            &&& r@.skip(a + b + c + 3) == decimal::digits(ip@[3] as nat)
        }),
{
    lemma_dotted(r@, ip@);
    let a = decimal::digits(ip@[0] as nat).len() as int;
    let b = decimal::digits(ip@[1] as nat).len() as int;
    let c = decimal::digits(ip@[2] as nat).len() as int;
    assert(digits_end(r@, 0) == a);
    assert(r@.subrange(a + 1, digits_end(r@, a + 1)).len() == b);
    assert(r@.skip(a + b + c + 3) =~= decimal::digits(ip@[3] as nat));
}

} // verus!
