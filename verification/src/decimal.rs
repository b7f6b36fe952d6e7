//! Decimal numbers as text.
use vstd::arithmetic::power::*;
use vstd::prelude::*;

verus! {

/// The digit `0` in ASCII.
pub const ZERO: u8 = 48;

/// The ASCII digits of a number, without leading zeros.
pub open spec fn digits(n: nat) -> Seq<u8>
    decreases n,
{
    if n < 10 {
        seq![(ZERO + n) as u8]
    } else {
        digits(n / 10).push((ZERO + n % 10) as u8)
    }
}

/// The ASCII text of a signed number.
pub open spec fn signed(n: int) -> Seq<u8> {
    if n < 0 {
        seq![45u8] + digits((-n) as nat)
    } else {
        digits(n as nat)
    }
}

/// Appends a number in decimal.
pub fn append(out: &mut Vec<u8>, n: u64)
    ensures
        final(out)@ == old(out)@ + digits(n as nat),
    decreases n,
{
    let ghost before = out@;
    if n < 10 {
        out.push(ZERO + n as u8);
        assert(out@ =~= before + digits(n as nat));
    } else {
        append(out, n / 10);
        out.push(ZERO + (n % 10) as u8);
        assert(out@ =~= before + digits(n as nat));
    }
}

/// Appends a signed number in decimal.
pub fn append_signed(out: &mut Vec<u8>, n: i32)
    ensures
        final(out)@ == old(out)@ + signed(n as int),
{
    let ghost before = out@;
    if n < 0 {
        out.push(45);
        append(out, (-(n as i64)) as u64);
    } else {
        append(out, n as u64);
    }
    assert(out@ =~= before + signed(n as int));
}

/// A number below a power of ten has no more digits than its exponent.
pub proof fn lemma_digits_len(n: nat, k: nat)
    requires
        k >= 1,
        n < pow(10, k),
    ensures
        1 <= digits(n).len() <= k,
    decreases k,
{
    reveal(pow);
    if n >= 10 {
        if k == 1 {
            assert(pow(10, 1) == 10 * pow(10, 0));
            assert(pow(10, 0) == 1);
        } else {
            assert(pow(10, k) == 10 * pow(10, (k - 1) as nat));
            lemma_digits_len(n / 10, (k - 1) as nat);
        }
    }
}

/// Every 32-bit number has at most ten digits, every byte at most three.
pub proof fn lemma_digits_len_u32(n: u32)
    ensures
        1 <= digits(n as nat).len() <= 10,
        n < 1000 ==> digits(n as nat).len() <= 3,
        n < 10_000 ==> digits(n as nat).len() <= 4,
        n < 100_000 ==> digits(n as nat).len() <= 5,
        n < 1_000_000 ==> digits(n as nat).len() <= 6,
{
    reveal_with_fuel(pow, 11);
    assert(pow(10, 3) == 1000);
    assert(pow(10, 4) == 10_000);
    assert(pow(10, 5) == 100_000);
    assert(pow(10, 6) == 1_000_000);
    assert(pow(10, 10) == 10_000_000_000);
    lemma_digits_len(n as nat, 10);
    if n < 1000 {
        lemma_digits_len(n as nat, 3);
    }
    if n < 10_000 {
        lemma_digits_len(n as nat, 4);
    }
    if n < 100_000 {
        lemma_digits_len(n as nat, 5);
    }
    if n < 1_000_000 {
        lemma_digits_len(n as nat, 6);
    }
}

/// Every 64-bit number has at most twenty digits.
pub proof fn lemma_digits_len_u64(n: u64)
    ensures
        1 <= digits(n as nat).len() <= 20,
{
    reveal_with_fuel(pow, 21);
    assert(pow(10, 20) == 100_000_000_000_000_000_000);
    lemma_digits_len(n as nat, 20);
}

/// Whether a byte is an ASCII digit.
pub open spec fn is_digit(b: u8) -> bool {
    ZERO <= b <= 57
}

/// The number behind a string of digits.
pub open spec fn number(text: Seq<u8>) -> nat
    decreases text.len(),
{
    if text.len() == 0 {
        0
    } else {
        number(text.drop_last()) * 10 + (text.last() - ZERO) as nat
    }
}

/// The digits of an unsigned number in text: one leading plus sign may stand
/// before them.
pub open spec fn unsigned_digits(text: Seq<u8>) -> Seq<u8> {
    if text.len() > 1 && text[0] == 43 {
        text.skip(1)
    } else {
        text
    }
}

/// The number that a text spells, if it is a string of one or more digits,
/// with or without a leading plus sign, and no larger than `max`.
pub open spec fn parsed(text: Seq<u8>, max: nat) -> Option<nat> {
    let d = unsigned_digits(text);
    if d.len() > 0 && (forall|i: int| 0 <= i < d.len() ==> is_digit(#[trigger] d[i])) && number(d)
        <= max {
        Some(number(d))
    } else {
        None
    }
}

/// The digits of a number are digits, and spell that number.
pub proof fn lemma_digits_parsed(n: nat)
    ensures
        digits(n).len() > 0,
        forall|i: int| 0 <= i < digits(n).len() ==> is_digit(#[trigger] digits(n)[i]),
        number(digits(n)) == n,
        forall|max: nat| n <= max ==> #[trigger] parsed(digits(n), max) == Some(n),
    decreases n,
{
    if n < 10 {
        let d = digits(n);
        assert(d.drop_last() =~= Seq::<u8>::empty());
        assert(number(d.drop_last()) == 0);
        assert(unsigned_digits(d) == d);
    } else {
        lemma_digits_parsed(n / 10);
        let d = digits(n);
        assert(d.drop_last() =~= digits(n / 10));
        assert(d[0] == digits(n / 10)[0]);
        assert(unsigned_digits(d) == d);
    }
}

/// More digits never make a smaller number.
proof fn lemma_number_grows(text: Seq<u8>, n: int)
    requires
        0 <= n <= text.len(),
        forall|i: int| 0 <= i < text.len() ==> is_digit(#[trigger] text[i]),
    ensures
        number(text.take(n)) <= number(text),
    decreases text.len(),
{
    if n < text.len() {
        lemma_number_grows(text.drop_last(), n);
        assert(text.drop_last().take(n) =~= text.take(n));
    } else {
        assert(text.take(n) =~= text);
    }
}

/// Parses an unsigned number no larger than `max`.
pub fn parse(text: &[u8], max: u64) -> (r: Option<u64>)
    ensures
        match r {
            Some(n) => parsed(text@, max as nat) == Some(n as nat),
            None => parsed(text@, max as nat) is None,
        },
{
    let from: usize = if text.len() > 1 && text[0] == 43 {
        1
    } else {
        0
    };
    let ghost d = unsigned_digits(text@);
    assert(d =~= text@.skip(from as int));
    if text.len() == from {
        return None;
    }
    let mut value: u64 = 0;
    let mut i: usize = from;
    assert(d.take(0) =~= Seq::<u8>::empty());
    while i < text.len()
        invariant
            from <= i <= text@.len(),
            d == text@.skip(from as int),
            d == unsigned_digits(text@),
            d.len() > 0,
            value as nat == number(d.take(i - from)),
            value <= max,
            forall|k: int| 0 <= k < i - from ==> is_digit(#[trigger] d[k]),
        decreases text@.len() - i,
    {
        let b: u8 = text[i];
        assert(d[i - from] == b);
        if b < 48 || b > 57 {
            return None;
        }
        let digit: u64 = (b - 48) as u64;
        proof {
            let t = d.take(i + 1 - from);
            assert(t.drop_last() =~= d.take(i - from));
            assert(t.last() == b);
            assert(number(t) == value * 10 + digit);
            assert forall|k: int| 0 <= k < i + 1 - from implies is_digit(#[trigger] d[k]) by {
                if k == i - from {
                }
            }
            if number(t) > max {
                if forall|k: int| 0 <= k < d.len() ==> is_digit(#[trigger] d[k]) {
                    lemma_number_grows(d, i + 1 - from);
                }
            }
        }
        if digit > max || value > (max - digit) / 10 {
            return None;
        }
        value = value * 10 + digit;
        i = i + 1;
    }
    assert(d.take(d.len() as int) =~= d);
    Some(value)
}

/// A signed number is spelled by its digits, behind a minus sign exactly if it
/// is negative.
pub proof fn signed_numbers_are_spelled(n: int)
    ensures
        n >= 0 ==> signed(n) == digits(n as nat),
        n < 0 ==> signed(n).len() > 1 && signed(n)[0] == 45 && signed(n).skip(1) == digits(
            (-n) as nat,
        ),
        number(digits(if n < 0 {
            -n
        } else {
            n
        } as nat)) == (if n < 0 {
            -n
        } else {
            n
        }),
        digits(0)[0] == 48,
        n > 0 ==> digits(n as nat)[0] != 48,
{
    lemma_digits_parsed(
        if n < 0 {
            (-n) as nat
        } else {
            n as nat
        },
    );
    if n < 0 {
        assert(signed(n).skip(1) =~= digits((-n) as nat));
    }
    if n > 0 {
        lemma_no_leading_zero(n as nat);
    }
}

proof fn lemma_no_leading_zero(n: nat)
    requires
        n > 0,
    ensures
        digits(n)[0] != 48,
    decreases n,
{
    if n >= 10 {
        lemma_no_leading_zero(n / 10);
        lemma_digits_parsed(n / 10);
        assert(digits(n)[0] == digits(n / 10)[0]);
    }
}

/// Digits spell a number in the usual way: another digit multiplies what stands
/// before it by ten.
pub proof fn digits_count_by_tens(text: Seq<u8>, d: u8)
    requires
        48 <= d <= 57,
    ensures
        number(text.push(d)) == 10 * number(text) + (d - 48),
        number(Seq::<u8>::empty()) == 0,
{
    assert(text.push(d).drop_last() =~= text);
}

/// A number is appended in decimal behind what was there, a negative one with a minus
/// sign before its digits.
pub proof fn numbers_are_appended(out: &mut Vec<u8>, n: u64, with_sign: &mut Vec<u8>, m: i32)
    requires
        call_ensures(append, (out, n), ()),
        call_ensures(append_signed, (with_sign, m), ()),
    ensures
        final(out)@ == old(out)@ + digits(n as nat),
        number(digits(n as nat)) == n,
        m >= 0 ==> final(with_sign)@ == old(with_sign)@ + digits(m as nat),
        m < 0 ==> final(with_sign)@ == old(with_sign)@ + (seq![45u8] + digits((-m) as nat)),
{
    lemma_digits_parsed(n as nat);
}

/// What was written is read back, if it is within the limit.
pub proof fn numbers_are_read_back(n: u64, max: u64, text: &[u8], r: Option<u64>)
    requires
        call_ensures(parse, (text, max), r),
        text@ == digits(n as nat),
    ensures
        n <= max ==> r == Some(n),
        n > max ==> r is None,
{
    lemma_digits_parsed(n as nat);
    if r is Some {
        assert(parsed(text@, max as nat) == Some(r->Some_0 as nat));
        assert(parsed(text@, n as nat) == Some(n as nat));
    }
}

/// A text is a number exactly if it is digits, one or more of them, with at most one plus
/// sign before them, and no more than the limit.
pub proof fn only_digits_are_numbers(text: &[u8], max: u64, r: Option<u64>, d: Seq<u8>)
    requires
        call_ensures(parse, (text, max), r),
        text@.len() > 1 && text@[0] == 43 ==> d == text@.skip(1),
        text@.len() <= 1 || text@[0] != 43 ==> d == text@,
    ensures
        r is Some <==> d.len() > 0 && number(d) <= max && forall|i: int|
            0 <= i < d.len() ==> 48 <= #[trigger] d[i] <= 57,
        r matches Some(n) ==> n == number(d),
{
    assert(d == unsigned_digits(text@));
    assert forall|i: int| 0 <= i < d.len() implies is_digit(#[trigger] d[i]) == (48 <= d[i]
        <= 57) by {}
}

} // verus!
