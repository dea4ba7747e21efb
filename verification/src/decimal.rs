//! Numbers in decimal notation.
//!
//! Account ids and timestamps cross the wire as decimal numbers. A number is
//! written with its digits alone, without a sign and without leading zeros.
//! It is read more liberally: a plus sign may stand in front, and zeros may
//! lead. Anything else, and any number above the largest id, is no number.

use vstd::prelude::*;

verus! {

/// The character of the digit `d`.
pub open spec fn digit(d: nat) -> char
    recommends
        d < 10,
{
    if d == 0 {
        '0'
    } else if d == 1 {
        '1'
    } else if d == 2 {
        '2'
    } else if d == 3 {
        '3'
    } else if d == 4 {
        '4'
    } else if d == 5 {
        '5'
    } else if d == 6 {
        '6'
    } else if d == 7 {
        '7'
    } else if d == 8 {
        '8'
    } else {
        '9'
    }
}

/// The value of a digit character; `None` for any other character.
pub open spec fn digit_value(c: char) -> Option<nat> {
    if c == '0' {
        Some(0)
    } else if c == '1' {
        Some(1)
    } else if c == '2' {
        Some(2)
    } else if c == '3' {
        Some(3)
    } else if c == '4' {
        Some(4)
    } else if c == '5' {
        Some(5)
    } else if c == '6' {
        Some(6)
    } else if c == '7' {
        Some(7)
    } else if c == '8' {
        Some(8)
    } else if c == '9' {
        Some(9)
    } else {
        None
    }
}

/// `n` in decimal notation.
pub open spec fn decimal(n: nat) -> Seq<char>
    decreases n,
{
    if n < 10 {
        seq![digit(n)]
    } else {
        decimal(n / 10).push(digit(n % 10))
    }
}

/// The number that a text of digits stands for; `None` where the text holds
/// anything but digits. The empty text stands for zero.
pub open spec fn digits_value(s: Seq<char>) -> Option<nat>
    decreases s.len(),
{
    if s.len() == 0 {
        Some(0)
    } else {
        match (digits_value(s.drop_last()), digit_value(s.last())) {
            (Some(high), Some(low)) => Some(high * 10 + low),
            _ => None,
        }
    }
}

/// The digits of a number as it may be written: what follows an optional plus
/// sign.
pub open spec fn unsigned_part(s: Seq<char>) -> Seq<char> {
    if s.len() > 0 && s[0] == '+' {
        s.skip(1)
    } else {
        s
    }
}

/// The account id that a text stands for: an optional plus sign, then at least
/// one digit and nothing but digits, with a value of at most `u32::MAX`.
pub open spec fn id_from(s: Seq<char>) -> Option<u32> {
    let digits = unsigned_part(s);
    if digits.len() == 0 {
        None
    } else {
        match digits_value(digits) {
            Some(value) => if value <= u32::MAX {
                Some(value as u32)
            } else {
                None
            },
            None => None,
        }
    }
}

/// A number in decimal notation has at least one character, all of them
/// digits, and stands for the number.
pub proof fn lemma_decimal_value(n: nat)
    ensures
        decimal(n).len() >= 1,
        digits_value(decimal(n)) == Some(n),
        decimal(n)[0] != '+',
    decreases n,
{
    if n < 10 {
        assert(decimal(n).drop_last() =~= Seq::<char>::empty());
        assert(digits_value(decimal(n).drop_last()) == Some(0nat));
    } else {
        lemma_decimal_value(n / 10);
        assert(decimal(n).drop_last() =~= decimal(n / 10));
    }
}

/// A number in decimal notation holds nothing but digits.
pub proof fn lemma_decimal_digits(n: nat)
    ensures
        forall|i: int| 0 <= i < decimal(n).len() ==> digit_value(#[trigger] decimal(n)[i]) is Some,
    decreases n,
{
    if n >= 10 {
        lemma_decimal_digits(n / 10);
    }
}

/// Reading an id that was written in decimal notation gives the id.
pub proof fn lemma_id_round_trip(id: u32)
    ensures
        id_from(decimal(id as nat)) == Some(id),
{
    lemma_decimal_value(id as nat);
}

/// A text of digits stands for at least as much as each of its beginnings.
pub proof fn lemma_digits_value_grows(s: Seq<char>, k: int)
    requires
        0 <= k <= s.len(),
    ensures
        digits_value(s) matches Some(whole) ==> digits_value(s.take(k)) matches Some(part) && part
            <= whole,
    decreases s.len(),
{
    if k == s.len() {
        assert(s.take(k) =~= s);
    } else {
        lemma_digits_value_grows(s.drop_last(), k);
        assert(s.drop_last().take(k) =~= s.take(k));
    }
}

/// The digit character of `d`.
fn digit_char(d: u64) -> (c: char)
    requires
        d < 10,
    ensures
        c == digit(d as nat),
{
    if d == 0 {
        '0'
    } else if d == 1 {
        '1'
    } else if d == 2 {
        '2'
    } else if d == 3 {
        '3'
    } else if d == 4 {
        '4'
    } else if d == 5 {
        '5'
    } else if d == 6 {
        '6'
    } else if d == 7 {
        '7'
    } else if d == 8 {
        '8'
    } else {
        '9'
    }
}

/// The value of the digit character `c`.
fn char_digit(c: char) -> (d: Option<u64>)
    ensures
        match d {
            Some(d) => d < 10 && digit_value(c) == Some(d as nat),
            None => digit_value(c) is None,
        },
{
    if c == '0' {
        Some(0)
    } else if c == '1' {
        Some(1)
    } else if c == '2' {
        Some(2)
    } else if c == '3' {
        Some(3)
    } else if c == '4' {
        Some(4)
    } else if c == '5' {
        Some(5)
    } else if c == '6' {
        Some(6)
    } else if c == '7' {
        Some(7)
    } else if c == '8' {
        Some(8)
    } else if c == '9' {
        Some(9)
    } else {
        None
    }
}

/// The digits of `n` below those in `rest`, which are still to be written.
spec fn high_digits(rest: nat) -> Seq<char> {
    if rest == 0 {
        Seq::<char>::empty()
    } else {
        decimal(rest)
    }
}

/// Writes `n` in decimal notation.
pub fn to_decimal(n: u64) -> (s: String)
    ensures
        s@ == decimal(n as nat),
{
    // The digits from the lowest to the highest.
    let mut low_first: Vec<char> = Vec::new();
    low_first.push(digit_char(n % 10));
    let mut rest = n / 10;
    assert(high_digits(rest as nat) + low_first@.reverse() =~= decimal(n as nat));
    while rest > 0
        invariant
            low_first.len() >= 1,
            high_digits(rest as nat) + low_first@.reverse() == decimal(n as nat),
        decreases rest,
    {
        let ghost written = low_first@.reverse();
        let c = digit_char(rest % 10);
        low_first.push(c);
        proof {
            assert(low_first@.reverse() =~= seq![c] + written);
            assert(decimal(rest as nat) =~= high_digits((rest / 10) as nat).push(c));
            assert(high_digits((rest / 10) as nat) + (seq![c] + written) =~= high_digits(
                (rest / 10) as nat,
            ).push(c) + written);
        }
        rest = rest / 10;
    }
    assert(low_first@.reverse() =~= decimal(n as nat));
    let mut s = String::new();
    let mut i: usize = low_first.len();
    while i > 0
        invariant
            i <= low_first.len(),
            s@ == low_first@.reverse().take(low_first.len() - i),
        decreases i,
    {
        i -= 1;
        s.push(low_first[i]);
        assert(low_first@.reverse().take(low_first.len() - i) =~= low_first@.reverse().take(
            low_first.len() - i - 1,
        ).push(low_first@[i as int]));
    }
    assert(low_first@.reverse().take(low_first.len() as int) =~= low_first@.reverse());
    s
}

/// Reads an account id.
pub fn parse_id(s: &str) -> (id: Option<u32>)
    ensures
        id == id_from(s@),
{
    let chars = crate::text::chars_of(s);
    let start: usize = if chars.len() > 0 && chars[0] == '+' {
        1
    } else {
        0
    };
    let ghost digits = unsigned_part(s@);
    assert(digits =~= chars@.skip(start as int));
    if start == chars.len() {
        return None;
    }
    let mut value: u64 = 0;
    let mut i: usize = start;
    assert(digits.take(0) =~= Seq::<char>::empty());
    while i < chars.len()
        invariant
            start <= i <= chars.len(),
            start < chars.len(),
            digits == unsigned_part(s@),
            digits == chars@.skip(start as int),
            digits_value(digits.take(i - start)) == Some(value as nat),
            value <= u32::MAX,
        decreases chars.len() - i,
    {
        let ghost read = digits.take(i - start + 1);
        proof {
            assert(read.drop_last() =~= digits.take(i - start));
            assert(read.last() == chars@[i as int]);
            lemma_digits_value_grows(digits, i - start + 1);
        }
        match char_digit(chars[i]) {
            Some(d) => {
                value = value * 10 + d;
                if value > 0xffff_ffff {
                    return None;
                }
            },
            None => {
                return None;
            },
        }
        i += 1;
    }
    assert(digits.take(chars.len() - start) =~= digits);
    Some(value as u32)
}

} // verus!
