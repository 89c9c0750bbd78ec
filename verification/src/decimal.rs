//! Decimal notation of unsigned 32-bit integers: reading and writing.

use vstd::prelude::*;
use vstd::std_specs::iter::IteratorSpec;
use vstd::string::*;

verus! {

/// Why a text is not the decimal notation of a `u32`.
#[derive(Debug, Clone, Copy, PartialEq, Eq, Structural)]
pub enum IntErrorKind {
    /// The text has no characters at all.
    Empty,
    /// The text has a character that is no digit, or only a sign.
    InvalidDigit,
    /// The text is a number, but one above `u32::MAX`.
    PosOverflow,
}

/// Whether `c` is one of the ten ASCII digits.
pub open spec fn is_digit(c: char) -> bool {
    '0' <= c <= '9'
}

/// The number that the digit `c` stands for.
pub open spec fn digit_value(c: char) -> nat
    recommends
        is_digit(c),
{
    (c as int - '0' as int) as nat
}

/// The digit that stands for `d`.
pub open spec fn digit_char(d: nat) -> char
    recommends
        d < 10,
{
    if d == 0 {
        '0'
    } else if d == 1 {
        '1'
    } else if d == 2 {
        '2'
    } else if d == 3 {
        '3'
    } else if d == 4 {
        '4'
    } else if d == 5 {
        '5'
    } else if d == 6 {
        '6'
    } else if d == 7 {
        '7'
    } else if d == 8 {
        '8'
    } else {
        '9'
    }
}

/// Whether every character of `s` is a digit.
pub open spec fn all_digits(s: Seq<char>) -> bool {
    forall|i: int| 0 <= i < s.len() ==> is_digit(#[trigger] s[i])
}

/// The number that a run of digits denotes, the first digit weighing most.
/// The empty run denotes zero.
pub open spec fn digits_value(s: Seq<char>) -> nat
    decreases s.len(),
{
    if s.len() == 0 {
        0
    } else {
        digits_value(s.drop_last()) * 10 + digit_value(s.last())
    }
}

/// The text without its leading plus sign, if it has one.
pub open spec fn unsigned_body(s: Seq<char>) -> Seq<char> {
    if s.len() > 0 && s[0] == '+' {
        s.drop_first()
    } else {
        s
    }
}

/// What reading `s` as a `u32` gives.
///
/// A number is written as an optional `+` followed by one digit or more;
/// leading zeros are allowed, and nothing else is: no blanks, no minus sign,
/// no separators. A text that is not of this shape is told from a number too
/// large by its kind of error; the shape is judged first.
pub open spec fn parse_u32_spec(s: Seq<char>) -> Result<u32, IntErrorKind> {
    let body = unsigned_body(s);
    if s.len() == 0 {
        Err(IntErrorKind::Empty)
    } else if body.len() == 0 || !all_digits(body) {
        Err(IntErrorKind::InvalidDigit)
    } else if digits_value(body) > u32::MAX {
        Err(IntErrorKind::PosOverflow)
    } else {
        Ok(digits_value(body) as u32)
    }
}

/// The decimal notation of `n`, without sign or leading zeros.
pub open spec fn decimal_digits(n: nat) -> Seq<char>
    decreases n,
{
    if n < 10 {
        seq![digit_char(n)]
    } else {
        decimal_digits(n / 10).push(digit_char(n % 10))
    }
}

/// One more digit multiplies the value by ten and adds the digit.
pub proof fn lemma_digits_value_push(s: Seq<char>, c: char)
    ensures
        digits_value(s.push(c)) == digits_value(s) * 10 + digit_value(c),
{
    assert(s.push(c).drop_last() =~= s);
}

/// A run with one more character consists of digits where the run before
/// did and the character is one.
pub proof fn lemma_all_digits_push(s: Seq<char>, c: char)
    ensures
        all_digits(s.push(c)) <==> all_digits(s) && is_digit(c),
{
    if all_digits(s.push(c)) {
        assert(s.push(c)[s.len() as int] == c);
        assert forall|i: int| 0 <= i < s.len() implies is_digit(#[trigger] s[i]) by {
            assert(s.push(c)[i] == s[i]);
        }
    }
}

/// The notation of a number consists of digits, at least one, and denotes
/// that number.
pub proof fn lemma_decimal_digits(n: nat)
    ensures
        decimal_digits(n).len() > 0,
        all_digits(decimal_digits(n)),
        digits_value(decimal_digits(n)) == n,
        decimal_digits(n)[0] != '+',
    decreases n,
{
    if n < 10 {
        let s = seq![digit_char(n)];
        assert(digits_value(s.drop_last()) == 0);
    } else {
        lemma_decimal_digits(n / 10);
        lemma_digits_value_push(decimal_digits(n / 10), digit_char(n % 10));
    }
}

/// Reading what was written gives the number back.
pub proof fn lemma_parse_decimal_digits(n: u32)
    ensures
        parse_u32_spec(decimal_digits(n as nat)) == Ok::<u32, IntErrorKind>(n),
{
    lemma_decimal_digits(n as nat);
}

/// The digit of `d` as a text of one character.
fn digit_str(d: u32) -> (r: &'static str)
    requires
        d < 10,
    ensures
        r@ == seq![digit_char(d as nat)],
{
    proof {
        reveal_strlit("0");
        reveal_strlit("1");
        reveal_strlit("2");
        reveal_strlit("3");
        reveal_strlit("4");
        reveal_strlit("5");
        reveal_strlit("6");
        reveal_strlit("7");
        reveal_strlit("8");
        reveal_strlit("9");
    }
    let r = if d == 0 {
        "0"
    } else if d == 1 {
        "1"
    } else if d == 2 {
        "2"
    } else if d == 3 {
        "3"
    } else if d == 4 {
        "4"
    } else if d == 5 {
        "5"
    } else if d == 6 {
        "6"
    } else if d == 7 {
        "7"
    } else if d == 8 {
        "8"
    } else {
        "9"
    };
    r
}

/// Writes `n` in decimal notation.
pub fn u32_to_string(n: u32) -> (r: String)
    ensures
        r@ == decimal_digits(n as nat),
    decreases n,
{
    if n < 10 {
        String::from_str(digit_str(n))
    } else {
        let mut r = u32_to_string(n / 10);
        r.append(digit_str(n % 10));
        r
    }
}

/// Reads `s` as a `u32` in decimal notation.
pub fn parse_u32(s: &str) -> (r: Result<u32, IntErrorKind>)
    ensures
        r == parse_u32_spec(s@),
{
    broadcast use group_string_axioms;

    let ghost body = unsigned_body(s@);
    let ghost mut consumed: int = 0;
    let ghost mut read: int = 0;
    let mut chars = s.chars();
    let mut value: u64 = 0;
    let mut first: bool = true;
    let mut any: bool = false;
    let mut invalid: bool = false;
    let mut overflow: bool = false;
    loop
        invariant
            chars.obeys_prophetic_iter_laws(),
            body == unsigned_body(s@),
            0 <= consumed <= s@.len(),
            chars.remaining() == s@.skip(consumed),
            first == (consumed == 0),
            0 <= read <= body.len(),
            read == if consumed == 0 { 0 } else { consumed - (s@.len() - body.len()) },
            any == (read > 0),
            invalid == !all_digits(body.take(read)),
            value <= u32::MAX,
            !invalid && !overflow ==> value == digits_value(body.take(read)),
            !invalid && overflow ==> digits_value(body.take(read)) > u32::MAX,
        ensures
            consumed == s@.len(),
            read == body.len(),
            first == (s@.len() == 0),
            any == (body.len() > 0),
            invalid == !all_digits(body),
            !invalid && !overflow ==> value == digits_value(body) && value <= u32::MAX,
            !invalid && overflow ==> digits_value(body) > u32::MAX,
        decreases s@.len() - consumed,
    {
        match chars.next() {
            None => {
                assert(body.take(read) =~= body);
                break ;
            },
            Some(c) => {
                if !(first && c == '+') {
                    proof {
                        assert(body.take(read + 1) =~= body.take(read).push(c));
                        lemma_digits_value_push(body.take(read), c);
                        lemma_all_digits_push(body.take(read), c);
                        read = read + 1;
                    }
                    any = true;
                    if !('0' <= c && c <= '9') {
                        invalid = true;
                    } else if !overflow {
                        let digit: u64 = (c as u32 - '0' as u32) as u64;
                        value = value * 10 + digit;
                        if value > 0xffff_ffff {
                            overflow = true;
                            value = 0;
                        }
                    }
                }
                first = false;
                proof {
                    consumed = consumed + 1;
                }
            },
        }
    }
    if first {
        Err(IntErrorKind::Empty)
    } else if !any || invalid {
        Err(IntErrorKind::InvalidDigit)
    } else if overflow {
        Err(IntErrorKind::PosOverflow)
    } else {
        Ok(value as u32)
    }
}

} // verus!
