//! Reading and writing decimal numbers in telemetry samples and command
//! payloads.  The cloud protocol tolerates garbled telemetry: an unparsable
//! numeric sample folds to zero instead of failing the whole call.

use vstd::prelude::*;
use vstd::string::{StrSliceExecFns, StringExecFns};

verus! {

pub open spec fn is_dec_digit(c: char) -> bool {
    '0' <= c && c <= '9'
}

pub open spec fn dec_digit_value(c: char) -> int {
    c as int - '0' as int
}

/// The number a string of digits denotes.
pub open spec fn digits_value(s: Seq<char>) -> int
    decreases s.len(),
{
    if s.len() == 0 {
        0
    } else {
        digits_value(s.drop_last()) * 10 + dec_digit_value(s.last())
    }
}

/// An optional leading `+`, as the standard integer syntax accepts.
pub open spec fn strip_plus(s: Seq<char>) -> Seq<char> {
    if s.len() > 0 && s[0] == '+' {
        s.skip(1)
    } else {
        s
    }
}

/// Whether `s` is a decimal literal whose value is at most `bound`.
pub open spec fn is_dec_literal(s: Seq<char>, bound: int) -> bool {
    let d = strip_plus(s);
    d.len() > 0 && (forall|i: int| 0 <= i < d.len() ==> is_dec_digit(d[i])) && digits_value(d)
        <= bound
}

/// The value of a 16-bit decimal sample, or zero when it is not one.
pub open spec fn parse_u16_or_zero(s: Seq<char>) -> u16 {
    if is_dec_literal(s, u16::MAX as int) {
        digits_value(strip_plus(s)) as u16
    } else {
        0
    }
}

/// The value of a 32-bit decimal sample, or zero when it is not one.
pub open spec fn parse_u32_or_zero(s: Seq<char>) -> u32 {
    if is_dec_literal(s, u32::MAX as int) {
        digits_value(strip_plus(s)) as u32
    } else {
        0
    }
}

/// The value of a boolean sample — exactly `true` or `false` — or `false`
/// when it is not one.
pub open spec fn parse_bool_or_false(s: Seq<char>) -> bool {
    s == "true"@
}

proof fn lemma_digits_value_nonneg(s: Seq<char>)
    requires
        forall|i: int| 0 <= i < s.len() ==> is_dec_digit(s[i]),
    ensures
        digits_value(s) >= 0,
    decreases s.len(),
{
    if s.len() > 0 {
        lemma_digits_value_nonneg(s.drop_last());
    }
}

/// Parse a decimal literal of value at most `bound`, or report that `s` is
/// not one.  The plain loop behind both sample readers.
fn parse_bounded_dec(s: &str, bound: u64) -> (r: Option<u64>)
    requires
        9 <= bound,
        bound * 10 + 9 <= u64::MAX,
    ensures
        r matches Some(v) ==> is_dec_literal(s@, bound as int) && v == digits_value(strip_plus(s@))
            && v <= bound,
        r is None ==> !is_dec_literal(s@, bound as int),
{
    let n = s.unicode_len();
    let start: usize = if n > 0 && s.get_char(0) == '+' {
        1
    } else {
        0
    };
    proof {
        assert(strip_plus(s@) =~~= s@.skip(start as int));
    }
    if n == start {
        return None;
    }
    let ghost d = s@.skip(start as int);
    let mut value: u64 = 0;
    let mut over = false;
    let mut i: usize = start;
    while i < n
        invariant
            n == s@.len(),
            start <= i <= n,
            d == s@.skip(start as int),
            d == strip_plus(s@),
            9 <= bound,
            bound * 10 + 9 <= u64::MAX,
            forall|j: int| start <= j < i ==> is_dec_digit(s@[j]),
            !over ==> value == digits_value(d.take(i - start)) && value <= bound,
            over ==> digits_value(d.take(i - start)) > bound,
        decreases n - i,
    {
        let c = s.get_char(i);
        if c < '0' || c > '9' {
            proof {
                assert(d[i - start] == s@[i as int]);
                assert(!is_dec_digit(d[i - start]));
            }
            return None;
        }
        let digit: u64 = (c as u32 - '0' as u32) as u64;
        proof {
            assert(d.take(i - start + 1).drop_last() =~~= d.take(i - start));
            assert(d.take(i - start + 1).last() == s@[i as int]);
            lemma_digits_value_nonneg(d.take(i - start));
        }
        if over {
            proof {
                let prev = digits_value(d.take(i - start));
                assert(digits_value(d.take(i - start + 1)) == prev * 10 + digit);
                assert(prev * 10 + digit > bound) by (nonlinear_arith)
                    requires
                        prev > bound,
                        bound >= 9,
                        digit >= 0,
                ;
            }
        } else {
            let next = value * 10 + digit;
            if next > bound {
                over = true;
            } else {
                value = next;
            }
        }
        i = i + 1;
    }
    proof {
        assert(d.take(n - start) =~~= d);
    }
    if over {
        None
    } else {
        Some(value)
    }
}

/// Read a 16-bit sample value; anything unparsable folds to zero.
pub fn read_u16_or_zero(s: &str) -> (r: u16)
    ensures
        r == parse_u16_or_zero(s@),
{
    match parse_bounded_dec(s, 65_535) {
        Some(v) => v as u16,
        None => 0,
    }
}

/// Read a 32-bit sample value; anything unparsable folds to zero.
pub fn read_u32_or_zero(s: &str) -> (r: u32)
    ensures
        r == parse_u32_or_zero(s@),
{
    match parse_bounded_dec(s, 4_294_967_295) {
        Some(v) => v as u32,
        None => 0,
    }
}

/// Read a boolean sample value; anything unparsable folds to `false`.
pub fn read_bool_or_false(s: &str) -> (r: bool)
    ensures
        r == parse_bool_or_false(s@),
{
    let t = String::from_str("true");
    let owned = s.to_owned();
    owned.eq(&t)
}

/// The canonical decimal digits of `n`: no sign, no leading zero.
pub open spec fn dec_digits_of(n: int) -> Seq<char>
    decreases n,
{
    if n < 10 {
        seq![dec_digit_char(n)]
    } else {
        dec_digits_of(n / 10).push(dec_digit_char(n % 10))
    }
}

pub open spec fn dec_digit_char(d: int) -> char {
    if d == 0 {
        '0'
    } else if d == 1 {
        '1'
    } else if d == 2 {
        '2'
    } else if d == 3 {
        '3'
    } else if d == 4 {
        '4'
    } else if d == 5 {
        '5'
    } else if d == 6 {
        '6'
    } else if d == 7 {
        '7'
    } else if d == 8 {
        '8'
    } else {
        '9'
    }
}

fn dec_digit_str(d: u16) -> (r: &'static str)
    requires
        d < 10,
    ensures
        r@ == seq![dec_digit_char(d as int)],
{
    let r = match d {
        0 => "0",
        1 => "1",
        2 => "2",
        3 => "3",
        4 => "4",
        5 => "5",
        6 => "6",
        7 => "7",
        8 => "8",
        _ => "9",
    };
    proof {
        reveal_strlit("0");
        reveal_strlit("1");
        reveal_strlit("2");
        reveal_strlit("3");
        reveal_strlit("4");
        reveal_strlit("5");
        reveal_strlit("6");
        reveal_strlit("7");
        reveal_strlit("8");
        reveal_strlit("9");
        assert(r@ =~~= seq![dec_digit_char(d as int)]);
    }
    r
}

/// Render `n` in canonical decimal, as a command payload carries it.
pub fn dec_string(n: u16) -> (r: String)
    ensures
        r@ == dec_digits_of(n as int),
    decreases n,
{
    if n < 10 {
        String::from_str(dec_digit_str(n))
    } else {
        let mut s = dec_string(n / 10);
        s.append(dec_digit_str(n % 10));
        proof {
            assert(s@ =~~= dec_digits_of(n as int));
        }
        s
    }
}

} // verus!
