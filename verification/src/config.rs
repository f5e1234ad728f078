//! What the process is configured with at start: the port to listen on.

use vstd::prelude::*;
use vstd::string::*;

verus! {

/// The port that is listened on when none is configured.
pub const DEFAULT_PORT: u16 = 3000;

/// Whether `c` is one of the ASCII digits `0`-`9`.
pub open spec fn is_digit(c: char) -> bool {
    '0' <= c <= '9'
}

/// The value of an ASCII digit.
pub open spec fn digit_value(c: char) -> nat
    recommends
        is_digit(c),
{
    (c as int - '0' as int) as nat
}

/// Whether `s` holds ASCII digits only.
pub open spec fn all_digits(s: Seq<char>) -> bool {
    forall|i: int| 0 <= i < s.len() ==> is_digit(#[trigger] s[i])
}

/// The number that a sequence of ASCII digits writes in base ten.
pub open spec fn digits_value(s: Seq<char>) -> nat
    decreases s.len(),
{
    if s.len() == 0 {
        0
    } else {
        digits_value(s.drop_last()) * 10 + digit_value(s.last())
    }
}

/// `s` without the one `+` sign that may stand in front of a number.
pub open spec fn without_plus_sign(s: Seq<char>) -> Seq<char> {
    if s.len() > 0 && s[0] == '+' {
        s.drop_first()
    } else {
        s
    }
}

/// The port that a text writes: an optional `+`, then one or more ASCII
/// digits and nothing else, with a value that fits a port number. Any other
/// text writes no port.
pub open spec fn parsed_port(s: Seq<char>) -> Option<u16> {
    let digits = without_plus_sign(s);
    if digits.len() > 0 && all_digits(digits) && digits_value(digits) <= u16::MAX {
        Some(digits_value(digits) as u16)
    } else {
        None
    }
}

/// The port to listen on: the configured one if it is set and writes a port,
/// `DEFAULT_PORT` otherwise.
pub open spec fn port_of(configured: Option<Seq<char>>) -> u16 {
    match configured {
        Some(text) => match parsed_port(text) {
            Some(port) => port,
            None => DEFAULT_PORT,
        },
        None => DEFAULT_PORT,
    }
}

/// A number is at least the number that any of its leading digits write.
proof fn lemma_prefix_value(s: Seq<char>, k: int)
    requires
        0 <= k <= s.len(),
    ensures
        digits_value(s.subrange(0, k)) <= digits_value(s),
    decreases s.len(),
{
    if k == s.len() {
        assert(s.subrange(0, k) =~= s);
    } else {
        lemma_prefix_value(s.drop_last(), k);
        assert(s.drop_last().subrange(0, k) =~= s.subrange(0, k));
    }
}

/// Reads a port number from a text.
pub fn parse_port(text: &str) -> (port: Option<u16>)
    ensures
        port == parsed_port(text@),
{
    broadcast use vstd::string::group_string_axioms;

    let ghost digits = without_plus_sign(text@);
    let mut value: u32 = 0;
    let mut at_start = true;
    let mut any_digit = false;
    let ghost mut start: int = 0;
    for c in it: text.chars()
        invariant
            it.seq() == text@,
            digits == without_plus_sign(text@),
            at_start <==> it.index() == 0,
            start == 0 || start == 1,
            start <= it.index(),
            !at_start ==> digits == text@.subrange(start, text@.len() as int),
            any_digit <==> it.index() > start,
            all_digits(digits.subrange(0, it.index() - start)),
            value == digits_value(digits.subrange(0, it.index() - start)),
            value <= u16::MAX,
    {
        if at_start && c == '+' {
            proof {
                start = 1;
                assert(digits =~= text@.subrange(1, text@.len() as int));
            }
        } else {
            proof {
                if at_start {
                    assert(digits =~= text@.subrange(0, text@.len() as int));
                }
            }
            let ghost k = it.index() - start;
            assert(c == digits[k]);
            if !('0' <= c && c <= '9') {
                return None;
            }
            let ghost seen = digits.subrange(0, k + 1);
            assert(seen.drop_last() =~= digits.subrange(0, k));
            assert(seen.last() == c);
            value = value * 10 + (c as u32 - '0' as u32);
            assert(value == digits_value(seen));
            if value > 65535 {
                proof {
                    lemma_prefix_value(digits, k + 1);
                }
                return None;
            }
            any_digit = true;
        }
        at_start = false;
    }
    proof {
        if at_start {
            assert(digits =~= text@);
        }
        assert(digits.subrange(0, digits.len() as int) =~= digits);
    }
    if any_digit {
        Some(value as u16)
    } else {
        None
    }
}

/// The port to listen on, from what is configured if anything is.
pub fn listen_port(configured: Option<&str>) -> (port: u16)
    ensures
        port == port_of(
            match configured {
                Some(text) => Some(text@),
                None => None,
            },
        ),
{
    match configured {
        Some(text) => match parse_port(text) {
            Some(port) => port,
            None => DEFAULT_PORT,
        },
        None => DEFAULT_PORT,
    }
}

} // verus!
