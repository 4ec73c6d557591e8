//! Text helpers shared by the other modules: joining strings and the decimal
//! notation of unsigned numbers.

use vstd::prelude::*;

verus! {

/// Whether `c` is one of the ten ASCII digits.
pub open spec fn is_digit(c: char) -> bool {
    '0' <= c && c <= '9'
}

/// The value of an ASCII digit.
pub open spec fn digit_value(c: char) -> nat {
    (c as nat - 48) as nat
}

/// The ASCII digit for a value below ten.
pub open spec fn digit_char(value: nat) -> char {
    (48 + value) as u8 as char
}

/// Whether every character of `text` is an ASCII digit.
pub open spec fn all_digits(text: Seq<char>) -> bool {
    forall|i: int| 0 <= i < text.len() ==> is_digit(#[trigger] text[i])
}

/// The number that a run of digits denotes in base ten.
pub open spec fn decimal_value(digits: Seq<char>) -> nat
    decreases digits.len(),
{
    if digits.len() == 0 {
        0
    } else {
        10 * decimal_value(digits.drop_last()) + digit_value(digits.last())
    }
}

/// The shortest decimal notation of `value`.
pub open spec fn decimal_text(value: nat) -> Seq<char>
    decreases value,
{
    if value < 10 {
        seq![digit_char(value)]
    } else {
        decimal_text(value / 10).push(digit_char(value % 10))
    }
}

/// The number that `text` denotes: an optional `+`, then one or more ASCII
/// digits, nothing else, and a value that fits 64 bits.
pub open spec fn parse_decimal(text: Seq<char>) -> Option<u64> {
    let digits = if text.len() > 0 && text[0] == '+' {
        text.subrange(1, text.len() as int)
    } else {
        text
    };
    if digits.len() > 0 && all_digits(digits) && decimal_value(digits) <= u64::MAX {
        Some(decimal_value(digits) as u64)
    } else {
        None
    }
}

/// The characters of a list of name and value pairs.
pub open spec fn pairs_text(pairs: Seq<(String, String)>) -> Seq<(Seq<char>, Seq<char>)> {
    Seq::new(pairs.len(), |i: int| (pairs[i].0@, pairs[i].1@))
}

/// The query parameter that an optional value gives: one pair where the value
/// is there, none where it is not.
pub open spec fn optional_pair(name: Seq<char>, value: Option<Seq<char>>) -> Seq<
    (Seq<char>, Seq<char>),
> {
    match value {
        Some(v) => seq![(name, v)],
        None => Seq::empty(),
    }
}

/// The decimal notation of an optional number.
pub open spec fn optional_decimal(value: Option<u32>) -> Option<Seq<char>> {
    match value {
        Some(v) => Some(decimal_text(v as nat)),
        None => None,
    }
}

/// Appends a name and value pair to a list of parameters.
pub(crate) fn push_pair(params: &mut Vec<(String, String)>, name: &str, value: String)
    ensures
        pairs_text(final(params)@) == pairs_text(old(params)@).push((name@, value@)),
{
    let ghost before = params@;
    params.push((name.to_string(), value));
    assert(pairs_text(params@) =~= pairs_text(before).push((name@, value@)));
}

/// Appends the pair of an optional number to a list of parameters.
pub(crate) fn push_number(params: &mut Vec<(String, String)>, name: &str, value: Option<u32>)
    ensures
        pairs_text(final(params)@) == pairs_text(old(params)@) + optional_pair(
            name@,
            optional_decimal(value),
        ),
{
    let ghost before = params@;
    match value {
        Some(v) => {
            push_pair(params, name, u64_to_string(v as u64));
            assert(pairs_text(params@) =~= pairs_text(before) + optional_pair(
                name@,
                optional_decimal(value),
            ));
        },
        None => {
            assert(pairs_text(params@) =~= pairs_text(before) + optional_pair(
                name@,
                optional_decimal(value),
            ));
        },
    }
}

/// Appends the pair of an optional text to a list of parameters.
pub(crate) fn push_text(params: &mut Vec<(String, String)>, name: &str, value: Option<&str>)
    ensures
        pairs_text(final(params)@) == pairs_text(old(params)@) + optional_pair(
            name@,
            match value {
                Some(v) => Some(v@),
                None => None,
            },
        ),
{
    let ghost before = params@;
    match value {
        Some(v) => {
            push_pair(params, name, v.to_string());
            assert(pairs_text(params@) =~= pairs_text(before) + seq![(name@, v@)]);
        },
        None => {
            assert(pairs_text(params@) =~= pairs_text(before) + Seq::empty());
        },
    }
}

/// The smaller of a page size and the largest page size that the API serves.
pub open spec fn clamp_limit(limit: u32) -> u32 {
    if limit < 100 {
        limit
    } else {
        100
    }
}

/// Joins two strings.
///
/// Trusted: wraps the `concat` method of slices of std, which joins the
/// texts of a slice in order.
#[verifier::external_body]
pub(crate) fn concat(head: &str, tail: &str) -> (joined: String)
    ensures
        joined@ == head@ + tail@,
{
    [head, tail].concat()
}

/// Writes a number in decimal notation.
///
/// Trusted: wraps `u64::to_string` of std, which writes the digits of the
/// number in base ten without sign or leading zeros.
#[verifier::external_body]
pub(crate) fn u64_to_string(value: u64) -> (text: String)
    ensures
        text@ == decimal_text(value as nat),
{
    value.to_string()
}

/// A run of digits denotes at least what any of its beginnings denotes.
pub proof fn lemma_decimal_value_grows(digits: Seq<char>, len: int)
    requires
        0 <= len <= digits.len(),
    ensures
        decimal_value(digits.subrange(0, len)) <= decimal_value(digits),
    decreases digits.len(),
{
    if len == digits.len() {
        assert(digits.subrange(0, len) =~= digits);
    } else {
        lemma_decimal_value_grows(digits.drop_last(), len);
        assert(digits.drop_last().subrange(0, len) =~= digits.subrange(0, len));
    }
}

/// Reads a number in decimal notation: an optional `+`, then one or more
/// ASCII digits.  Any other text, and any number beyond `u64::MAX`, gives
/// `None`.
pub fn parse_u64(text: &str) -> (value: Option<u64>)
    ensures
        value == parse_decimal(text@),
{
    let len = text.unicode_len();
    let start: usize = if len > 0 && text.get_char(0) == '+' {
        1
    } else {
        0
    };
    let ghost digits = text@.subrange(start as int, len as int);
    assert(digits =~= if text@.len() > 0 && text@[0] == '+' {
        text@.subrange(1, text@.len() as int)
    } else {
        text@
    });
    if start == len {
        return None;
    }
    let mut total: u64 = 0;
    let mut i: usize = start;
    assert(digits.subrange(0, 0) =~= Seq::<char>::empty());
    while i < len
        invariant
            start <= i <= len,
            len == text@.len(),
            digits == text@.subrange(start as int, len as int),
            digits == if text@.len() > 0 && text@[0] == '+' {
                text@.subrange(1, text@.len() as int)
            } else {
                text@
            },
            all_digits(digits.subrange(0, i - start)),
            total == decimal_value(digits.subrange(0, i - start)),
        decreases len - i,
    {
        let c = text.get_char(i);
        let code: u32 = c as u32;
        let ghost seen = digits.subrange(0, i - start);
        let ghost next = digits.subrange(0, i - start + 1);
        assert(digits[i - start] == c);
        if code < 48 || code > 57 {
            assert(!is_digit(digits[i - start]));
            return None;
        }
        let digit: u64 = (code - 48) as u64;
        proof {
            assert(next.drop_last() =~= seen);
            assert(next.last() == c);
            assert(digit_value(c) == digit);
            assert(decimal_value(next) == 10 * total + digit);
            assert forall|j: int| 0 <= j < next.len() implies is_digit(#[trigger] next[j]) by {
                if j < seen.len() {
                    assert(next[j] == seen[j]);
                }
            }
            lemma_decimal_value_grows(digits, i - start + 1);
        }
        if total > (u64::MAX - digit) / 10 {
            return None;
        }
        total = total * 10 + digit;
        i += 1;
    }
    assert(digits.subrange(0, len - start) =~= digits);
    Some(total)
}

} // verus!
