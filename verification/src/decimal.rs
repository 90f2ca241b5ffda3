use vstd::prelude::*;
use vstd::string::*;

verus! {

/// The value of a decimal digit, or `None` for any other character.
pub open spec fn digit_value(c: char) -> Option<int> {
    if '0' <= c <= '9' {
        Some(c as int - '0' as int)
    } else {
        None
    }
}

/// The digit that stands for a value below ten.
pub open spec fn digit_char(value: int) -> char {
    ('0' as int + value) as char
}

/// Whether every character of a text is a decimal digit.
pub open spec fn all_digits(text: Seq<char>) -> bool {
    forall|i: int| 0 <= i < text.len() ==> digit_value(#[trigger] text[i]) is Some
}

/// The number that a text of decimal digits stands for.
pub open spec fn digits_value(text: Seq<char>) -> int
    decreases text.len(),
{
    if text.len() == 0 {
        0
    } else {
        digits_value(text.drop_last()) * 10 + digit_value(text.last()).unwrap_or(0)
    }
}

/// The integer that a text stands for: one or more decimal digits, behind a
/// `+` sign or none, or behind a `-` sign where `signed` says that negative
/// numbers are read. `None` for any other text.
pub open spec fn parsed_integer(text: Seq<char>, signed: bool) -> Option<int> {
    if text.len() == 0 {
        None
    } else {
        let negative = signed && text[0] == '-';
        let body = if text[0] == '+' || negative {
            text.subrange(1, text.len() as int)
        } else {
            text
        };
        if body.len() == 0 || !all_digits(body) {
            None
        } else if negative {
            Some(-digits_value(body))
        } else {
            Some(digits_value(body))
        }
    }
}

/// The `i32` that a text stands for, if it stands for one.
pub open spec fn parsed_i32(text: Seq<char>) -> Option<i32> {
    match parsed_integer(text, true) {
        Some(value) => if i32::MIN <= value <= i32::MAX {
            Some(value as i32)
        } else {
            None
        },
        None => None,
    }
}

/// The `u8` that a text stands for, if it stands for one.
pub open spec fn parsed_u8(text: Seq<char>) -> Option<u8> {
    match parsed_integer(text, false) {
        Some(value) => if value <= u8::MAX {
            Some(value as u8)
        } else {
            None
        },
        None => None,
    }
}

/// The decimal digits of a number that is not negative, without leading
/// zeros.
pub open spec fn decimal_digits(value: nat) -> Seq<char>
    decreases value,
{
    if value < 10 {
        seq![digit_char(value as int)]
    } else {
        decimal_digits(value / 10).push(digit_char((value % 10) as int))
    }
}

/// The decimal text of an integer: its digits, behind a `-` sign where it
/// is negative.
pub open spec fn decimal(value: int) -> Seq<char> {
    if value < 0 {
        seq!['-'] + decimal_digits((-value) as nat)
    } else {
        decimal_digits(value as nat)
    }
}

/// The digits of a number are digits, and they stand for the number.
pub proof fn lemma_decimal_digits(value: nat)
    ensures
        decimal_digits(value).len() > 0,
        all_digits(decimal_digits(value)),
        digits_value(decimal_digits(value)) == value,
    decreases value,
{
    if value < 10 {
        let text = decimal_digits(value);
        assert(text.drop_last() =~= Seq::<char>::empty());
        assert(digits_value(text.drop_last()) == 0);
    } else {
        lemma_decimal_digits(value / 10);
        let head = decimal_digits(value / 10);
        let text = decimal_digits(value);
        assert(text.drop_last() =~= head);
        assert forall|i: int| 0 <= i < text.len() implies digit_value(#[trigger] text[i]) is Some by {
            if i < head.len() {
                assert(text[i] == head[i]);
            }
        }
    }
}

/// Reading the decimal text of an integer gives the integer back, where
/// negative numbers are read or the integer is not negative.
pub proof fn lemma_decimal_round_trip(value: int, signed: bool)
    requires
        signed || value >= 0,
    ensures
        parsed_integer(decimal(value), signed) == Some(value),
{
    if value < 0 {
        let digits = decimal_digits((-value) as nat);
        lemma_decimal_digits((-value) as nat);
        let text = decimal(value);
        assert(text.subrange(1, text.len() as int) =~= digits);
    } else {
        lemma_decimal_digits(value as nat);
        lemma_decimal_starts_with_digit(value as nat);
    }
}

/// The first of the digits of a number is a digit, and so no sign.
pub proof fn lemma_decimal_starts_with_digit(value: nat)
    ensures
        digit_value(decimal_digits(value)[0]) is Some,
{
    lemma_decimal_digits(value);
}

/// The text of one digit.
fn digit_text(value: u64) -> (text: &'static str)
    requires
        value < 10,
    ensures
        text@ == seq![digit_char(value as int)],
{
    proof {
        reveal_strlit("0");
        reveal_strlit("1");
        reveal_strlit("2");
        reveal_strlit("3");
        reveal_strlit("4");
        reveal_strlit("5");
        reveal_strlit("6");
        reveal_strlit("7");
        reveal_strlit("8");
        reveal_strlit("9");
    }
    let text = if value == 0 {
        "0"
    } else if value == 1 {
        "1"
    } else if value == 2 {
        "2"
    } else if value == 3 {
        "3"
    } else if value == 4 {
        "4"
    } else if value == 5 {
        "5"
    } else if value == 6 {
        "6"
    } else if value == 7 {
        "7"
    } else if value == 8 {
        "8"
    } else {
        "9"
    };
    assert(text@ =~= seq![digit_char(value as int)]);
    text
}

/// Writes the decimal digits of `value` behind `text`.
fn push_digits(value: u64, text: &mut String)
    ensures
        final(text)@ == old(text)@ + decimal_digits(value as nat),
    decreases value,
{
    if value >= 10 {
        push_digits(value / 10, text);
    }
    text.append(digit_text(value % 10));
    proof {
        if value >= 10 {
            assert(final(text)@ =~= old(text)@ + decimal_digits(value as nat));
        } else {
            assert(final(text)@ =~= old(text)@ + decimal_digits(value as nat));
        }
    }
}

/// The decimal text of an `i32`.
pub fn format_i32(value: i32) -> (text: String)
    ensures
        text@ == decimal(value as int),
{
    let mut text = String::new();
    if value < 0 {
        proof {
            reveal_strlit("-");
        }
        text.append("-");
        assert(text@ =~= seq!['-']);
        push_digits((-(value as i64)) as u64, &mut text);
    } else {
        push_digits(value as u64, &mut text);
        assert(text@ =~= decimal(value as int));
    }
    text
}

/// The decimal text of a `u8`.
pub fn format_u8(value: u8) -> (text: String)
    ensures
        text@ == decimal(value as int),
{
    let mut text = String::new();
    push_digits(value as u64, &mut text);
    assert(text@ =~= decimal(value as int));
    text
}

/// The most that the reader below counts to: beyond every number that it
/// hands out.
pub const READ_LIMIT: u64 = 0x1_0000_0000;

/// The number that the digits of `text` from `start` on stand for, cut off
/// at `READ_LIMIT`, or `None` where one of them is no digit or there is none.
fn read_digits(text: &str, start: usize) -> (value: Option<u64>)
    requires
        start <= text@.len(),
    ensures
        ({
            let body = text@.subrange(start as int, text@.len() as int);
            match value {
                Some(value) => body.len() > 0 && all_digits(body) && value == (if digits_value(
                    body,
                ) < READ_LIMIT {
                    digits_value(body)
                } else {
                    READ_LIMIT as int
                }),
                None => body.len() == 0 || !all_digits(body),
            }
        }),
{
    let len = text.unicode_len();
    if start == len {
        return None;
    }
    let ghost body = text@.subrange(start as int, len as int);
    let mut value: u64 = 0;
    let mut i: usize = start;
    while i < len
        invariant
            start <= i <= len,
            len == text@.len(),
            body == text@.subrange(start as int, len as int),
            all_digits(body.subrange(0, i - start)),
            value == (if digits_value(body.subrange(0, i - start)) < READ_LIMIT {
                digits_value(body.subrange(0, i - start))
            } else {
                READ_LIMIT as int
            }),
            value <= READ_LIMIT,
        decreases len - i,
    {
        let c = text.get_char(i);
        let ghost seen = body.subrange(0, i - start);
        let ghost next = body.subrange(0, i + 1 - start);
        assert(next.drop_last() =~= seen);
        assert(next.last() == c);
        if c < '0' || c > '9' {
            assert(digit_value(body[i - start]) is None);
            return None;
        }
        let digit: u64 = (c as u64) - ('0' as u64);
        assert(digit == digit_value(c).unwrap());
        assert forall|k: int| 0 <= k < next.len() implies digit_value(#[trigger] next[k]) is Some by {
            if k < seen.len() {
                assert(next[k] == seen[k]);
            }
        }
        assert(digits_value(seen) >= 0) by {
            lemma_digits_value_not_negative(seen);
        }
        value = value * 10 + digit;
        if value > READ_LIMIT {
            value = READ_LIMIT;
        }
        i += 1;
    }
    assert(body.subrange(0, len - start) =~= body);
    Some(value)
}

/// A text of digits stands for no negative number.
pub proof fn lemma_digits_value_not_negative(text: Seq<char>)
    ensures
        digits_value(text) >= 0,
    decreases text.len(),
{
    if text.len() > 0 {
        lemma_digits_value_not_negative(text.drop_last());
    }
}

/// Reads an `i32` from its decimal text.
pub fn parse_i32(text: &str) -> (value: Option<i32>)
    ensures
        value == parsed_i32(text@),
{
    let len = text.unicode_len();
    if len == 0 {
        return None;
    }
    let first = text.get_char(0);
    let negative = first == '-';
    let start: usize = if first == '+' || negative {
        1
    } else {
        0
    };
    assert(text@.subrange(0, len as int) =~= text@);
    match read_digits(text, start) {
        None => None,
        Some(magnitude) => {
            if negative {
                if magnitude <= 0x8000_0000 {
                    Some((-(magnitude as i64)) as i32)
                } else {
                    None
                }
            } else if magnitude <= 0x7fff_ffff {
                Some(magnitude as i32)
            } else {
                None
            }
        },
    }
}

/// Reads a `u8` from its decimal text.
pub fn parse_u8(text: &str) -> (value: Option<u8>)
    ensures
        value == parsed_u8(text@),
{
    let len = text.unicode_len();
    if len == 0 {
        return None;
    }
    let first = text.get_char(0);
    let start: usize = if first == '+' {
        1
    } else {
        0
    };
    assert(text@.subrange(0, len as int) =~= text@);
    match read_digits(text, start) {
        None => None,
        Some(magnitude) => {
            if magnitude <= 255 {
                Some(magnitude as u8)
            } else {
                None
            }
        },
    }
}

} // verus!
