//! Small readings and writings of text.

use vstd::prelude::*;
use vstd::string::*;

verus! {

/// The character that stands for a single digit.
pub open spec fn digit_char(digit: int) -> char {
    if digit == 0 {
        '0'
    } else if digit == 1 {
        '1'
    } else if digit == 2 {
        '2'
    } else if digit == 3 {
        '3'
    } else if digit == 4 {
        '4'
    } else if digit == 5 {
        '5'
    } else if digit == 6 {
        '6'
    } else if digit == 7 {
        '7'
    } else if digit == 8 {
        '8'
    } else {
        '9'
    }
}

/// The decimal digits of a natural number, the highest first, with no
/// leading zero.
pub open spec fn digits_of(n: nat) -> Seq<char>
    decreases n,
{
    if n < 10 {
        seq![digit_char(n as int)]
    } else {
        digits_of(n / 10).push(digit_char((n % 10) as int))
    }
}

/// A whole number in decimal, with a minus sign if it is negative.
pub open spec fn decimal_of(n: int) -> Seq<char> {
    if n < 0 {
        seq!['-'] + digits_of((-n) as nat)
    } else {
        digits_of(n as nat)
    }
}

/// Whether `pattern` stands somewhere in `text`.
pub open spec fn contains_text(text: Seq<char>, pattern: Seq<char>) -> bool {
    exists|at: int|
        0 <= at && at + pattern.len() <= text.len() && #[trigger] text.subrange(
            at,
            at + pattern.len(),
        ) == pattern
}

fn digit_text(digit: u64) -> (text: &'static str)
    requires
        digit < 10,
    ensures
        text@ == seq![digit_char(digit as int)],
{
    proof {
        reveal_strlit("0");
        reveal_strlit("1");
        reveal_strlit("2");
        reveal_strlit("3");
        reveal_strlit("4");
        reveal_strlit("5");
        reveal_strlit("6");
        reveal_strlit("7");
        reveal_strlit("8");
        reveal_strlit("9");
    }
    let text = if digit == 0 {
        "0"
    } else if digit == 1 {
        "1"
    } else if digit == 2 {
        "2"
    } else if digit == 3 {
        "3"
    } else if digit == 4 {
        "4"
    } else if digit == 5 {
        "5"
    } else if digit == 6 {
        "6"
    } else if digit == 7 {
        "7"
    } else if digit == 8 {
        "8"
    } else {
        "9"
    };
    assert(text@ =~= seq![digit_char(digit as int)]);
    text
}

fn digits_text(n: u64) -> (text: String)
    ensures
        text@ == digits_of(n as nat),
    decreases n,
{
    if n < 10 {
        String::from_str(digit_text(n))
    } else {
        let mut text = digits_text(n / 10);
        text.append(digit_text(n % 10));
        assert(text@ =~= digits_of((n / 10) as nat).push(digit_char((n % 10) as int)));
        text
    }
}

/// Writes a whole number in decimal.
pub fn decimal_text(n: i64) -> (text: String)
    ensures
        text@ == decimal_of(n as int),
{
    let wide: i128 = n as i128;
    if wide < 0 {
        proof {
            reveal_strlit("-");
        }
        let mut text = String::from_str("-");
        text.append(digits_text((-wide) as u64).as_str());
        assert(text@ =~= seq!['-'] + digits_of((-n) as nat));
        text
    } else {
        digits_text(wide as u64)
    }
}

/// Tells whether two texts are the same.
pub fn same_text(left: &str, right: &str) -> (same: bool)
    ensures
        same <==> left@ == right@,
{
    String::from_str(left) == String::from_str(right)
}

/// Tells whether the two characters `first` and `second` stand side by side
/// somewhere in `text`.
pub fn contains_pair(text: &str, first: char, second: char) -> (found: bool)
    ensures
        found <==> contains_text(text@, seq![first, second]),
{
    let ghost pair = seq![first, second];
    let len = text.unicode_len();
    if len < 2 {
        proof {
            assert forall|at: int| 0 <= at && at + pair.len() <= text@.len() implies #[trigger]
                text@.subrange(at, at + pair.len()) != pair by {}
        }
        return false;
    }
    let mut i: usize = 0;
    while i + 1 < len
        invariant
            len == text@.len(),
            len >= 2,
            i + 1 <= len,
            pair == seq![first, second],
            forall|at: int| 0 <= at < i ==> #[trigger] text@.subrange(at, at + 2) != pair,
        decreases len - i,
    {
        if text.get_char(i) == first && text.get_char(i + 1) == second {
            proof {
                assert(text@.subrange(i as int, i + 2) =~= pair);
            }
            return true;
        }
        proof {
            let window = text@.subrange(i as int, i + 2);
            assert(window[0] == text@[i as int]);
            assert(window[1] == text@[i + 1]);
            assert(pair[0] == first && pair[1] == second);
        }
        i += 1;
    }
    false
}

/// Whether a character is blank: it has the property `White_Space` of the
/// Unicode standard.
pub open spec fn is_white_space(c: char) -> bool {
    let code = c as u32;
    ||| 0x09 <= code <= 0x0D
    ||| code == 0x20
    ||| code == 0x85
    ||| code == 0xA0
    ||| code == 0x1680
    ||| 0x2000 <= code <= 0x200A
    ||| code == 0x2028
    ||| code == 0x2029
    ||| code == 0x202F
    ||| code == 0x205F
    ||| code == 0x3000
}

/// A text without the blanks at its beginning.
pub open spec fn trim_start_of(text: Seq<char>) -> Seq<char>
    decreases text.len(),
{
    if text.len() > 0 && is_white_space(text.first()) {
        trim_start_of(text.drop_first())
    } else {
        text
    }
}

/// A text without the blanks at its end.
pub open spec fn trim_end_of(text: Seq<char>) -> Seq<char>
    decreases text.len(),
{
    if text.len() > 0 && is_white_space(text.last()) {
        trim_end_of(text.drop_last())
    } else {
        text
    }
}

/// A text without the blanks at its two ends.
pub open spec fn trimmed(text: Seq<char>) -> Seq<char> {
    trim_end_of(trim_start_of(text))
}

/// Whether a character is one of the digits 0 to 9.
pub open spec fn is_digit(c: char) -> bool {
    48 <= c as u32 <= 57
}

/// The number that a digit stands for.
pub open spec fn digit_of(c: char) -> int {
    c as u32 - 48
}

/// Whether a text is made of digits only.
pub open spec fn all_digits(text: Seq<char>) -> bool {
    forall|i: int| 0 <= i < text.len() ==> is_digit(#[trigger] text[i])
}

/// The number that a row of digits stands for in decimal.
pub open spec fn number_of(digits: Seq<char>) -> int
    decreases digits.len(),
{
    if digits.len() == 0 {
        0
    } else {
        number_of(digits.drop_last()) * 10 + digit_of(digits.last())
    }
}

/// The whole number that a text writes in decimal: a row of one digit at
/// least, with or without a sign in front of it.
pub open spec fn whole_number(text: Seq<char>) -> Option<int> {
    let signed = text.len() > 0 && (text[0] == '-' || text[0] == '+');
    let digits = if signed {
        text.drop_first()
    } else {
        text
    };
    if digits.len() > 0 && all_digits(digits) {
        if text[0] == '-' {
            Some(-number_of(digits))
        } else {
            Some(number_of(digits))
        }
    } else {
        None
    }
}

/// The whole number of 64 bits that a text writes in decimal, if it writes
/// one and the number fits.
pub open spec fn parsed_i64(text: Seq<char>) -> Option<i64> {
    match whole_number(text) {
        Some(number) => if i64::MIN <= number <= i64::MAX {
            Some(number as i64)
        } else {
            None
        },
        None => None,
    }
}

/// A row of digits stands for a number that is not negative, and for no
/// smaller one than any of its beginnings.
pub proof fn lemma_number_grows(digits: Seq<char>, length: int)
    requires
        all_digits(digits),
        0 <= length <= digits.len(),
    ensures
        0 <= number_of(digits.take(length)) <= number_of(digits),
    decreases digits.len() - length,
{
    lemma_number_not_negative(digits.take(length));
    if length < digits.len() {
        lemma_number_grows(digits, length + 1);
        assert(digits.take(length + 1).drop_last() == digits.take(length));
        assert(is_digit(digits[length]));
    } else {
        assert(digits.take(length) == digits);
    }
}

proof fn lemma_number_not_negative(digits: Seq<char>)
    requires
        all_digits(digits),
    ensures
        0 <= number_of(digits),
    decreases digits.len(),
{
    if digits.len() > 0 {
        lemma_number_not_negative(digits.drop_last());
        assert(is_digit(digits.last()));
    }
}

/// Tells whether a character is blank.
pub fn white_space(c: char) -> (blank: bool)
    ensures
        blank == is_white_space(c),
{
    let code = c as u32;
    (0x09 <= code && code <= 0x0D) || code == 0x20 || code == 0x85 || code == 0xA0 || code
        == 0x1680 || (0x2000 <= code && code <= 0x200A) || code == 0x2028 || code == 0x2029
        || code == 0x202F || code == 0x205F || code == 0x3000
}

/// Takes the blanks at the two ends of a text away.
pub fn trim(text: &str) -> (rest: &str)
    ensures
        rest@ == trimmed(text@),
{
    let len = text.unicode_len();
    let mut start: usize = 0;
    proof {
        assert(text@.subrange(0, len as int) == text@);
    }
    while start < len && white_space(text.get_char(start))
        invariant
            start <= len,
            len == text@.len(),
            trim_start_of(text@) == trim_start_of(text@.subrange(start as int, len as int)),
        decreases len - start,
    {
        proof {
            let rest = text@.subrange(start as int, len as int);
            assert(rest.first() == text@[start as int]);
            assert(rest.drop_first() == text@.subrange(start + 1, len as int));
        }
        start += 1;
    }
    proof {
        let rest = text@.subrange(start as int, len as int);
        if start < len {
            assert(rest.first() == text@[start as int]);
        }
        assert(trim_start_of(rest) == rest);
    }
    let mut end: usize = len;
    while end > start && white_space(text.get_char(end - 1))
        invariant
            start <= end <= len,
            len == text@.len(),
            trimmed(text@) == trim_end_of(text@.subrange(start as int, end as int)),
        decreases end,
    {
        proof {
            let rest = text@.subrange(start as int, end as int);
            assert(rest.last() == text@[end - 1]);
            assert(rest.drop_last() == text@.subrange(start as int, end - 1));
        }
        end -= 1;
    }
    proof {
        let rest = text@.subrange(start as int, end as int);
        if end > start {
            assert(rest.last() == text@[end - 1]);
        }
        assert(trim_end_of(rest) == rest);
    }
    text.substring_char(start, end)
}

/// Reads a whole number of 64 bits written in decimal.
pub fn parse_i64(text: &str) -> (number: Option<i64>)
    ensures
        number == parsed_i64(text@),
{
    let len = text.unicode_len();
    if len == 0 {
        return None;
    }
    let first = text.get_char(0);
    let negative = first == '-';
    let start: usize = if first == '-' || first == '+' {
        1
    } else {
        0
    };
    let ghost digits = text@.subrange(start as int, len as int);
    proof {
        if start == 1 {
            assert(digits == text@.drop_first());
        } else {
            assert(digits == text@);
        }
    }
    if start == len {
        return None;
    }
    let mut magnitude: i128 = 0;
    let mut i: usize = start;
    proof {
        assert(digits.take(0) == Seq::<char>::empty());
    }
    while i < len
        invariant
            start <= i <= len,
            len == text@.len(),
            digits == text@.subrange(start as int, len as int),
            digits == if text@[0] == '-' || text@[0] == '+' {
                text@.drop_first()
            } else {
                text@
            },
            all_digits(digits.take(i - start)),
            magnitude == number_of(digits.take(i - start)),
            0 <= magnitude <= 0x8000_0000_0000_0000,
        decreases len - i,
    {
        let c = text.get_char(i);
        let code = c as u32;
        proof {
            assert(digits[i - start] == c);
            assert(digits.take(i - start + 1).drop_last() == digits.take(i - start));
            assert(digits.take(i - start + 1).last() == c);
        }
        if code < 48 || code > 57 {
            assert(!is_digit(digits[i - start]));
            return None;
        }
        magnitude = magnitude * 10 + (code - 48) as i128;
        proof {
            assert forall|k: int| 0 <= k < i - start + 1 implies is_digit(
                #[trigger] digits.take(i - start + 1)[k],
            ) by {
                if k < i - start {
                    assert(digits.take(i - start + 1)[k] == digits.take(i - start)[k]);
                }
            }
        }
        if magnitude > 0x8000_0000_0000_0000 {
            proof {
                if all_digits(digits) {
                    lemma_number_grows(digits, i - start + 1);
                }
            }
            return None;
        }
        i += 1;
    }
    proof {
        assert(digits.take(len - start) == digits);
    }
    if negative {
        Some((-magnitude) as i64)
    } else if magnitude <= 0x7FFF_FFFF_FFFF_FFFF {
        Some(magnitude as i64)
    } else {
        None
    }
}

} // verus!
