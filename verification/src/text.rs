//! Text: decimal numbers, surrounding whitespace, comparison and search.

use vstd::prelude::*;
use vstd::string::*;

verus! {

/// The decimal digit for a value below ten.
pub open spec fn digit_char(value: int) -> char {
    (48 + value) as char
}

/// Whether a character is a decimal digit.
pub open spec fn is_digit(c: char) -> bool {
    '0' <= c <= '9'
}

/// The decimal digits of a number, without leading zeros.
pub open spec fn decimal(n: nat) -> Seq<char>
    decreases n,
{
    if n < 10 {
        seq![digit_char(n as int)]
    } else {
        decimal(n / 10).push(digit_char((n % 10) as int))
    }
}

/// A number in decimal, with a minus sign where it is negative.
pub open spec fn signed_decimal(n: int) -> Seq<char> {
    if n < 0 {
        seq!['-'] + decimal((-n) as nat)
    } else {
        decimal(n as nat)
    }
}

/// The number that decimal digits stand for.
pub open spec fn decimal_value(digits: Seq<char>) -> nat
    decreases digits.len(),
{
    if digits.len() == 0 {
        0
    } else {
        (decimal_value(digits.drop_last()) * 10 + (digits.last() as int - 48)) as nat
    }
}

/// The digits of a text: all of it, but for one plus sign in front.
pub open spec fn unsigned_digits(text: Seq<char>) -> Seq<char> {
    if text.len() > 0 && text[0] == '+' {
        text.subrange(1, text.len() as int)
    } else {
        text
    }
}

/// The 32-bit unsigned number that a text stands for: decimal digits, at
/// least one, with at most one plus sign in front.
pub open spec fn parsed_u32(text: Seq<char>) -> Option<u32> {
    let digits = unsigned_digits(text);
    if digits.len() > 0 && (forall|i: int| 0 <= i < digits.len() ==> is_digit(digits[i]))
        && decimal_value(digits) <= u32::MAX {
        Some(decimal_value(digits) as u32)
    } else {
        None
    }
}

fn digit_text(value: u64) -> (text: &'static str)
    requires
        value < 10,
    ensures
        text@ == seq![digit_char(value as int)],
{
    proof {
        reveal_strlit("0");
        reveal_strlit("1");
        reveal_strlit("2");
        reveal_strlit("3");
        reveal_strlit("4");
        reveal_strlit("5");
        reveal_strlit("6");
        reveal_strlit("7");
        reveal_strlit("8");
        reveal_strlit("9");
    }
    if value == 0 {
        "0"
    } else if value == 1 {
        "1"
    } else if value == 2 {
        "2"
    } else if value == 3 {
        "3"
    } else if value == 4 {
        "4"
    } else if value == 5 {
        "5"
    } else if value == 6 {
        "6"
    } else if value == 7 {
        "7"
    } else if value == 8 {
        "8"
    } else {
        "9"
    }
}

/// Appends a number in decimal.
pub fn append_decimal(out: &mut String, n: u64)
    ensures
        final(out)@ == old(out)@ + decimal(n as nat),
    decreases n,
{
    if n >= 10 {
        append_decimal(out, n / 10);
    }
    out.append(digit_text(n % 10));
    proof {
        if n >= 10 {
            assert(out@ =~= old(out)@ + decimal((n / 10) as nat).push(digit_char((n % 10) as int)));
        }
    }
}

/// Appends a number in decimal, with a minus sign where it is negative.
pub fn append_signed_decimal(out: &mut String, n: i64)
    ensures
        final(out)@ == old(out)@ + signed_decimal(n as int),
{
    if n < 0 {
        proof {
            reveal_strlit("-");
        }
        out.append("-");
        assert(out@ =~= old(out)@ + seq!['-']);
        let magnitude: u64 = if n == i64::MIN {
            0x8000_0000_0000_0000
        } else {
            (-n) as u64
        };
        append_decimal(out, magnitude);
        assert(out@ =~= old(out)@ + signed_decimal(n as int));
    } else {
        append_decimal(out, n as u64);
    }
}

/// The characters of a text.
pub fn chars_of(text: &str) -> (chars: Vec<char>)
    ensures
        chars@ == text@,
{
    let mut chars: Vec<char> = Vec::new();
    for c in iter: text.chars()
        invariant
            iter.seq() == text@,
            chars@ == text@.subrange(0, iter.index() as int),
    {
        chars.push(c);
    }
    assert(text@.subrange(0, text@.len() as int) =~= text@);
    chars
}

proof fn lemma_decimal_value_grows(digits: Seq<char>, n: int)
    requires
        0 <= n <= digits.len(),
        forall|i: int| 0 <= i < digits.len() ==> is_digit(#[trigger] digits[i]),
    ensures
        decimal_value(digits.subrange(0, n)) <= decimal_value(digits),
    decreases digits.len(),
{
    if n == digits.len() {
        assert(digits.subrange(0, n) =~= digits);
    } else {
        lemma_decimal_value_grows(digits.drop_last(), n);
        assert(digits.drop_last().subrange(0, n) =~= digits.subrange(0, n));
        assert(is_digit(digits.last()));
    }
}

/// Reads a 32-bit unsigned number.
pub fn parse_u32(text: &str) -> (number: Option<u32>)
    ensures
        number == parsed_u32(text@),
{
    let chars = chars_of(text);
    let start: usize = if chars.len() > 0 && chars[0] == '+' {
        1
    } else {
        0
    };
    let ghost digits = unsigned_digits(text@);
    assert(digits =~= text@.subrange(start as int, text@.len() as int));
    if chars.len() == start {
        return None;
    }
    let mut value: u64 = 0;
    let mut i: usize = start;
    while i < chars.len()
        invariant
            start <= i <= chars.len(),
            chars@ == text@,
            digits == text@.subrange(start as int, text@.len() as int),
            digits == unsigned_digits(text@),
            digits.len() > 0,
            forall|j: int| 0 <= j < i - start ==> is_digit(#[trigger] digits[j]),
            value == decimal_value(digits.subrange(0, i - start)),
            value <= u32::MAX,
        decreases chars.len() - i,
    {
        let c = chars[i];
        assert(digits[i - start] == c);
        if !('0' <= c && c <= '9') {
            assert(!is_digit(digits[i - start]));
            return None;
        }
        let digit: u64 = c as u64 - 48;
        proof {
            let next = digits.subrange(0, i - start + 1);
            assert(next.drop_last() =~= digits.subrange(0, i - start));
            assert(next.last() == c);
        }
        value = value * 10 + digit;
        i = i + 1;
        if value > u32::MAX as u64 {
            proof {
                if forall|j: int| 0 <= j < digits.len() ==> is_digit(#[trigger] digits[j]) {
                    lemma_decimal_value_grows(digits, i - start);
                }
            }
            return None;
        }
    }
    assert(digits.subrange(0, i - start) =~= digits);
    Some(value as u32)
}

/// A number's decimal text consists of digits and stands for the number.
pub proof fn lemma_decimal_digits(n: nat)
    ensures
        decimal(n).len() > 0,
        forall|i: int| 0 <= i < decimal(n).len() ==> is_digit(#[trigger] decimal(n)[i]),
        decimal_value(decimal(n)) == n,
    decreases n,
{
    reveal_with_fuel(decimal_value, 2);
    if n < 10 {
        assert(decimal(n).drop_last() =~= Seq::<char>::empty());
        assert(decimal(n).last() == digit_char(n as int));
    } else {
        lemma_decimal_digits(n / 10);
        assert(decimal(n).drop_last() =~= decimal(n / 10));
        assert(decimal(n).last() == digit_char((n % 10) as int));
    }
}

/// A number's decimal text reads back as the number.
pub proof fn law_parse_undoes_decimal(n: u32)
    ensures
        parsed_u32(decimal(n as nat)) == Some(n),
{
    lemma_decimal_digits(n as nat);
    assert(is_digit(decimal(n as nat)[0]));
}

/// The characters with the Unicode property `White_Space`.
pub open spec fn is_whitespace(c: char) -> bool {
    ||| 9 <= c as int <= 13
    ||| c as int == 0x20
    ||| c as int == 0x85
    ||| c as int == 0xa0
    ||| c as int == 0x1680
    ||| 0x2000 <= c as int <= 0x200a
    ||| c as int == 0x2028
    ||| c as int == 0x2029
    ||| c as int == 0x202f
    ||| c as int == 0x205f
    ||| c as int == 0x3000
}

fn whitespace(c: char) -> (result: bool)
    ensures
        result == is_whitespace(c),
{
    let code: u32 = c as u32;
    (9 <= code && code <= 13) || code == 0x20 || code == 0x85 || code == 0xa0 || code == 0x1680 || (
    0x2000 <= code && code <= 0x200a) || code == 0x2028 || code == 0x2029 || code == 0x202f || code
        == 0x205f || code == 0x3000
}

/// A text without the whitespace at its start.
pub open spec fn trimmed_start(text: Seq<char>) -> Seq<char>
    decreases text.len(),
{
    if text.len() > 0 && is_whitespace(text[0]) {
        trimmed_start(text.subrange(1, text.len() as int))
    } else {
        text
    }
}

/// A text without the whitespace at its end.
pub open spec fn trimmed_end(text: Seq<char>) -> Seq<char>
    decreases text.len(),
{
    if text.len() > 0 && is_whitespace(text.last()) {
        trimmed_end(text.drop_last())
    } else {
        text
    }
}

/// A text without the whitespace at its ends.
pub open spec fn trimmed(text: Seq<char>) -> Seq<char> {
    trimmed_end(trimmed_start(text))
}

/// A text without the whitespace at its ends.
pub fn trim(text: &str) -> (result: String)
    ensures
        result@ == trimmed(text@),
{
    let chars = chars_of(text);
    let mut from: usize = 0;
    assert(text@.subrange(0, text@.len() as int) =~= text@);
    while from < chars.len() && whitespace(chars[from])
        invariant
            from <= chars.len(),
            chars@ == text@,
            trimmed_start(text@) == trimmed_start(text@.subrange(from as int, text@.len() as int)),
        decreases chars.len() - from,
    {
        proof {
            let rest = text@.subrange(from as int, text@.len() as int);
            assert(rest[0] == chars@[from as int]);
            assert(rest.subrange(1, rest.len() as int) =~= text@.subrange(
                from + 1,
                text@.len() as int,
            ));
        }
        from = from + 1;
    }
    let ghost rest = text@.subrange(from as int, text@.len() as int);
    assert(trimmed_start(text@) == rest) by {
        if from < chars.len() {
            assert(rest[0] == chars@[from as int]);
        }
    }
    let mut to: usize = chars.len();
    while from < to && whitespace(chars[to - 1])
        invariant
            from <= to <= chars.len(),
            chars@ == text@,
            trimmed_end(rest) == trimmed_end(text@.subrange(from as int, to as int)),
        decreases to,
    {
        proof {
            let left = text@.subrange(from as int, to as int);
            assert(left.last() == chars@[to - 1]);
            assert(left.drop_last() =~= text@.subrange(from as int, to - 1));
        }
        to = to - 1;
    }
    assert(trimmed_end(rest) == text@.subrange(from as int, to as int)) by {
        let left = text@.subrange(from as int, to as int);
        if from < to {
            assert(left.last() == chars@[to - 1]);
        }
    }
    text.substring_char(from, to).to_owned()
}

/// A text without whitespace is left as it is.
pub proof fn lemma_trimmed_without_whitespace(text: Seq<char>)
    requires
        forall|i: int| 0 <= i < text.len() ==> !is_whitespace(#[trigger] text[i]),
    ensures
        trimmed(text) == text,
{
    if text.len() > 0 {
        assert(!is_whitespace(text[0]));
        assert(!is_whitespace(text[text.len() - 1]));
    }
}

/// Whether two texts are the same.
pub fn same_text(one: &str, other: &str) -> (same: bool)
    ensures
        same == (one@ == other@),
{
    one.to_owned() == other.to_owned()
}

/// Whether `at` is where a character first occurs in a text.
pub open spec fn first_occurrence(text: Seq<char>, wanted: char, at: int) -> bool {
    &&& 0 <= at < text.len()
    &&& text[at] == wanted
    &&& forall|i: int| 0 <= i < at ==> text[i] != wanted
}

/// Where a character first occurs in a text.
pub fn find_char(chars: &Vec<char>, wanted: char) -> (at: Option<usize>)
    ensures
        match at {
            Some(at) => first_occurrence(chars@, wanted, at as int),
            None => !chars@.contains(wanted),
        },
{
    let mut i: usize = 0;
    while i < chars.len()
        invariant
            i <= chars.len(),
            forall|j: int| 0 <= j < i ==> chars@[j] != wanted,
        decreases chars.len() - i,
    {
        if chars[i] == wanted {
            return Some(i);
        }
        i = i + 1;
    }
    None
}

/// Whether two byte strings are the same.
pub fn same_bytes(one: &[u8], other: &[u8]) -> (same: bool)
    ensures
        same == (one@ == other@),
{
    if one.len() != other.len() {
        return false;
    }
    let mut i: usize = 0;
    while i < one.len()
        invariant
            i <= one.len(),
            one@.len() == other@.len(),
            forall|j: int| 0 <= j < i ==> one@[j] == other@[j],
        decreases one.len() - i,
    {
        if one[i] != other[i] {
            return false;
        }
        i = i + 1;
    }
    assert(one@ =~= other@);
    true
}

} // verus!
