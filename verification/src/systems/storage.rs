//! The text in which the high score is stored: a decimal integer, which
//! may stand between white space. Reading and writing the file itself is
//! left to the caller.
use vstd::prelude::*;
use vstd::string::*;

verus! {

/// Why a stored high score could not be read.
#[derive(Clone, Copy, Debug, PartialEq, Eq, Structural)]
pub enum ReadError {
    /// The text is not a decimal integer that fits in 32 bits.
    Unparsable,
}

/// Whether a character is white space, as Unicode's `White_Space` has it.
pub open spec fn is_space(c: char) -> bool {
    let code = c as u32;
    ||| 0x09 <= code <= 0x0D
    ||| code == 0x20
    ||| code == 0x85
    ||| code == 0xA0
    ||| code == 0x1680
    ||| 0x2000 <= code <= 0x200A
    ||| code == 0x2028
    ||| code == 0x2029
    ||| code == 0x202F
    ||| code == 0x205F
    ||| code == 0x3000
}

/// Whether a character is one of the ten decimal digits.
pub open spec fn is_digit(c: char) -> bool {
    0x30 <= c as u32 <= 0x39
}

/// The value of a decimal digit.
pub open spec fn digit_value(c: char) -> int {
    c as u32 - 0x30
}

/// The character of a digit's value.
pub open spec fn digit_char(value: int) -> char {
    (value + 0x30) as char
}

/// A text without the white space at its start.
pub open spec fn trim_start(text: Seq<char>) -> Seq<char>
    decreases text.len(),
{
    if text.len() > 0 && is_space(text[0]) {
        trim_start(text.skip(1))
    } else {
        text
    }
}

/// A text without the white space at its end.
pub open spec fn trim_end(text: Seq<char>) -> Seq<char>
    decreases text.len(),
{
    if text.len() > 0 && is_space(text.last()) {
        trim_end(text.drop_last())
    } else {
        text
    }
}

/// A text without the white space at its start and at its end.
pub open spec fn trimmed(text: Seq<char>) -> Seq<char> {
    trim_end(trim_start(text))
}

/// Whether a text holds nothing but decimal digits.
pub open spec fn all_digits(text: Seq<char>) -> bool {
    forall|i: int| 0 <= i < text.len() ==> is_digit(#[trigger] text[i])
}

/// The number a text of decimal digits stands for.
pub open spec fn digits_value(text: Seq<char>) -> int
    decreases text.len(),
{
    if text.len() == 0 {
        0
    } else {
        digits_value(text.drop_last()) * 10 + digit_value(text.last())
    }
}

/// The integer that a text of decimal digits stands for, negated where
/// `negative` says so. There is none where the text is empty or holds
/// anything but digits, or where the number does not fit in 32 bits.
pub open spec fn number(negative: bool, digits: Seq<char>) -> Option<int> {
    let value = if negative {
        -digits_value(digits)
    } else {
        digits_value(digits)
    };
    if digits.len() == 0 || !all_digits(digits) || value < i32::MIN || value > i32::MAX {
        None
    } else {
        Some(value)
    }
}

/// The integer a text stands for: an optional sign, then at least one
/// decimal digit and nothing else.
pub open spec fn parsed(text: Seq<char>) -> Option<int> {
    if text.len() > 0 && text[0] == '-' {
        number(true, text.skip(1))
    } else if text.len() > 0 && text[0] == '+' {
        number(false, text.skip(1))
    } else {
        number(false, text)
    }
}

/// The decimal digits of a natural number, without leading zeros.
pub open spec fn digits_of(value: nat) -> Seq<char>
    decreases value,
{
    if value < 10 {
        seq![digit_char(value as int)]
    } else {
        digits_of(value / 10).push(digit_char((value % 10) as int))
    }
}

/// The decimal text of an integer: a minus sign if it is negative, then
/// the digits of its magnitude.
pub open spec fn decimal(value: int) -> Seq<char> {
    if value < 0 {
        seq!['-'] + digits_of((-value) as nat)
    } else {
        digits_of(value as nat)
    }
}

/// The high score that a file's content stands for. A file that does not
/// exist stands for no points; the content of one that does is read
/// without the white space around it.
pub open spec fn stored_highscore(content: Option<Seq<char>>) -> Result<i32, ReadError> {
    match content {
        None => Ok(0),
        Some(text) => match parsed(trimmed(text)) {
            Some(value) => Ok(value as i32),
            None => Err(ReadError::Unparsable),
        },
    }
}

/// Tests [`is_space`].
fn is_whitespace(c: char) -> (space: bool)
    ensures
        space == is_space(c),
{
    let code: u32 = c as u32;
    (0x09 <= code && code <= 0x0D) || code == 0x20 || code == 0x85 || code == 0xA0 || code
        == 0x1680 || (0x2000 <= code && code <= 0x200A) || code == 0x2028 || code == 0x2029
        || code == 0x202F || code == 0x205F || code == 0x3000
}

/// Skipping white space one character at a time is trimming the start.
proof fn trim_start_skips(text: Seq<char>, count: int)
    requires
        0 <= count <= text.len(),
        forall|i: int| 0 <= i < count ==> is_space(#[trigger] text[i]),
    ensures
        trim_start(text) == trim_start(text.skip(count)),
    decreases count,
{
    if count > 0 {
        assert(is_space(text[0]));
        let rest = text.skip(1);
        assert forall|i: int| 0 <= i < count - 1 implies is_space(#[trigger] rest[i]) by {
            assert(rest[i] == text[i + 1]);
        }
        trim_start_skips(rest, count - 1);
        assert(rest.skip(count - 1) =~= text.skip(count));
    } else {
        assert(text.skip(0) =~= text);
    }
}

/// Dropping white space one character at a time is trimming the end.
proof fn trim_end_drops(text: Seq<char>, kept: int)
    requires
        0 <= kept <= text.len(),
        forall|i: int| kept <= i < text.len() ==> is_space(#[trigger] text[i]),
    ensures
        trim_end(text) == trim_end(text.take(kept)),
    decreases text.len() - kept,
{
    if kept < text.len() {
        assert(is_space(text.last()));
        let rest = text.drop_last();
        assert forall|i: int| kept <= i < rest.len() implies is_space(#[trigger] rest[i]) by {
            assert(rest[i] == text[i]);
        }
        trim_end_drops(rest, kept);
        assert(rest.take(kept) =~= text.take(kept));
    } else {
        assert(text.take(kept) =~= text);
    }
}

/// The value of a text of digits is not negative, and a digit more makes
/// it no smaller.
proof fn digits_value_grows(text: Seq<char>)
    requires
        text.len() > 0,
        all_digits(text),
    ensures
        0 <= digits_value(text.drop_last()) <= digits_value(text),
    decreases text.len(),
{
    let front = text.drop_last();
    assert(is_digit(text.last()));
    if front.len() > 0 {
        assert forall|i: int| 0 <= i < front.len() implies is_digit(#[trigger] front[i]) by {
            assert(front[i] == text[i]);
        }
        digits_value_grows(front);
    }
}

/// Reads the high score from the content of its file, or from the fact
/// that there is no such file.
pub fn read(content: Option<&str>) -> (result: Result<i32, ReadError>)
    ensures
        result == stored_highscore(
            match content {
                Some(text) => Some(text@),
                None => None,
            },
        ),
{
    let text = match content {
        Some(text) => text,
        None => {
            return Ok(0);
        },
    };
    let length = text.unicode_len();
    let mut start: usize = 0;
    while start < length && is_whitespace(text.get_char(start))
        invariant
            start <= length,
            length == text@.len(),
            forall|i: int| 0 <= i < start ==> is_space(#[trigger] text@[i]),
        decreases length - start,
    {
        start += 1;
    }
    let mut end: usize = length;
    while end > start && is_whitespace(text.get_char(end - 1))
        invariant
            start <= end <= length,
            length == text@.len(),
            forall|i: int| end <= i < length ==> is_space(#[trigger] text@[i]),
        decreases end,
    {
        end -= 1;
    }
    let ghost body = text@.subrange(start as int, end as int);
    proof {
        trim_start_skips(text@, start as int);
        let tail = text@.skip(start as int);
        assert(trim_start(tail) == tail) by {
            if tail.len() > 0 {
                assert(tail[0] == text@[start as int]);
            }
        }
        assert forall|i: int| end - start <= i < tail.len() implies is_space(#[trigger] tail[i]) by {
            assert(tail[i] == text@[i + start]);
        }
        trim_end_drops(tail, end - start);
        assert(tail.take(end - start) =~= body);
        assert(trim_end(body) == body) by {
            if body.len() > 0 {
                assert(body.last() == text@[end - 1]);
            }
        }
        assert(trimmed(text@) == body);
    }
    let mut at: usize = start;
    let mut negative = false;
    if at < end {
        let first = text.get_char(at);
        assert(first == body[0]);
        if first == '-' {
            negative = true;
            at += 1;
        } else if first == '+' {
            at += 1;
        }
    }
    let ghost digits = text@.subrange(at as int, end as int);
    proof {
        if at > start {
            assert(digits =~= body.skip(1));
        } else {
            assert(digits =~= body);
        }
    }
    assert(parsed(trimmed(text@)) == number(negative, digits));
    if at == end {
        return Err(ReadError::Unparsable);
    }
    let first_digit = at;
    let mut magnitude: i64 = 0;
    let mut too_large = false;
    while at < end
        invariant
            first_digit <= at <= end <= length,
            length == text@.len(),
            digits == text@.subrange(first_digit as int, end as int),
            content == Some(text),
            parsed(trimmed(text@)) == number(negative, digits),
            all_digits(digits.take(at - first_digit)),
            0 <= magnitude <= 0x8000_0000,
            !too_large ==> magnitude == digits_value(digits.take(at - first_digit)),
            too_large ==> digits_value(digits.take(at - first_digit)) > 0x8000_0000,
        decreases end - at,
    {
        let c = text.get_char(at);
        let code: u32 = c as u32;
        let ghost seen = digits.take(at - first_digit);
        let ghost next = digits.take(at - first_digit + 1);
        proof {
            assert(c == digits[at - first_digit]);
            assert(next.drop_last() =~= seen);
            assert(next.last() == c);
        }
        if code < 0x30 || code > 0x39 {
            assert(!is_digit(digits[at - first_digit]));
            return Err(ReadError::Unparsable);
        }
        proof {
            assert forall|i: int| 0 <= i < next.len() implies is_digit(#[trigger] next[i]) by {
                if i < seen.len() {
                    assert(seen[i] == next[i]);
                }
            }
            digits_value_grows(next);
        }
        if !too_large {
            let grown: i64 = magnitude * 10 + (code - 0x30) as i64;
            if grown > 0x8000_0000 {
                too_large = true;
            } else {
                magnitude = grown;
            }
        }
        at += 1;
    }
    proof {
        assert(digits.take(at - first_digit) =~= digits);
    }
    if too_large {
        return Err(ReadError::Unparsable);
    }
    if negative {
        Ok((-magnitude) as i32)
    } else if magnitude > 0x7FFF_FFFF {
        Err(ReadError::Unparsable)
    } else {
        Ok(magnitude as i32)
    }
}

/// The text of one decimal digit.
fn digit_text(value: u8) -> (text: &'static str)
    requires
        value < 10,
    ensures
        text@ == seq![digit_char(value as int)],
{
    proof {
        reveal_strlit("0");
        reveal_strlit("1");
        reveal_strlit("2");
        reveal_strlit("3");
        reveal_strlit("4");
        reveal_strlit("5");
        reveal_strlit("6");
        reveal_strlit("7");
        reveal_strlit("8");
        reveal_strlit("9");
    }
    let text = if value == 0 {
        "0"
    } else if value == 1 {
        "1"
    } else if value == 2 {
        "2"
    } else if value == 3 {
        "3"
    } else if value == 4 {
        "4"
    } else if value == 5 {
        "5"
    } else if value == 6 {
        "6"
    } else if value == 7 {
        "7"
    } else if value == 8 {
        "8"
    } else {
        "9"
    };
    assert(text@ =~= seq![digit_char(value as int)]);
    text
}

/// The digits of a number, the last one first.
spec fn digits_reversed(value: nat) -> Seq<u8>
    decreases value,
{
    if value < 10 {
        seq![value as u8]
    } else {
        seq![(value % 10) as u8] + digits_reversed(value / 10)
    }
}

/// The text of the digits that stand, last one first, in `reversed`.
spec fn text_of_reversed(reversed: Seq<u8>) -> Seq<char>
    decreases reversed.len(),
{
    if reversed.len() == 0 {
        Seq::empty()
    } else {
        text_of_reversed(reversed.skip(1)).push(digit_char(reversed[0] as int))
    }
}

/// The digits of a number, read from its last one back, are its digits.
proof fn reversed_digits_spell_the_number(value: nat)
    ensures
        text_of_reversed(digits_reversed(value)) == digits_of(value),
        digits_reversed(value).len() > 0,
        forall|i: int| 0 <= i < digits_reversed(value).len() ==> #[trigger] digits_reversed(value)[i] < 10,
    decreases value,
{
    let reversed = digits_reversed(value);
    if value < 10 {
        assert(reversed.skip(1) =~= Seq::<u8>::empty());
        assert(text_of_reversed(reversed.skip(1)) =~= Seq::<char>::empty());
        assert(text_of_reversed(reversed) =~= digits_of(value));
    } else {
        reversed_digits_spell_the_number(value / 10);
        assert(reversed.skip(1) =~= digits_reversed(value / 10));
        assert forall|i: int| 0 <= i < reversed.len() implies #[trigger] reversed[i] < 10 by {
            if i > 0 {
                assert(reversed[i] == digits_reversed(value / 10)[i - 1]);
            }
        }
    }
}

/// The text to store for a high score: its decimal digits, after a
/// minus sign if it is negative.
pub fn write(high_score: i32) -> (text: String)
    ensures
        text@ == decimal(high_score as int),
{
    let mut text = String::new();
    let mut rest: u32 = if high_score < 0 {
        proof {
            reveal_strlit("-");
        }
        text.append("-");
        (-(high_score as i64)) as u32
    } else {
        high_score as u32
    };
    let ghost sign = text@;
    let ghost magnitude = rest as nat;
    assert(sign =~= if high_score < 0 {
        seq!['-']
    } else {
        Seq::<char>::empty()
    });
    let mut reversed: Vec<u8> = Vec::new();
    while rest >= 10
        invariant
            text@ == sign,
            digits_reversed(magnitude) == reversed@ + digits_reversed(rest as nat),
        decreases rest,
    {
        let ghost before = rest;
        reversed.push((rest % 10) as u8);
        rest = rest / 10;
        assert(digits_reversed(before as nat) =~= seq![(before % 10) as u8] + digits_reversed(
            rest as nat,
        ));
        assert(reversed@ + digits_reversed(rest as nat) =~= digits_reversed(magnitude));
    }
    reversed.push(rest as u8);
    proof {
        assert(reversed@ =~= digits_reversed(magnitude));
        reversed_digits_spell_the_number(magnitude);
    }
    let mut left: usize = reversed.len();
    assert(reversed@.take(left as int) =~= reversed@);
    assert(sign + text_of_reversed(reversed@) =~= text@ + text_of_reversed(
        reversed@.take(left as int),
    ));
    while left > 0
        invariant
            left <= reversed.len(),
            forall|i: int| 0 <= i < reversed@.len() ==> #[trigger] reversed@[i] < 10,
            sign + text_of_reversed(reversed@) == text@ + text_of_reversed(
                reversed@.take(left as int),
            ),
        decreases left,
    {
        left -= 1;
        let digit = reversed[left];
        proof {
            text_of_prefix_ends_with_its_first(reversed@, left as int);
        }
        text.append(digit_text(digit));
        assert(sign + text_of_reversed(reversed@) =~= text@ + text_of_reversed(
            reversed@.take(left as int),
        ));
    }
    proof {
        assert(reversed@.take(0) =~= Seq::<u8>::empty());
        assert(text@ =~= sign + digits_of(magnitude));
        assert(sign + digits_of(magnitude) =~= decimal(high_score as int));
    }
    text
}

/// The text of the first `count + 1` reversed digits begins with the
/// digit at `count` and goes on with the text of the first `count`.
proof fn text_of_prefix_ends_with_its_first(reversed: Seq<u8>, count: int)
    requires
        0 <= count < reversed.len(),
    ensures
        text_of_reversed(reversed.take(count + 1)) == seq![digit_char(reversed[count] as int)]
            + text_of_reversed(reversed.take(count)),
    decreases count,
{
    let longer = reversed.take(count + 1);
    let shorter = reversed.take(count);
    if count == 0 {
        assert(longer.skip(1) =~= Seq::<u8>::empty());
        assert(text_of_reversed(longer.skip(1)) =~= Seq::<char>::empty());
        assert(text_of_reversed(shorter) =~= Seq::<char>::empty());
        assert(text_of_reversed(longer) =~= seq![digit_char(reversed[0] as int)]);
    } else {
        let tail = reversed.skip(1);
        text_of_prefix_ends_with_its_first(tail, count - 1);
        assert(longer.skip(1) =~= tail.take(count));
        assert(shorter.skip(1) =~= tail.take(count - 1));
        assert(tail[count - 1] == reversed[count]);
        assert(longer[0] == shorter[0]);
        assert(text_of_reversed(longer) =~= seq![digit_char(reversed[count] as int)]
            + text_of_reversed(shorter));
    }
}

/// The digits of a number are digits, at least one of them, and stand
/// for the number.
pub proof fn digits_spell_their_number(value: nat)
    ensures
        digits_of(value).len() > 0,
        all_digits(digits_of(value)),
        digits_value(digits_of(value)) == value,
    decreases value,
{
    let digits = digits_of(value);
    if value < 10 {
        assert(digits.drop_last() =~= Seq::<char>::empty());
        assert(digits_value(digits.drop_last()) == 0);
        assert(digits.last() == digit_char(value as int));
    } else {
        digits_spell_their_number(value / 10);
        assert(digits.drop_last() =~= digits_of(value / 10));
        assert(digits.last() == digit_char((value % 10) as int));
        assert forall|i: int| 0 <= i < digits.len() implies is_digit(#[trigger] digits[i]) by {
            if i < digits.len() - 1 {
                assert(digits[i] == digits_of(value / 10)[i]);
            }
        }
    }
}

/// The text written for a high score reads back as that high score, and
/// a file that does not exist reads as no points.
pub proof fn written_highscore_reads_back(high_score: i32)
    ensures
        stored_highscore(Some(decimal(high_score as int))) == Ok::<i32, ReadError>(high_score),
        stored_highscore(None) == Ok::<i32, ReadError>(0),
{
    let text = decimal(high_score as int);
    let magnitude = if high_score < 0 {
        (-high_score) as nat
    } else {
        high_score as nat
    };
    let digits = digits_of(magnitude);
    digits_spell_their_number(magnitude);
    assert(is_digit(digits[0]));
    assert(is_digit(digits.last()));
    if high_score < 0 {
        assert(text[0] == '-');
        assert(text.last() == digits.last());
        assert(text.skip(1) =~= digits);
    } else {
        assert(text =~= digits);
    }
    assert(!is_space(text[0]));
    assert(!is_space(text.last()));
    assert(trimmed(text) == text);
}

} // verus!
