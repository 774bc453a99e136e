//! Reading console input: a line of text, with or without an integer in it.
//!
//! White space around the text does not count. An integer is written in
//! decimal: an optional sign, `+` or `-`, and at least one digit, with nothing
//! else before, between or after them. It must fit in a 32-bit signed word.

use crate::error::ErrorKind;
use vstd::prelude::*;
use vstd::string::*;

verus! {

/// Whether `c` is white space: a character that Unicode classes as
/// `White_Space`.
pub open spec fn is_space(c: char) -> bool {
    ||| '\u{9}' <= c <= '\u{d}'
    ||| c == ' '
    ||| c == '\u{85}'
    ||| c == '\u{a0}'
    ||| c == '\u{1680}'
    ||| '\u{2000}' <= c <= '\u{200a}'
    ||| c == '\u{2028}'
    ||| c == '\u{2029}'
    ||| c == '\u{202f}'
    ||| c == '\u{205f}'
    ||| c == '\u{3000}'
}

/// `s` without the white space at its start.
pub open spec fn strip_start(s: Seq<char>) -> Seq<char>
    decreases s.len(),
{
    if s.len() > 0 && is_space(s[0]) {
        strip_start(s.skip(1))
    } else {
        s
    }
}

/// `s` without the white space at its end.
pub open spec fn strip_end(s: Seq<char>) -> Seq<char>
    decreases s.len(),
{
    if s.len() > 0 && is_space(s.last()) {
        strip_end(s.drop_last())
    } else {
        s
    }
}

/// `s` without the white space at its start and at its end.
pub open spec fn trimmed(s: Seq<char>) -> Seq<char> {
    strip_end(strip_start(s))
}

/// Whether `c` is one of the ten decimal digits.
pub open spec fn is_digit(c: char) -> bool {
    '0' <= c <= '9'
}

/// The number that a string of digits denotes in decimal; 0 for the empty
/// string.
pub open spec fn decimal(s: Seq<char>) -> int
    decreases s.len(),
{
    if s.len() == 0 {
        0
    } else {
        10 * decimal(s.drop_last()) + (s.last() as int - '0' as int)
    }
}

/// Whether `s` holds digits only.
pub open spec fn all_digits(s: Seq<char>) -> bool {
    forall|i: int| 0 <= i < s.len() ==> is_digit(#[trigger] s[i])
}

/// The integer that `s` denotes, if it denotes one that fits in a word.
pub open spec fn integer(s: Seq<char>) -> Option<i32> {
    let negative = s.len() > 0 && s[0] == '-';
    let signed = s.len() > 0 && (s[0] == '-' || s[0] == '+');
    let digits = if signed {
        s.skip(1)
    } else {
        s
    };
    let value = if negative {
        -decimal(digits)
    } else {
        decimal(digits)
    };
    if digits.len() > 0 && all_digits(digits) && i32::MIN <= value <= i32::MAX {
        Some(value as i32)
    } else {
        None
    }
}

/// The integer that a line of input denotes, white space around it aside.
pub open spec fn parsed(text: Seq<char>) -> Option<i32> {
    integer(trimmed(text))
}

/// What `strip_start` takes off is white space, and what it leaves does not
/// start with any.
pub proof fn lemma_strip_start(s: Seq<char>)
    ensures
        ({
            let rest = strip_start(s);
            let taken = s.len() - rest.len();
            &&& 0 <= taken <= s.len()
            &&& rest == s.skip(taken)
            &&& forall|i: int| 0 <= i < taken ==> is_space(#[trigger] s[i])
            &&& rest.len() > 0 ==> !is_space(rest.first())
        }),
    decreases s.len(),
{
    if s.len() > 0 && is_space(s[0]) {
        let tail = s.skip(1);
        lemma_strip_start(tail);
        let rest = strip_start(tail);
        let taken = tail.len() - rest.len();
        assert forall|i: int| 0 <= i < taken + 1 implies is_space(#[trigger] s[i]) by {
            if i > 0 {
                assert(s[i] == tail[i - 1]);
            }
        }
    }
}

/// What `strip_end` takes off is white space, and what it leaves does not
/// end with any.
pub proof fn lemma_strip_end(s: Seq<char>)
    ensures
        ({
            let rest = strip_end(s);
            &&& rest.len() <= s.len()
            &&& rest == s.take(rest.len() as int)
            &&& forall|i: int| rest.len() <= i < s.len() ==> is_space(#[trigger] s[i])
            &&& rest.len() > 0 ==> !is_space(rest.last())
        }),
    decreases s.len(),
{
    if s.len() > 0 && is_space(s.last()) {
        let head = s.drop_last();
        lemma_strip_end(head);
        let rest = strip_end(head);
        assert forall|i: int| rest.len() <= i < s.len() implies is_space(#[trigger] s[i]) by {
            if i < s.len() - 1 {
                assert(s[i] == head[i]);
            }
        }
    }
}

/// Trimming cuts a stretch out of the text: what lies before and behind it
/// is white space, and the stretch neither starts nor ends with any. Text
/// that was trimmed is not changed by trimming it again.
pub proof fn lemma_trimmed(s: Seq<char>)
    ensures
        exists|from: int, to: int|
            {
                &&& 0 <= from <= to <= s.len()
                &&& #[trigger] s.subrange(from, to) == trimmed(s)
                &&& forall|i: int| 0 <= i < from || to <= i < s.len() ==> is_space(#[trigger] s[i])
            },
        trimmed(s).len() > 0 ==> !is_space(trimmed(s).first()) && !is_space(trimmed(s).last()),
        trimmed(trimmed(s)) == trimmed(s),
{
    lemma_strip_start(s);
    let middle = strip_start(s);
    let from = s.len() - middle.len();
    lemma_strip_end(middle);
    let rest = strip_end(middle);
    let to = from + rest.len();
    assert(s.subrange(from, to) =~= rest);
    assert forall|i: int| 0 <= i < from || to <= i < s.len() implies is_space(#[trigger] s[i]) by {
        if to <= i {
            assert(s[i] == middle[i - from]);
        }
    }
}

/// White space around a line of input does not change what it denotes.
pub proof fn lemma_parsed_ignores_space(s: Seq<char>)
    ensures
        parsed(trimmed(s)) == parsed(s),
{
    lemma_trimmed(s);
}

/// A string of digits denotes a number that is not negative and not smaller
/// than what any of its prefixes denotes.
pub proof fn lemma_decimal_grows(s: Seq<char>, k: int)
    requires
        all_digits(s),
        0 <= k <= s.len(),
    ensures
        0 <= decimal(s.take(k)) <= decimal(s),
    decreases s.len(),
{
    if k == s.len() {
        assert(s.take(k) =~= s);
        if s.len() > 0 {
            lemma_decimal_grows(s.drop_last(), k - 1);
        }
    } else {
        lemma_decimal_grows(s.drop_last(), k);
        assert(s.drop_last().take(k) =~= s.take(k));
    }
}

fn is_space_char(c: char) -> (r: bool)
    ensures
        r == is_space(c),
{
    let n: u32 = c as u32;
    (0x9 <= n && n <= 0xd) || n == 0x20 || n == 0x85 || n == 0xa0 || n == 0x1680 || (0x2000 <= n
        && n <= 0x200a) || n == 0x2028 || n == 0x2029 || n == 0x202f || n == 0x205f || n == 0x3000
}

/// The value of `c` as a decimal digit, if it is one.
fn digit(c: char) -> (r: Option<i64>)
    ensures
        r is Some <==> is_digit(c),
        r is Some ==> r->Some_0 == c as int - '0' as int,
{
    let code: u32 = c as u32;
    if 48 <= code && code <= 57 {
        Some((code - 48) as i64)
    } else {
        None
    }
}

fn characters(text: &str) -> (r: Vec<char>)
    ensures
        r@ == text@,
{
    let mut chars: Vec<char> = Vec::new();
    for c in it: text.chars()
        invariant
            chars@ == it.seq().take(it.index() as int),
            it.seq() == text@,
    {
        chars.push(c);
    }
    chars
}

/// Finds where the text of `chars` starts and ends once the white space
/// around it is left out.
fn trim_bounds(chars: &Vec<char>) -> (r: (usize, usize))
    ensures
        r.0 <= r.1 <= chars.len(),
        chars@.subrange(r.0 as int, r.1 as int) == trimmed(chars@),
{
    let n: usize = chars.len();
    let mut start: usize = 0;
    assert(chars@.subrange(0, n as int) =~= chars@);
    while start < n && is_space_char(chars[start])
        invariant
            start <= n,
            n == chars.len(),
            strip_start(chars@) == strip_start(chars@.subrange(start as int, n as int)),
        decreases n - start,
    {
        assert(chars@.subrange(start as int, n as int).skip(1) =~= chars@.subrange(
            start as int + 1,
            n as int,
        ));
        start += 1;
    }
    let mut end: usize = n;
    while start < end && is_space_char(chars[end - 1])
        invariant
            start <= end <= n,
            n == chars.len(),
            strip_end(strip_start(chars@)) == strip_end(chars@.subrange(start as int, end as int)),
        decreases end - start,
    {
        assert(chars@.subrange(start as int, end as int).drop_last() =~= chars@.subrange(
            start as int,
            end as int - 1,
        ));
        end -= 1;
    }
    (start, end)
}

/// Reads the integer that the characters from `start` up to `end` denote.
#[verifier::loop_isolation(false)]
fn parse_integer(chars: &Vec<char>, start: usize, end: usize) -> (r: Option<i32>)
    requires
        start <= end <= chars.len(),
    ensures
        r == integer(chars@.subrange(start as int, end as int)),
{
    if start == end {
        return None;
    }
    let ghost s = chars@.subrange(start as int, end as int);
    let negative: bool = chars[start] == '-';
    let signed: bool = negative || chars[start] == '+';
    let from: usize = if signed {
        start + 1
    } else {
        start
    };
    let ghost digits = chars@.subrange(from as int, end as int);
    assert(digits =~= if signed {
        s.skip(1)
    } else {
        s
    });
    if from == end {
        return None;
    }
    let mut total: i64 = 0;
    let mut k: usize = from;
    while k < end
        invariant
            from <= k <= end <= chars.len(),
            all_digits(chars@.subrange(from as int, k as int)),
            total == decimal(chars@.subrange(from as int, k as int)),
            0 <= total <= 0x8000_0000,
        decreases end - k,
    {
        let c: char = chars[k];
        let next: i64 = match digit(c) {
            Some(d) => total * 10 + d,
            None => {
                assert(!is_digit(digits[k - from]));
                return None;
            },
        };
        proof {
            let head = chars@.subrange(from as int, k as int + 1);
            assert(head.drop_last() =~= chars@.subrange(from as int, k as int));
            assert(all_digits(head)) by {
                assert forall|i: int| 0 <= i < head.len() implies is_digit(#[trigger] head[i]) by {
                    if i < head.len() - 1 {
                        assert(head[i] == head.drop_last()[i]);
                    }
                }
            }
            assert(head =~= digits.take(k + 1 - from));
            if all_digits(digits) {
                lemma_decimal_grows(digits, k + 1 - from);
            }
        }
        if next > 0x8000_0000 {
            return None;
        }
        total = next;
        k += 1;
    }
    if negative {
        Some((-total) as i32)
    } else if total > 0x7fff_ffff {
        None
    } else {
        Some(total as i32)
    }
}

/// Takes the white space off both ends of `text`.
pub fn trim(text: &str) -> (r: String)
    ensures
        r@ == trimmed(text@),
{
    let chars = characters(text);
    let (start, end) = trim_bounds(&chars);
    text.substring_char(start, end).to_owned()
}

/// Reads an integer from a line of input. Text that is no integer, or one
/// that does not fit in a word, gives `InputParseError`.
pub fn parse_input(text: &str) -> (r: Result<i32, ErrorKind>)
    ensures
        r == match parsed(text@) {
            Some(value) => Ok::<i32, ErrorKind>(value),
            None => Err::<i32, ErrorKind>(ErrorKind::InputParseError),
        },
{
    let chars = characters(text);
    let (start, end) = trim_bounds(&chars);
    match parse_integer(&chars, start, end) {
        Some(value) => Ok(value),
        None => Err(ErrorKind::InputParseError),
    }
}

} // verus!
