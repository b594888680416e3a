//! Character-level helpers for the strings the library works on.

use vstd::prelude::*;
use vstd::std_specs::iter::IteratorSpec;

verus! {

/// Appends one character to `text`.
///
/// Wraps `String::push`, which vstd leaves unspecified: the string afterwards is the
/// string before followed by `c`.
#[verifier::external_body]
pub(crate) fn push_char(text: &mut String, c: char)
    ensures
        final(text)@ == old(text)@.push(c),
{
    text.push(c);
}

/// The characters of `text`, in order.
pub fn chars_of(text: &str) -> (chars: Vec<char>)
    ensures
        chars@ == text@,
{
    broadcast use vstd::string::group_string_axioms;

    let mut chars: Vec<char> = Vec::new();
    let mut iter = text.chars();
    loop
        invariant
            iter.obeys_prophetic_iter_laws(),
            chars@ + iter.remaining() == text@,
            iter.decrease() is Some,
        decreases iter.decrease()->0,
    {
        match iter.next() {
            Some(c) => {
                chars.push(c);
            },
            None => {
                return chars;
            },
        }
    }
}

/// The string made of the characters `chars[from..to]`.
pub fn string_of_range(chars: &Vec<char>, from: usize, to: usize) -> (text: String)
    requires
        from <= to <= chars.len(),
    ensures
        text@ == chars@.subrange(from as int, to as int),
{
    let mut text = String::new();
    let mut i: usize = from;
    while i < to
        invariant
            from <= i <= to <= chars.len(),
            text@ == chars@.subrange(from as int, i as int),
        decreases to - i,
    {
        push_char(&mut text, chars[i]);
        i += 1;
    }
    text
}

/// The string made of `chars`, in order.
pub fn string_of(chars: &Vec<char>) -> (text: String)
    ensures
        text@ == chars@,
{
    string_of_range(chars, 0, chars.len())
}

/// The lines of `text`: the pieces between its line feeds, in order. A text without a
/// line feed is one line; a trailing line feed is followed by an empty line.
pub open spec fn split_lines(text: Seq<char>) -> Seq<Seq<char>>
    decreases text.len(),
{
    let n = first_index_of(text, '\n');
    if 0 <= n < text.len() {
        seq![text.take(n)] + split_lines(text.skip(n + 1))
    } else {
        seq![text]
    }
}

/// `line` cut into pieces of `width` characters, the last one possibly shorter. An
/// empty line, or a width of zero, gives no piece at all.
pub open spec fn chunks(line: Seq<char>, width: nat) -> Seq<Seq<char>>
    decreases line.len(),
{
    if width == 0 || line.len() == 0 {
        Seq::empty()
    } else if line.len() <= width {
        seq![line]
    } else {
        seq![line.take(width as int)] + chunks(line.skip(width as int), width)
    }
}

/// What a line becomes in a display that is `width` characters wide: itself where it
/// fits, else its pieces of `width` characters.
pub open spec fn wrapped(line: Seq<char>, width: nat) -> Seq<Seq<char>> {
    if line.len() > width {
        chunks(line, width)
    } else {
        seq![line]
    }
}

/// The given lines, each wrapped to `width` characters, in reading order.
pub open spec fn wrap_all(lines: Seq<Seq<char>>, width: nat) -> Seq<Seq<char>>
    decreases lines.len(),
{
    if lines.len() == 0 {
        Seq::empty()
    } else {
        wrap_all(lines.drop_last(), width) + wrapped(lines.last(), width)
    }
}

/// The lines of `text`, each wrapped to `width` characters, in reading order.
pub open spec fn wrapped_lines(text: Seq<char>, width: nat) -> Seq<Seq<char>> {
    wrap_all(split_lines(text), width)
}

/// The views of the strings of a vector, in order.
pub open spec fn texts_of(strings: Seq<String>) -> Seq<Seq<char>> {
    strings.map_values(|s: String| s@)
}

/// Splits `text` at its line feeds.
pub fn split_into_lines(text: &str) -> (lines: Vec<String>)
    ensures
        texts_of(lines@) == split_lines(text@),
{
    let chars = chars_of(text);
    let mut lines: Vec<String> = Vec::new();
    let mut start: usize = 0;
    assert(text@.skip(0) =~= text@);
    loop
        invariant
            chars@ == text@,
            start <= chars.len(),
            split_lines(text@) == texts_of(lines@) + split_lines(text@.skip(start as int)),
        decreases chars.len() - start,
    {
        let mut end: usize = start;
        while end < chars.len() && chars[end] != '\n'
            invariant
                start <= end <= chars.len(),
                forall|i: int| start <= i < end ==> chars[i] != '\n',
            decreases chars.len() - end,
        {
            end += 1;
        }
        let line = string_of_range(&chars, start, end);
        let ghost rest = text@.skip(start as int);
        proof {
            lemma_first_index_of(rest, '\n', end - start);
            assert(rest.take(end - start) =~= chars@.subrange(start as int, end as int));
        }
        lines.push(line);
        if end == chars.len() {
            return lines;
        }
        proof {
            assert(rest.skip(end - start + 1) =~= text@.skip(end + 1));
        }
        start = end + 1;
    }
}

/// Wraps one line to a display that is `width` characters wide.
pub fn wrap_line(line: &str, width: usize) -> (pieces: Vec<String>)
    ensures
        texts_of(pieces@) == wrapped(line@, width as nat),
{
    let chars = chars_of(line);
    let mut pieces: Vec<String> = Vec::new();
    if chars.len() <= width {
        let whole = string_of(&chars);
        pieces.push(whole);
        return pieces;
    }
    if width == 0 {
        return pieces;
    }
    let mut offset: usize = 0;
    assert(line@.skip(0) =~= line@);
    while offset < chars.len()
        invariant
            chars@ == line@,
            width > 0,
            offset <= chars.len(),
            chunks(line@, width as nat) == texts_of(pieces@) + chunks(
                line@.skip(offset as int),
                width as nat,
            ),
        decreases chars.len() - offset,
    {
        let end = if chars.len() - offset <= width {
            chars.len()
        } else {
            offset + width
        };
        let piece = string_of_range(&chars, offset, end);
        let ghost rest = line@.skip(offset as int);
        pieces.push(piece);
        proof {
            if end < chars.len() {
                assert(piece@ =~= rest.take(width as int));
                assert(rest.skip(width as int) =~= line@.skip(end as int));
            }
        }
        offset = end;
    }
    pieces
}

/// Splits `text` into lines and wraps each to a display that is `width` characters
/// wide.
pub fn wrap_lines(text: &str, width: usize) -> (pieces: Vec<String>)
    ensures
        texts_of(pieces@) == wrapped_lines(text@, width as nat),
{
    let lines = split_into_lines(text);
    let ghost all = split_lines(text@);
    let mut pieces: Vec<String> = Vec::new();
    let mut i: usize = 0;
    while i < lines.len()
        invariant
            i <= lines.len(),
            texts_of(lines@) == all,
            texts_of(pieces@) == wrap_all(all.take(i as int), width as nat),
        decreases lines.len() - i,
    {
        let mut wrapped_line = wrap_line(lines[i].as_str(), width);
        pieces.append(&mut wrapped_line);
        proof {
            assert(all.take(i + 1).drop_last() =~= all.take(i as int));
        }
        i += 1;
    }
    assert(all.take(i as int) =~= all);
    pieces
}

/// The position of the last occurrence of `c` in `text`, or -1 where there is none.
pub open spec fn last_index_of(text: Seq<char>, c: char) -> int
    decreases text.len(),
{
    if text.len() == 0 {
        -1
    } else if text.last() == c {
        text.len() - 1
    } else {
        last_index_of(text.drop_last(), c)
    }
}

/// What `last_index_of` returns is -1 or a position of `c` after which `c` does not
/// occur again.
pub proof fn lemma_last_index_of(text: Seq<char>, c: char)
    ensures
        -1 <= last_index_of(text, c) < text.len(),
        last_index_of(text, c) >= 0 ==> text[last_index_of(text, c)] == c,
        forall|i: int| last_index_of(text, c) < i < text.len() ==> text[i] != c,
    decreases text.len(),
{
    if text.len() > 0 && text.last() != c {
        let shorter = text.drop_last();
        lemma_last_index_of(shorter, c);
        assert forall|i: int| last_index_of(text, c) < i < text.len() implies text[i] != c by {
            if i < shorter.len() {
                assert(shorter[i] == text[i]);
            }
        }
    }
}

/// A position of `c` after which `c` does not occur again is the last one; so is -1
/// where `c` does not occur at all.
pub proof fn lemma_last_index_is(text: Seq<char>, c: char, k: int)
    requires
        -1 <= k < text.len(),
        k >= 0 ==> text[k] == c,
        forall|i: int| k < i < text.len() ==> text[i] != c,
    ensures
        last_index_of(text, c) == k,
    decreases text.len(),
{
    if text.len() > 0 && text.last() != c {
        lemma_last_index_is(text.drop_last(), c, k);
    }
}

/// The position of the last occurrence of `c` in `chars`, if there is one.
pub fn find_last(chars: &Vec<char>, c: char) -> (found: Option<usize>)
    ensures
        match found {
            Some(i) => i == last_index_of(chars@, c) && i < chars.len() && chars[i as int] == c,
            None => last_index_of(chars@, c) == -1,
        },
{
    let mut i: usize = chars.len();
    while i > 0
        invariant
            i <= chars.len(),
            forall|j: int| i <= j < chars.len() ==> chars[j] != c,
        decreases i,
    {
        i -= 1;
        if chars[i] == c {
            proof {
                lemma_last_index_is(chars@, c, i as int);
            }
            return Some(i);
        }
    }
    proof {
        lemma_last_index_is(chars@, c, -1);
    }
    None
}

/// The lower-case form of an ASCII capital letter; any other character, itself.
pub open spec fn ascii_lower(c: char) -> char {
    if 'A' <= c <= 'Z' {
        ((c as u32) + 32) as char
    } else {
        c
    }
}

/// `text` with its ASCII capital letters in lower case.
pub open spec fn ascii_lowercase(text: Seq<char>) -> Seq<char> {
    text.map_values(|c: char| ascii_lower(c))
}

/// Puts one character in lower case.
pub fn lower_char(c: char) -> (lower: char)
    ensures
        lower == ascii_lower(c),
{
    if c >= 'A' && c <= 'Z' {
        ((c as u8) + 32) as char
    } else {
        c
    }
}

/// Puts the ASCII capital letters of `text` in lower case.
pub fn to_ascii_lowercase(text: &str) -> (lower: String)
    ensures
        lower@ == ascii_lowercase(text@),
{
    let chars = chars_of(text);
    let mut lower = String::new();
    let mut i: usize = 0;
    while i < chars.len()
        invariant
            i <= chars.len(),
            chars@ == text@,
            lower@ == ascii_lowercase(text@.take(i as int)),
        decreases chars.len() - i,
    {
        push_char(&mut lower, lower_char(chars[i]));
        i += 1;
    }
    lower
}

/// `text` with every occurrence of `from` replaced by `to`. Occurrences are found
/// from left to right and do not overlap. An empty `from` occurs before every
/// character and at the end.
pub open spec fn replace_all(text: Seq<char>, from: Seq<char>, to: Seq<char>) -> Seq<char>
    decreases text.len(),
{
    if from.len() == 0 {
        if text.len() == 0 {
            to
        } else {
            to + seq![text[0]] + replace_all(text.skip(1), from, to)
        }
    } else if text.len() < from.len() {
        text
    } else if text.take(from.len() as int) == from {
        to + replace_all(text.skip(from.len() as int), from, to)
    } else {
        seq![text[0]] + replace_all(text.skip(1), from, to)
    }
}

/// Whether `pattern` stands in `chars` at the position `at`.
fn occurs_at(chars: &Vec<char>, at: usize, pattern: &Vec<char>) -> (occurs: bool)
    requires
        at + pattern.len() <= chars.len(),
    ensures
        occurs == (chars@.subrange(at as int, at + pattern.len()) == pattern@),
{
    let mut k: usize = 0;
    while k < pattern.len()
        invariant
            k <= pattern.len(),
            at + pattern.len() <= chars.len(),
            forall|j: int| 0 <= j < k ==> chars[at + j] == pattern[j],
        decreases pattern.len() - k,
    {
        if chars[at + k] != pattern[k] {
            return false;
        }
        k += 1;
    }
    assert(chars@.subrange(at as int, at + pattern.len()) =~= pattern@);
    true
}

/// Replaces every occurrence of `from` in `text` by `to`.
pub fn replace(text: &str, from: &str, to: &str) -> (replaced: String)
    ensures
        replaced@ == replace_all(text@, from@, to@),
{
    let chars = chars_of(text);
    let pattern = chars_of(from);
    let mut replaced = String::new();
    let mut i: usize = 0;
    assert(text@.skip(0) =~= text@);
    while i < chars.len()
        invariant
            chars@ == text@,
            pattern@ == from@,
            i <= chars.len(),
            replace_all(text@, from@, to@) == replaced@ + replace_all(
                text@.skip(i as int),
                from@,
                to@,
            ),
        decreases chars.len() - i,
    {
        let ghost rest = text@.skip(i as int);
        let ghost before = replaced@;
        if pattern.len() == 0 {
            replaced.append(to);
            push_char(&mut replaced, chars[i]);
            proof {
                assert(rest.skip(1) =~= text@.skip(i + 1));
            }
            i += 1;
        } else if chars.len() - i >= pattern.len() && occurs_at(&chars, i, &pattern) {
            replaced.append(to);
            proof {
                assert(rest.take(from@.len() as int) =~= chars@.subrange(
                    i as int,
                    i + pattern.len(),
                ));
                assert(rest.skip(from@.len() as int) =~= text@.skip(i + pattern.len()));
            }
            i += pattern.len();
        } else {
            push_char(&mut replaced, chars[i]);
            proof {
                assert(rest.skip(1) =~= text@.skip(i + 1));
                if rest.len() >= from@.len() {
                    assert(rest.take(from@.len() as int) =~= chars@.subrange(
                        i as int,
                        i + pattern.len(),
                    ));
                }
            }
            i += 1;
        }
    }
    if pattern.len() == 0 {
        let ghost before = replaced@;
        replaced.append(to);
    }
    replaced
}

/// Each of `texts` in lower case.
pub open spec fn lowercase_each(texts: Seq<Seq<char>>) -> Seq<Seq<char>> {
    texts.map_values(|text: Seq<char>| ascii_lowercase(text))
}

/// Puts each of `strings` in lower case.
pub fn to_ascii_lowercase_each(strings: &Vec<String>) -> (lower: Vec<String>)
    ensures
        texts_of(lower@) == lowercase_each(texts_of(strings@)),
{
    let mut lower: Vec<String> = Vec::new();
    let mut i: usize = 0;
    while i < strings.len()
        invariant
            i <= strings.len(),
            texts_of(lower@) == lowercase_each(texts_of(strings@).take(i as int)),
        decreases strings.len() - i,
    {
        let ghost before = texts_of(lower@);
        let entry = to_ascii_lowercase(strings[i].as_str());
        lower.push(entry);
        i += 1;
        assert(texts_of(lower@) =~= lowercase_each(texts_of(strings@).take(i as int))) by {
            assert(texts_of(lower@) =~= before.push(entry@));
        }
    }
    lower
}

/// Whether `text` is one of `strings`.
pub fn contains_text(strings: &Vec<String>, text: &String) -> (found: bool)
    ensures
        found == texts_of(strings@).contains(text@),
{
    let mut i: usize = 0;
    while i < strings.len()
        invariant
            i <= strings.len(),
            forall|j: int| 0 <= j < i ==> texts_of(strings@)[j] != text@,
        decreases strings.len() - i,
    {
        assert(texts_of(strings@)[i as int] == strings[i as int]@);
        if strings[i] == *text {
            return true;
        }
        i += 1;
    }
    false
}

/// A copy of `strings`.
pub fn clone_strings(strings: &Vec<String>) -> (copy: Vec<String>)
    ensures
        copy@ == strings@,
{
    let mut copy: Vec<String> = Vec::new();
    let mut i: usize = 0;
    while i < strings.len()
        invariant
            i <= strings.len(),
            copy@ == strings@.take(i as int),
        decreases strings.len() - i,
    {
        copy.push(strings[i].clone());
        i += 1;
    }
    copy
}

/// The character of a decimal digit.
pub open spec fn digit_char(digit: nat) -> char {
    ((48 + digit) as u8) as char
}

/// `n` in decimal notation, without leading zeros.
pub open spec fn decimal_of(n: nat) -> Seq<char>
    decreases n,
{
    if n < 10 {
        seq![digit_char(n)]
    } else {
        decimal_of(n / 10).push(digit_char(n % 10))
    }
}

/// Writes `n` in decimal notation.
pub fn to_decimal(n: u64) -> (text: String)
    ensures
        text@ == decimal_of(n as nat),
{
    let mut digits: Vec<char> = Vec::new();
    let mut rest: u64 = n;
    while rest >= 10
        invariant
            decimal_of(n as nat) == decimal_of(rest as nat) + digits@.reverse(),
        decreases rest,
    {
        let digit: u8 = (rest % 10) as u8;
        let ghost before = digits@;
        digits.push((48 + digit) as char);
        rest = rest / 10;
    }
    let ghost before = digits@;
    digits.push((48 + rest as u8) as char);
    let mut text = String::new();
    let mut i: usize = digits.len();
    while i > 0
        invariant
            i <= digits.len(),
            text@ == digits@.reverse().take(digits.len() - i),
        decreases i,
    {
        i -= 1;
        push_char(&mut text, digits[i]);
    }
    text
}

/// The position of the first occurrence of `c` in `text`, or the length of `text`
/// where there is none.
pub open spec fn first_index_of(text: Seq<char>, c: char) -> int
    decreases text.len(),
{
    if text.len() == 0 || text[0] == c {
        0
    } else {
        1 + first_index_of(text.skip(1), c)
    }
}

/// A position up to which `text` does not hold `c`, and which is the end of `text` or
/// an occurrence of `c`, is the position of the first occurrence.
pub proof fn lemma_first_index_of(text: Seq<char>, c: char, k: int)
    requires
        0 <= k <= text.len(),
        forall|i: int| 0 <= i < k ==> text[i] != c,
        k == text.len() || text[k] == c,
    ensures
        first_index_of(text, c) == k,
    decreases k,
{
    if k > 0 {
        lemma_first_index_of(text.skip(1), c, k - 1);
    }
}

/// The first occurrence of a character lies within the text or at its end; before it
/// the character does not occur, and at it, it does.
pub proof fn lemma_first_index_bounds(text: Seq<char>, c: char)
    ensures
        0 <= first_index_of(text, c) <= text.len(),
        forall|i: int| 0 <= i < first_index_of(text, c) ==> text[i] != c,
        first_index_of(text, c) < text.len() ==> text[first_index_of(text, c)] == c,
    decreases text.len(),
{
    if text.len() > 0 && text[0] != c {
        let rest = text.skip(1);
        lemma_first_index_bounds(rest, c);
        assert forall|i: int| 0 <= i < first_index_of(text, c) implies text[i] != c by {
            if i > 0 {
                assert(text[i] == rest[i - 1]);
            }
        }
    }
}

/// The position of the first occurrence of `c` in `chars` at or after `from`, or the
/// length of `chars` where there is none.
pub fn find_first_from(chars: &Vec<char>, from: usize, c: char) -> (position: usize)
    requires
        from <= chars.len(),
    ensures
        from <= position <= chars.len(),
        position - from == first_index_of(chars@.skip(from as int), c),
{
    let mut position: usize = from;
    while position < chars.len() && chars[position] != c
        invariant
            from <= position <= chars.len(),
            forall|i: int| from <= i < position ==> chars[i] != c,
        decreases chars.len() - position,
    {
        position += 1;
    }
    proof {
        lemma_first_index_of(chars@.skip(from as int), c, position - from);
    }
    position
}

/// Whether `c` is a decimal digit.
pub open spec fn is_digit(c: char) -> bool {
    '0' <= c <= '9'
}

/// The number that the digits `digits` stand for in decimal notation.
pub open spec fn value_of(digits: Seq<char>) -> nat
    decreases digits.len(),
{
    if digits.len() == 0 {
        0
    } else {
        value_of(digits.drop_last()) * 10 + (digits.last() as u32 - 48) as nat
    }
}

/// Whether `digits` is a number in decimal notation: at least one digit, nothing but
/// digits, and no leading zero but for zero itself.
pub open spec fn is_decimal(digits: Seq<char>) -> bool {
    &&& digits.len() > 0
    &&& forall|i: int| 0 <= i < digits.len() ==> is_digit(#[trigger] digits[i])
    &&& digits.len() > 1 ==> digits[0] != '0'
}

/// The decimal notation of a number is a number in decimal notation, and stands for
/// that number.
pub proof fn lemma_decimal_of(n: nat)
    ensures
        is_decimal(decimal_of(n)),
        value_of(decimal_of(n)) == n,
    decreases n,
{
    if n < 10 {
        assert(value_of(decimal_of(n).drop_last()) == 0);
    } else {
        lemma_decimal_of(n / 10);
        let shorter = decimal_of(n / 10);
        let digits = decimal_of(n);
        assert(digits.drop_last() =~= shorter);
        if shorter.len() == 1 {
            assert(n / 10 < 10) by {
                if n / 10 >= 10 {
                    lemma_decimal_of(n / 10 / 10);
                }
            }
        }
    }
}

/// A longer run of digits stands for a number that is no smaller.
pub proof fn lemma_value_of_grows(digits: Seq<char>, k: int)
    requires
        0 <= k <= digits.len(),
        forall|i: int| 0 <= i < digits.len() ==> is_digit(#[trigger] digits[i]),
    ensures
        value_of(digits.take(k)) <= value_of(digits),
    decreases digits.len() - k,
{
    if k < digits.len() {
        let shorter = digits.drop_last();
        assert(digits.take(k) =~= shorter.take(k));
        lemma_value_of_grows(shorter, k);
    } else {
        assert(digits.take(k) =~= digits);
    }
}

/// Reads the characters `chars[from..to]` as a number in decimal notation that fits
/// into 64 bits.
pub fn parse_decimal(chars: &Vec<char>, from: usize, to: usize) -> (number: Option<u64>)
    requires
        from <= to <= chars.len(),
    ensures
        match number {
            Some(n) => is_decimal(chars@.subrange(from as int, to as int)) && n == value_of(
                chars@.subrange(from as int, to as int),
            ),
            None => !is_decimal(chars@.subrange(from as int, to as int)) || value_of(
                chars@.subrange(from as int, to as int),
            ) > u64::MAX,
        },
{
    let ghost digits = chars@.subrange(from as int, to as int);
    if from == to {
        return None;
    }
    if to - from > 1 && chars[from] == '0' {
        return None;
    }
    let mut value: u64 = 0;
    let mut i: usize = from;
    while i < to
        invariant
            from <= i <= to <= chars.len(),
            digits == chars@.subrange(from as int, to as int),
            forall|k: int| 0 <= k < i - from ==> is_digit(#[trigger] digits[k]),
            value == value_of(digits.take(i - from)),
        decreases to - i,
    {
        let c = chars[i];
        assert(digits[i - from] == c);
        if c < '0' || c > '9' {
            return None;
        }
        let digit: u64 = (c as u32 - 48) as u64;
        proof {
            assert(digits.take(i - from + 1).drop_last() =~= digits.take(i - from));
        }
        if value > (u64::MAX - digit) / 10 {
            proof {
                if forall|k: int| 0 <= k < digits.len() ==> is_digit(#[trigger] digits[k]) {
                    lemma_value_of_grows(digits, i - from + 1);
                }
            }
            return None;
        }
        value = value * 10 + digit;
        i += 1;
    }
    assert(digits.take(to - from) =~= digits);
    Some(value)
}

} // verus!
