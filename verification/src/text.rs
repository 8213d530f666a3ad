//! Character-level helpers for the wire vocabulary: prefixes and infixes, decimal numbers,
//! and text as it stands inside a JSON string.
//!
//! Every contract here is stated over `Seq<char>`, the view of `str` and
//! `String`, so callers can reason about text without looking at bytes.

use vstd::prelude::*;

verus! {

/// `String::push`: appends one character at the end.
pub assume_specification[ String::push ](s: &mut String, c: char)
    ensures
        final(s)@ == old(s)@.push(c),
;

/// `needle` stands in `hay` at position `i`.
pub open spec fn occurs_at(needle: Seq<char>, hay: Seq<char>, i: int) -> bool {
    &&& 0 <= i
    &&& i + needle.len() <= hay.len()
    &&& hay.subrange(i, i + needle.len()) == needle
}

/// `hay` begins with `prefix`.
pub open spec fn has_prefix(hay: Seq<char>, prefix: Seq<char>) -> bool {
    occurs_at(prefix, hay, 0)
}

/// `needle` stands somewhere in `hay`.
pub open spec fn has_infix(hay: Seq<char>, needle: Seq<char>) -> bool {
    exists|i: int| occurs_at(needle, hay, i)
}

/// Number of leading characters of `s` equal to `c`.
pub open spec fn leading_run(s: Seq<char>, c: char) -> nat
    decreases s.len(),
{
    if s.len() > 0 && s[0] == c {
        1 + leading_run(s.drop_first(), c)
    } else {
        0
    }
}

/// `s` without its leading run of `c`.
pub open spec fn strip_leading(s: Seq<char>, c: char) -> Seq<char> {
    s.subrange(leading_run(s, c) as int, s.len() as int)
}

/// `s` with every `from` replaced by `to`.
pub open spec fn replace_char(s: Seq<char>, from: char, to: char) -> Seq<char> {
    Seq::new(s.len(), |i: int| if s[i] == from { to } else { s[i] })
}

/// The character that writes the digit `d`; `9` for a `d` above 9.
pub open spec fn digit_char(d: int) -> char {
    if d == 0 {
        '0'
    } else if d == 1 {
        '1'
    } else if d == 2 {
        '2'
    } else if d == 3 {
        '3'
    } else if d == 4 {
        '4'
    } else if d == 5 {
        '5'
    } else if d == 6 {
        '6'
    } else if d == 7 {
        '7'
    } else if d == 8 {
        '8'
    } else {
        '9'
    }
}

/// Decimal notation of `n`, without sign or leading zeros.
pub open spec fn decimal(n: nat) -> Seq<char>
    decreases n,
{
    if n < 10 {
        seq![digit_char(n as int)]
    } else {
        decimal(n / 10).push(digit_char((n % 10) as int))
    }
}

/// The digit that `c` writes; `None` where `c` is no digit.
pub open spec fn digit_value(c: char) -> Option<nat> {
    if c == '0' {
        Some(0)
    } else if c == '1' {
        Some(1)
    } else if c == '2' {
        Some(2)
    } else if c == '3' {
        Some(3)
    } else if c == '4' {
        Some(4)
    } else if c == '5' {
        Some(5)
    } else if c == '6' {
        Some(6)
    } else if c == '7' {
        Some(7)
    } else if c == '8' {
        Some(8)
    } else if c == '9' {
        Some(9)
    } else {
        None
    }
}

/// The number that `text` writes in decimal notation; `None` where `text` is empty or holds
/// anything but digits. Leading zeros count for nothing.
pub open spec fn number(text: Seq<char>) -> Option<nat>
    decreases text.len(),
{
    if text.len() == 0 {
        None
    } else if text.len() == 1 {
        digit_value(text[0])
    } else {
        match (number(text.drop_last()), digit_value(text.last())) {
            (Some(n), Some(d)) => Some(n * 10 + d),
            _ => None,
        }
    }
}

/// The number that `text` writes, where it is at most `limit`.
pub open spec fn number_up_to(text: Seq<char>, limit: u32) -> Option<u32> {
    match number(text) {
        Some(n) => if n <= limit {
            Some(n as u32)
        } else {
            None
        },
        None => None,
    }
}

/// The characters of `s`, in order.
pub fn chars_of(s: &str) -> (r: Vec<char>)
    ensures
        r@ == s@,
{
    let mut out: Vec<char> = Vec::new();
    for c in it: s.chars()
        invariant
            it.seq() == s@,
            out@ == it.seq().take(it.index() as int),
    {
        out.push(c);
    }
    out
}

/// The string made of `chars[from..to]`.
pub(crate) fn string_of(chars: &Vec<char>, from: usize, to: usize) -> (r: String)
    requires
        from <= to <= chars.len(),
    ensures
        r@ == chars@.subrange(from as int, to as int),
{
    let mut out = String::new();
    let mut i: usize = from;
    while i < to
        invariant
            from <= i <= to <= chars.len(),
            out@ == chars@.subrange(from as int, i as int),
        decreases to - i,
    {
        out.push(chars[i]);
        i += 1;
        assert(chars@.subrange(from as int, i as int) == chars@.subrange(
            from as int,
            i - 1,
        ).push(chars@[i - 1]));
    }
    out
}

/// Whether `needle` stands in `hay` at position `at`.
pub fn matches_at(hay: &Vec<char>, needle: &Vec<char>, at: usize) -> (r: bool)
    ensures
        r == occurs_at(needle@, hay@, at as int),
{
    if needle.len() > hay.len() || at > hay.len() - needle.len() {
        return false;
    }
    let mut k: usize = 0;
    while k < needle.len()
        invariant
            k <= needle.len(),
            at + needle.len() <= hay.len(),
            forall|j: int| 0 <= j < k ==> hay@[at + j] == needle@[j],
        decreases needle.len() - k,
    {
        if hay[at + k] != needle[k] {
            assert(hay@.subrange(at as int, at + needle.len())[k as int] == hay@[at + k]);
            return false;
        }
        k += 1;
    }
    assert(hay@.subrange(at as int, at + needle.len()) =~= needle@);
    true
}

/// Whether `chars` spells `word`.
pub fn spells(chars: &Vec<char>, word: &str) -> (r: bool)
    ensures
        r == (chars@ == word@),
{
    let w = chars_of(word);
    if chars.len() != w.len() {
        return false;
    }
    let r = matches_at(chars, &w, 0);
    assert(chars@.subrange(0, chars@.len() as int) == chars@);
    r
}

/// Whether `hay` begins with `prefix`.
pub fn starts_with(hay: &Vec<char>, prefix: &str) -> (r: bool)
    ensures
        r == has_prefix(hay@, prefix@),
{
    let p = chars_of(prefix);
    matches_at(hay, &p, 0)
}

/// Whether `needle` stands somewhere in `hay`.
pub fn contains(hay: &Vec<char>, needle: &str) -> (r: bool)
    ensures
        r == has_infix(hay@, needle@),
{
    let n = chars_of(needle);
    if n.len() > hay.len() {
        assert(forall|i: int| !occurs_at(n@, hay@, i));
        return false;
    }
    let last: usize = hay.len() - n.len();
    let mut i: usize = 0;
    loop
        invariant
            n@ == needle@,
            last == hay.len() - n.len(),
            i <= last,
            forall|j: int| 0 <= j < i ==> !occurs_at(n@, hay@, j),
        decreases last - i,
    {
        if matches_at(hay, &n, i) {
            return true;
        }
        if i == last {
            assert(forall|j: int| !occurs_at(n@, hay@, j));
            return false;
        }
        i += 1;
    }
}

/// `chars` without its leading run of `c`, with every later `from` replaced by `to`.
pub fn push_sanitized(out: &mut String, chars: &Vec<char>, c: char, from: char, to: char)
    ensures
        final(out)@ == old(out)@ + replace_char(strip_leading(chars@, c), from, to),
{
    let mut start: usize = 0;
    assert(chars@.subrange(0, chars@.len() as int) == chars@);
    while start < chars.len() && chars[start] == c
        invariant
            start <= chars.len(),
            leading_run(chars@, c) == start + leading_run(
                chars@.subrange(start as int, chars@.len() as int),
                c,
            ),
        decreases chars.len() - start,
    {
        proof {
            let rest = chars@.subrange(start as int, chars@.len() as int);
            assert(rest[0] == chars@[start as int]);
            assert(rest.drop_first() == chars@.subrange(start + 1, chars@.len() as int));
        }
        start += 1;
    }
    proof {
        let rest = chars@.subrange(start as int, chars@.len() as int);
        if start < chars.len() {
            assert(rest[0] == chars@[start as int]);
        }
        assert(leading_run(rest, c) == 0);
        assert(chars@.subrange(0, chars@.len() as int) == chars@);
    }
    let ghost kept = strip_leading(chars@, c);
    let mut i: usize = start;
    while i < chars.len()
        invariant
            start <= i <= chars.len(),
            kept == chars@.subrange(start as int, chars@.len() as int),
            out@ == old(out)@ + replace_char(kept, from, to).take(i - start),
        decreases chars.len() - i,
    {
        let ch = chars[i];
        if ch == from {
            out.push(to);
        } else {
            out.push(ch);
        }
        proof {
            let done = replace_char(kept, from, to);
            assert(done.take(i + 1 - start) == done.take(i - start).push(done[i - start]));
            assert(old(out)@ + done.take(i - start).push(done[i - start]) == (old(out)@
                + done.take(i - start)).push(done[i - start]));
        }
        i += 1;
    }
    proof {
        let done = replace_char(kept, from, to);
        assert(done.take(chars.len() - start) == done);
    }
}

/// The digit that `c` writes.
pub fn digit_of(c: char) -> (r: Option<u8>)
    ensures
        r is Some <==> digit_value(c) is Some,
        r matches Some(d) ==> digit_value(c) == Some(d as nat),
{
    if c == '0' {
        Some(0)
    } else if c == '1' {
        Some(1)
    } else if c == '2' {
        Some(2)
    } else if c == '3' {
        Some(3)
    } else if c == '4' {
        Some(4)
    } else if c == '5' {
        Some(5)
    } else if c == '6' {
        Some(6)
    } else if c == '7' {
        Some(7)
    } else if c == '8' {
        Some(8)
    } else if c == '9' {
        Some(9)
    } else {
        None
    }
}

/// Reads a number in decimal notation that is at most `limit`.
pub fn parse_decimal(chars: &Vec<char>, limit: u32) -> (r: Option<u32>)
    ensures
        r == number_up_to(chars@, limit),
{
    if chars.len() == 0 {
        return None;
    }
    let cap: u64 = limit as u64 + 1;
    let mut value: u64 = match digit_of(chars[0]) {
        Some(d) => d as u64,
        None => {
            assert(chars@.take(1) == seq![chars@[0]]);
            proof {
                lemma_number_needs_digits(chars@, 0);
            }
            return None;
        },
    };
    if value > cap {
        value = cap;
    }
    let mut i: usize = 1;
    assert(chars@.take(1).len() == 1 && chars@.take(1)[0] == chars@[0]);
    while i < chars.len()
        invariant
            1 <= i <= chars.len(),
            cap == limit + 1,
            value <= cap,
            number(chars@.take(i as int)) matches Some(n) && (value == n || (value == cap && n
                > limit)),
        decreases chars.len() - i,
    {
        let ghost n = number(chars@.take(i as int))->0;
        proof {
            let next = chars@.take(i + 1);
            assert(next.drop_last() == chars@.take(i as int));
            assert(next.last() == chars@[i as int]);
        }
        match digit_of(chars[i]) {
            Some(d) => {
                value = value * 10 + d as u64;
                if value > cap {
                    value = cap;
                }
            },
            None => {
                proof {
                    lemma_number_needs_digits(chars@, i as int);
                }
                return None;
            },
        }
        i += 1;
    }
    assert(chars@.take(chars@.len() as int) == chars@);
    if value <= limit as u64 {
        Some(value as u32)
    } else {
        None
    }
}

/// A text with a character that is no digit writes no number.
pub proof fn lemma_number_needs_digits(text: Seq<char>, at: int)
    requires
        0 <= at < text.len(),
        digit_value(text[at]) is None,
    ensures
        number(text) is None,
    decreases text.len(),
{
    if text.len() > 1 {
        if at < text.len() - 1 {
            lemma_number_needs_digits(text.drop_last(), at);
        }
    }
}

/// Reading what `decimal` wrote gives the number back.
pub proof fn lemma_decimal_round_trip(n: nat)
    ensures
        number(decimal(n)) == Some(n),
        decimal(n).len() >= 1,
    decreases n,
{
    if n >= 10 {
        lemma_decimal_round_trip(n / 10);
        let text = decimal(n);
        let d = digit_char((n % 10) as int);
        assert(text.drop_last() == decimal(n / 10));
        assert(text.last() == d);
        assert(digit_value(d) == Some(n % 10));
    }
}

/// The character that writes the digit `d`; `9` for a `d` above 9.
pub fn digit(d: u64) -> (r: char)
    ensures
        r == digit_char(d as int),
{
    if d == 0 {
        '0'
    } else if d == 1 {
        '1'
    } else if d == 2 {
        '2'
    } else if d == 3 {
        '3'
    } else if d == 4 {
        '4'
    } else if d == 5 {
        '5'
    } else if d == 6 {
        '6'
    } else if d == 7 {
        '7'
    } else if d == 8 {
        '8'
    } else {
        '9'
    }
}

/// Appends `n` in decimal notation.
pub fn push_decimal(out: &mut String, n: u64)
    ensures
        final(out)@ == old(out)@ + decimal(n as nat),
    decreases n,
{
    if n >= 10 {
        push_decimal(out, n / 10);
    }
    out.push(digit(n % 10));
    proof {
        let d = digit_char((n % 10) as int);
        if n >= 10 {
            assert(old(out)@ + decimal((n / 10) as nat).push(d) == (old(out)@ + decimal(
                (n / 10) as nat,
            )).push(d));
        } else {
            assert(old(out)@ + seq![d] == old(out)@.push(d));
        }
    }
}

/// The character that writes the hexadecimal digit `d` in lower case; `f` for a `d` above 15.
pub open spec fn hex_char(d: int) -> char {
    if d < 10 {
        digit_char(d)
    } else if d == 10 {
        'a'
    } else if d == 11 {
        'b'
    } else if d == 12 {
        'c'
    } else if d == 13 {
        'd'
    } else if d == 14 {
        'e'
    } else {
        'f'
    }
}

/// The letter that stands behind the backslash in the short escape of the character with
/// the code `code`; `None` where JSON gives that character no short escape.
pub open spec fn short_escape(code: u32) -> Option<char> {
    if code == 0x22 {
        Some('"')
    } else if code == 0x5c {
        Some('\\')
    } else if code == 0x08 {
        Some('b')
    } else if code == 0x09 {
        Some('t')
    } else if code == 0x0a {
        Some('n')
    } else if code == 0x0c {
        Some('f')
    } else if code == 0x0d {
        Some('r')
    } else {
        None
    }
}

/// One character as it stands inside a JSON string.
///
/// A double quote, a backslash, and the control characters backspace, tab, line feed, form
/// feed and carriage return are written as a backslash and one letter; every other
/// character below U+0020 as `\u00` and its code in two hexadecimal digits; every other
/// character as itself.
pub open spec fn escaped_char(c: char) -> Seq<char> {
    let code = c as u32;
    match short_escape(code) {
        Some(letter) => seq!['\\', letter],
        None => if code < 0x20 {
            seq!['\\', 'u', '0', '0', hex_char(code as int / 16), hex_char(code as int % 16)]
        } else {
            seq![c]
        },
    }
}

/// The characters of `text` as they stand inside a JSON string, one after the other.
pub open spec fn escaped(text: Seq<char>) -> Seq<char>
    decreases text.len(),
{
    if text.len() == 0 {
        Seq::empty()
    } else {
        escaped(text.drop_last()) + escaped_char(text.last())
    }
}

/// The JSON string that holds `text`: its escaped characters between double quotes.
pub open spec fn json_string(text: Seq<char>) -> Seq<char> {
    seq!['"'] + escaped(text) + seq!['"']
}

/// The character that writes the hexadecimal digit `d` in lower case; `f` for a `d` above 15.
pub fn hex_digit(d: u32) -> (r: char)
    ensures
        r == hex_char(d as int),
{
    if d < 10 {
        digit(d as u64)
    } else if d == 10 {
        'a'
    } else if d == 11 {
        'b'
    } else if d == 12 {
        'c'
    } else if d == 13 {
        'd'
    } else if d == 14 {
        'e'
    } else {
        'f'
    }
}

/// The letter that stands behind the backslash in the short escape of the character with
/// the code `code`.
pub fn escape_letter(code: u32) -> (r: Option<char>)
    ensures
        r == short_escape(code),
{
    if code == 0x22 {
        Some('"')
    } else if code == 0x5c {
        Some('\\')
    } else if code == 0x08 {
        Some('b')
    } else if code == 0x09 {
        Some('t')
    } else if code == 0x0a {
        Some('n')
    } else if code == 0x0c {
        Some('f')
    } else if code == 0x0d {
        Some('r')
    } else {
        None
    }
}

/// Appends one character as it stands inside a JSON string.
pub fn push_escaped_char(out: &mut String, c: char)
    ensures
        final(out)@ == old(out)@ + escaped_char(c),
{
    let code: u32 = c as u32;
    match escape_letter(code) {
        Some(letter) => {
            out.push('\\');
            out.push(letter);
            assert(out@ == old(out)@ + seq!['\\', letter]);
        },
        None => {
            if code < 0x20 {
                out.push('\\');
                out.push('u');
                out.push('0');
                out.push('0');
                out.push(hex_digit(code / 16));
                out.push(hex_digit(code % 16));
                assert(out@ == old(out)@ + seq![
                    '\\',
                    'u',
                    '0',
                    '0',
                    hex_char(code as int / 16),
                    hex_char(code as int % 16),
                ]);
            } else {
                out.push(c);
                assert(out@ == old(out)@ + seq![c]);
            }
        },
    }
}

/// Appends the JSON string that holds `text`.
pub fn push_json_string(out: &mut String, text: &str)
    ensures
        final(out)@ == old(out)@ + json_string(text@),
{
    let chars = chars_of(text);
    out.push('"');
    let mut i: usize = 0;
    assert(chars@.take(0) == Seq::<char>::empty());
    while i < chars.len()
        invariant
            i <= chars.len(),
            chars@ == text@,
            out@ == old(out)@ + seq!['"'] + escaped(chars@.take(i as int)),
        decreases chars.len() - i,
    {
        push_escaped_char(out, chars[i]);
        proof {
            let next = chars@.take(i + 1);
            assert(next.drop_last() == chars@.take(i as int));
            assert(next.last() == chars@[i as int]);
            assert(old(out)@ + seq!['"'] + escaped(chars@.take(i as int)) + escaped_char(
                chars@[i as int],
            ) == old(out)@ + seq!['"'] + escaped(next));
        }
        i += 1;
    }
    out.push('"');
    proof {
        assert(chars@.take(chars.len() as int) == chars@);
        assert((old(out)@ + seq!['"'] + escaped(text@)).push('"') == old(out)@ + json_string(
            text@,
        ));
    }
}

/// A character that stands inside a JSON string as itself.
pub open spec fn plain(c: char) -> bool {
    short_escape(c as u32) is None && c as u32 >= 0x20
}

/// A text all of whose characters stand inside a JSON string as themselves.
pub open spec fn all_plain(text: Seq<char>) -> bool {
    forall|i: int| 0 <= i < text.len() ==> plain(#[trigger] text[i])
}

/// A text without double quote, backslash and control character is written as it is: its
/// JSON string is the text between double quotes.
pub proof fn lemma_plain_text_is_unescaped(text: Seq<char>)
    requires
        all_plain(text),
    ensures
        escaped(text) == text,
        json_string(text) == seq!['"'] + text + seq!['"'],
    decreases text.len(),
{
    if text.len() > 0 {
        lemma_plain_text_is_unescaped(text.drop_last());
        assert(plain(text.last()));
        assert(text.drop_last() + seq![text.last()] == text);
    }
}

/// A plain text stays plain where its leading run of a character is stripped and a
/// character is replaced by a plain one.
pub proof fn lemma_plain_stays_plain(text: Seq<char>, c: char, from: char, to: char)
    requires
        all_plain(text),
        plain(to),
    ensures
        all_plain(replace_char(strip_leading(text, c), from, to)),
{
    lemma_leading_run_is_bounded(text, c);
    let run = leading_run(text, c) as int;
    let kept = strip_leading(text, c);
    let done = replace_char(kept, from, to);
    assert forall|i: int| 0 <= i < done.len() implies plain(#[trigger] done[i]) by {
        assert(kept[i] == text[run + i]);
    }
}

/// The leading run of a character is no longer than the text.
pub proof fn lemma_leading_run_is_bounded(text: Seq<char>, c: char)
    ensures
        leading_run(text, c) <= text.len(),
    decreases text.len(),
{
    if text.len() > 0 && text[0] == c {
        lemma_leading_run_is_bounded(text.drop_first(), c);
    }
}

/// The value of the hexadecimal digit `c`, in either case; `None` where `c` is no such digit.
pub open spec fn hex_value(c: char) -> Option<nat> {
    if c == 'a' || c == 'A' {
        Some(10)
    } else if c == 'b' || c == 'B' {
        Some(11)
    } else if c == 'c' || c == 'C' {
        Some(12)
    } else if c == 'd' || c == 'D' {
        Some(13)
    } else if c == 'e' || c == 'E' {
        Some(14)
    } else if c == 'f' || c == 'F' {
        Some(15)
    } else {
        digit_value(c)
    }
}

/// The number that four hexadecimal digits write; `None` where one of them is no such digit.
pub open spec fn hex_code(digits: Seq<char>) -> Option<nat>
    recommends
        digits.len() == 4,
{
    match (hex_value(digits[0]), hex_value(digits[1]), hex_value(digits[2]), hex_value(digits[3])) {
        (Some(a), Some(b), Some(c), Some(d)) => Some(((a * 16 + b) * 16 + c) * 16 + d),
        _ => None,
    }
}

/// The character that a backslash and `letter` stand for in a JSON string; `None` where the
/// two are no short escape.
pub open spec fn short_escaped(letter: char) -> Option<char> {
    if letter == '"' || letter == '\\' || letter == '/' {
        Some(letter)
    } else if letter == 'b' {
        Some('\u{8}')
    } else if letter == 't' {
        Some('\t')
    } else if letter == 'n' {
        Some('\n')
    } else if letter == 'f' {
        Some('\u{c}')
    } else if letter == 'r' {
        Some('\r')
    } else {
        None
    }
}

/// `first` in front of what `rest` holds; `None` where `rest` holds nothing.
pub open spec fn read_on(first: char, rest: Option<Seq<char>>) -> Option<Seq<char>> {
    match rest {
        Some(text) => Some(seq![first] + text),
        None => None,
    }
}

/// The text that stands between the quotes of a JSON string as `body`; `None` where `body`
/// cannot stand there.
///
/// A plain character stands for itself, a backslash and a letter for the character of that
/// short escape, and `\u` with four hexadecimal digits for the character with that code
/// below U+D800. A bare double quote or control character, a backslash with anything else
/// behind it, and a code from U+D800 on cannot stand there: the codes that JSON writes in
/// pairs are not read.
pub open spec fn unescaped(body: Seq<char>) -> Option<Seq<char>>
    decreases body.len(),
{
    if body.len() == 0 {
        Some(Seq::empty())
    } else if body[0] != '\\' {
        if plain(body[0]) {
            read_on(body[0], unescaped(body.skip(1)))
        } else {
            None
        }
    } else if body.len() >= 6 && body[1] == 'u' {
        match hex_code(body.subrange(2, 6)) {
            Some(code) => if code < 0xd800 {
                read_on(code as char, unescaped(body.skip(6)))
            } else {
                None
            },
            None => None,
        }
    } else if body.len() >= 2 {
        match short_escaped(body[1]) {
            Some(c) => read_on(c, unescaped(body.skip(2))),
            None => None,
        }
    } else {
        None
    }
}

/// What is written for one character is read back as that character, whatever follows.
pub proof fn lemma_escaped_char_is_read(c: char, rest: Seq<char>)
    ensures
        unescaped(escaped_char(c) + rest) == read_on(c, unescaped(rest)),
{
    let body = escaped_char(c) + rest;
    let code = c as u32;
    match short_escape(code) {
        Some(letter) => {
            assert(body[1] == letter);
            assert(body.skip(2) == rest);
        },
        None => {
            if code < 0x20 {
                assert(body[1] == 'u');
                assert(hex_code(body.subrange(2, 6)) == Some(code as nat));
                assert(body.skip(6) == rest);
            } else {
                assert(body[0] == c);
                assert(body.skip(1) == rest);
            }
        },
    }
}

/// The step of `lemma_escaped_is_read_back`: a text is written character by character, from
/// the front as from the back.
proof fn lemma_escaped_from_the_front(text: Seq<char>)
    requires
        text.len() > 0,
    ensures
        escaped(text) == escaped_char(text[0]) + escaped(text.drop_first()),
    decreases text.len(),
{
    if text.len() == 1 {
        assert(text.drop_last() == Seq::<char>::empty());
        assert(text.drop_first() == Seq::<char>::empty());
        assert(escaped(text.drop_last()) == Seq::<char>::empty());
        assert(escaped_char(text[0]) + Seq::<char>::empty() == Seq::<char>::empty()
            + escaped_char(text[0]));
    } else {
        let front = text.drop_last();
        lemma_escaped_from_the_front(front);
        assert(front[0] == text[0]);
        assert(front.drop_first() == text.drop_first().drop_last());
        assert(text.drop_first().last() == text.last());
        assert(escaped_char(text[0]) + escaped(front.drop_first()) + escaped_char(text.last())
            == escaped_char(text[0]) + (escaped(front.drop_first()) + escaped_char(
            text.last(),
        )));
    }
}

/// What is written inside a JSON string is read back as the text that it was written for:
/// writing loses nothing, and never writes what cannot stand between the quotes.
pub proof fn lemma_escaped_is_read_back(text: Seq<char>)
    ensures
        unescaped(escaped(text)) == Some(text),
    decreases text.len(),
{
    if text.len() > 0 {
        let rest = text.drop_first();
        lemma_escaped_from_the_front(text);
        lemma_escaped_is_read_back(rest);
        lemma_escaped_char_is_read(text[0], escaped(rest));
        assert(seq![text[0]] + rest == text);
    }
}

} // verus!
