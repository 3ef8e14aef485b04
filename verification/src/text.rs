//! Text helpers over `Seq<char>`: equality and prefixes, decimal numbers,
//! ASCII case folding, and the few `std` string functions the library calls.

use vstd::prelude::*;

verus! {

/// `String::push` of `std`: appends one character.
#[verifier::external_body]
pub(crate) fn push_char(s: &mut String, c: char)
    ensures
        final(s)@ == old(s)@.push(c),
{
    s.push(c)
}

/// The characters of `s`, in order.
pub fn chars_of(s: &str) -> (chars: Vec<char>)
    ensures
        chars@ == s@,
{
    let mut chars: Vec<char> = Vec::new();
    for c in it: s.chars()
        invariant
            it.seq() == s@,
            chars@ == s@.take(it.index() as int),
    {
        assert(s@.take(it.index() + 1) =~= s@.take(it.index() as int).push(c));
        chars.push(c);
    }
    assert(s@.take(s@.len() as int) =~= s@);
    chars
}

/// The string made of `chars`, in order.
pub fn string_of(chars: &Vec<char>) -> (s: String)
    ensures
        s@ == chars@,
{
    let mut s = String::new();
    let mut i: usize = 0;
    while i < chars.len()
        invariant
            i <= chars.len(),
            s@ == chars@.take(i as int),
        decreases chars.len() - i,
    {
        assert(chars@.take(i + 1) =~= chars@.take(i as int).push(chars@[i as int]));
        push_char(&mut s, chars[i]);
        i = i + 1;
    }
    assert(chars@.take(chars@.len() as int) =~= chars@);
    s
}

/// Whether two texts hold the same characters.
pub fn same_text(a: &str, b: &str) -> (same: bool)
    ensures
        same == (a@ == b@),
{
    a.to_owned() == b.to_owned()
}

/// Whether `text` begins with `prefix`.
pub fn starts_with(text: &str, prefix: &str) -> (yes: bool)
    ensures
        yes == prefix@.is_prefix_of(text@),
{
    let t = chars_of(text);
    let p = chars_of(prefix);
    if p.len() > t.len() {
        return false;
    }
    let mut i: usize = 0;
    while i < p.len()
        invariant
            i <= p.len() <= t.len(),
            p@ == prefix@,
            t@ == text@,
            forall|j: int| 0 <= j < i ==> p@[j] == t@[j],
        decreases p.len() - i,
    {
        if p[i] != t[i] {
            assert(t@.subrange(0, p@.len() as int)[i as int] == t@[i as int]);
            return false;
        }
        i = i + 1;
    }
    assert(p@ =~= t@.subrange(0, p@.len() as int));
    true
}

// ---------------------------------------------------------------------------
// Decimal numbers
// ---------------------------------------------------------------------------

pub open spec fn is_digit(c: char) -> bool {
    '0' <= c <= '9'
}

pub open spec fn digit_value(c: char) -> nat {
    (c as nat - '0' as nat) as nat
}

pub open spec fn digit_char(d: nat) -> char {
    if d == 0 {
        '0'
    } else if d == 1 {
        '1'
    } else if d == 2 {
        '2'
    } else if d == 3 {
        '3'
    } else if d == 4 {
        '4'
    } else if d == 5 {
        '5'
    } else if d == 6 {
        '6'
    } else if d == 7 {
        '7'
    } else if d == 8 {
        '8'
    } else {
        '9'
    }
}

pub open spec fn all_digits(s: Seq<char>) -> bool {
    forall|i: int| 0 <= i < s.len() ==> is_digit(#[trigger] s[i])
}

/// The number that a run of decimal digits writes, most significant first.
pub open spec fn digits_value(s: Seq<char>) -> nat
    decreases s.len(),
{
    if s.len() == 0 {
        0
    } else {
        digits_value(s.drop_last()) * 10 + digit_value(s.last())
    }
}

/// What is left of `s` once one leading `+` is taken off.
pub open spec fn without_plus_sign(s: Seq<char>) -> Seq<char> {
    if s.len() > 0 && s[0] == '+' {
        s.drop_first()
    } else {
        s
    }
}

/// The `u32` that `s` writes: an optional `+`, then one or more decimal
/// digits and nothing else, of a value that fits. Anything else is no number.
pub open spec fn parse_u32_spec(s: Seq<char>) -> Option<u32> {
    let digits = without_plus_sign(s);
    if digits.len() > 0 && all_digits(digits) && digits_value(digits) <= u32::MAX {
        Some(digits_value(digits) as u32)
    } else {
        None
    }
}

/// The decimal digits of `n`, most significant first, without leading zeros.
pub open spec fn decimal_digits(n: nat) -> Seq<char>
    decreases n,
{
    if n < 10 {
        seq![digit_char(n)]
    } else {
        decimal_digits(n / 10).push(digit_char(n % 10))
    }
}

pub proof fn lemma_digits_value_grows(s: Seq<char>, i: int)
    requires
        0 <= i <= s.len(),
    ensures
        digits_value(s.take(i)) <= digits_value(s),
    decreases s.len(),
{
    if i == s.len() {
        assert(s.take(i) =~= s);
    } else {
        assert(s.drop_last().take(i) =~= s.take(i));
        lemma_digits_value_grows(s.drop_last(), i);
    }
}

/// Reads a `u32` written in decimal.
pub fn parse_u32(text: &str) -> (number: Option<u32>)
    ensures
        number == parse_u32_spec(text@),
{
    let chars = chars_of(text);
    let start: usize = if chars.len() > 0 && chars[0] == '+' {
        1
    } else {
        0
    };
    let ghost digits = without_plus_sign(text@);
    assert(digits =~= chars@.subrange(start as int, chars@.len() as int));
    if start == chars.len() {
        return None;
    }
    let mut value: u64 = 0;
    let mut i: usize = start;
    while i < chars.len()
        invariant
            start <= i <= chars.len(),
            digits == without_plus_sign(text@),
            digits == chars@.subrange(start as int, chars@.len() as int),
            all_digits(digits.take(i - start)),
            value == digits_value(digits.take(i - start)),
            value <= u32::MAX,
        decreases chars.len() - i,
    {
        let c = chars[i];
        assert(digits[i - start] == c);
        if !(c >= '0' && c <= '9') {
            assert(!is_digit(digits[i - start]));
            return None;
        }
        let d: u64 = (c as u32 - '0' as u32) as u64;
        let ghost longer = digits.take(i - start + 1);
        assert(longer.drop_last() =~= digits.take(i - start));
        assert(longer.last() == c);
        value = value * 10 + d;
        assert(value == digits_value(longer));
        if value > 0xffff_ffffu64 {
            proof {
                lemma_digits_value_grows(digits, i - start + 1);
            }
            return None;
        }
        assert forall|j: int| 0 <= j < longer.len() implies is_digit(#[trigger] longer[j]) by {
            if j < longer.len() - 1 {
                assert(longer[j] == digits.take(i - start)[j]);
            }
        }
        i = i + 1;
    }
    assert(digits.take(chars.len() - start) =~= digits);
    Some(value as u32)
}

fn digit_to_char(d: u32) -> (c: char)
    requires
        d < 10,
    ensures
        c == digit_char(d as nat),
{
    if d == 0 {
        '0'
    } else if d == 1 {
        '1'
    } else if d == 2 {
        '2'
    } else if d == 3 {
        '3'
    } else if d == 4 {
        '4'
    } else if d == 5 {
        '5'
    } else if d == 6 {
        '6'
    } else if d == 7 {
        '7'
    } else if d == 8 {
        '8'
    } else {
        '9'
    }
}

/// `decimal_digits(n)` is what lies above the last `low.len()` digits of it,
/// followed by those digits.
spec fn digits_above(n: nat, low: Seq<char>, rest: nat) -> bool {
    decimal_digits(n) == decimal_digits(rest) + low
}

/// Writes `n` in decimal.
pub fn u32_to_decimal(n: u32) -> (text: String)
    ensures
        text@ == decimal_digits(n as nat),
{
    // Least significant digit first.
    let mut reversed: Vec<char> = Vec::new();
    let mut rest: u32 = n;
    let ghost mut low: Seq<char> = Seq::empty();
    assert(decimal_digits(n as nat) =~= decimal_digits(rest as nat) + low);
    while rest >= 10
        invariant
            digits_above(n as nat, low, rest as nat),
            reversed@.len() == low.len(),
            forall|j: int| 0 <= j < low.len() ==> reversed@[j] == low[low.len() - 1 - j],
        decreases rest,
    {
        let c = digit_to_char(rest % 10);
        proof {
            let next_low = seq![c] + low;
            assert(decimal_digits(rest as nat) == decimal_digits((rest / 10) as nat).push(c));
            assert(decimal_digits((rest / 10) as nat).push(c) + low =~= decimal_digits(
                (rest / 10) as nat,
            ) + next_low);
            low = next_low;
        }
        reversed.push(c);
        rest = rest / 10;
    }
    let first = digit_to_char(rest);
    assert(decimal_digits(rest as nat) =~= seq![first]);
    let mut text = String::new();
    push_char(&mut text, first);
    let mut k: usize = reversed.len();
    while k > 0
        invariant
            k <= reversed.len(),
            reversed@.len() == low.len(),
            forall|j: int| 0 <= j < low.len() ==> reversed@[j] == low[low.len() - 1 - j],
            text@ == seq![first] + low.take(low.len() - k),
        decreases k,
    {
        k = k - 1;
        assert(low.take(low.len() - k) =~= low.take(low.len() - k - 1).push(reversed@[k as int]));
        assert((seq![first] + low.take(low.len() - k - 1)).push(reversed@[k as int]) =~= seq![first]
            + low.take(low.len() - k));
        push_char(&mut text, reversed[k]);
    }
    assert(low.take(low.len() as int) =~= low);
    text
}

pub proof fn lemma_decimal_digits_are_digits(n: nat)
    ensures
        decimal_digits(n).len() > 0,
        all_digits(decimal_digits(n)),
        decimal_digits(n)[0] != '+',
        digits_value(decimal_digits(n)) == n,
    decreases n,
{
    if n < 10 {
        let s = decimal_digits(n);
        assert(s.drop_last() =~= Seq::<char>::empty());
        assert(digits_value(s.drop_last()) == 0);
    } else {
        lemma_decimal_digits_are_digits(n / 10);
        let s = decimal_digits(n);
        assert(s.drop_last() =~= decimal_digits(n / 10));
        assert(s.last() == digit_char(n % 10));
        assert(s[0] == decimal_digits(n / 10)[0]);
    }
}

/// A number that was written in decimal reads back as itself.
pub proof fn lemma_decimal_round_trip(n: u32)
    ensures
        parse_u32_spec(decimal_digits(n as nat)) == Some(n),
{
    lemma_decimal_digits_are_digits(n as nat);
}

// ---------------------------------------------------------------------------
// ASCII case
// ---------------------------------------------------------------------------

/// `c` with an ASCII capital turned into its small letter.
pub open spec fn ascii_lower(c: char) -> char {
    if 'A' <= c <= 'Z' {
        ((c as u32 + 32) as u32) as char
    } else {
        c
    }
}

pub open spec fn ascii_lower_text(s: Seq<char>) -> Seq<char> {
    s.map(|i: int, c: char| ascii_lower(c))
}

fn to_ascii_lower(c: char) -> (lower: char)
    ensures
        lower == ascii_lower(c),
{
    if c >= 'A' && c <= 'Z' {
        let code: u32 = c as u32 + 32;
        code as u8 as char
    } else {
        c
    }
}

/// Whether two texts are the same up to the case of their ASCII letters.
pub fn eq_ignore_ascii_case(a: &str, b: &str) -> (same: bool)
    ensures
        same == (ascii_lower_text(a@) == ascii_lower_text(b@)),
{
    let x = chars_of(a);
    let y = chars_of(b);
    if x.len() != y.len() {
        assert(ascii_lower_text(a@).len() != ascii_lower_text(b@).len());
        return false;
    }
    let mut i: usize = 0;
    while i < x.len()
        invariant
            i <= x.len() == y.len(),
            x@ == a@,
            y@ == b@,
            forall|j: int| 0 <= j < i ==> ascii_lower(x@[j]) == ascii_lower(y@[j]),
        decreases x.len() - i,
    {
        if to_ascii_lower(x[i]) != to_ascii_lower(y[i]) {
            assert(ascii_lower_text(a@)[i as int] != ascii_lower_text(b@)[i as int]);
            return false;
        }
        i = i + 1;
    }
    assert(ascii_lower_text(a@) =~= ascii_lower_text(b@));
    true
}

// ---------------------------------------------------------------------------
// Searching
// ---------------------------------------------------------------------------

/// Whether `needle` stands in `text` at position `at`.
pub open spec fn occurs_at(text: Seq<char>, needle: Seq<char>, at: int) -> bool {
    0 <= at && at + needle.len() <= text.len() && text.subrange(at, at + needle.len()) == needle
}

/// Whether `needle` stands somewhere in `text`.
pub open spec fn contains_text_spec(text: Seq<char>, needle: Seq<char>) -> bool {
    exists|at: int| occurs_at(text, needle, at)
}

fn matches_at(text: &Vec<char>, needle: &Vec<char>, at: usize) -> (yes: bool)
    requires
        at + needle@.len() <= text@.len(),
    ensures
        yes == occurs_at(text@, needle@, at as int),
{
    let mut k: usize = 0;
    while k < needle.len()
        invariant
            k <= needle.len(),
            at + needle.len() <= text.len(),
            forall|j: int| 0 <= j < k ==> text@[at + j] == needle@[j],
        decreases needle.len() - k,
    {
        if text[at + k] != needle[k] {
            assert(text@.subrange(at as int, at + needle@.len())[k as int] == text@[at + k]);
            return false;
        }
        k = k + 1;
    }
    assert(text@.subrange(at as int, at + needle@.len()) =~= needle@);
    true
}

/// Whether `needle` stands somewhere in `text`.
pub fn contains_text(text: &str, needle: &str) -> (yes: bool)
    ensures
        yes == contains_text_spec(text@, needle@),
{
    let t = chars_of(text);
    let n = chars_of(needle);
    if n.len() > t.len() {
        return false;
    }
    let last: usize = t.len() - n.len();
    let mut at: usize = 0;
    loop
        invariant
            at <= last,
            last == t@.len() - n@.len(),
            t@ == text@,
            n@ == needle@,
            forall|j: int| 0 <= j < at ==> !occurs_at(t@, n@, j),
        decreases last - at,
    {
        if matches_at(&t, &n, at) {
            return true;
        }
        if at == last {
            return false;
        }
        at = at + 1;
    }
}

// ---------------------------------------------------------------------------
// Unicode case
// ---------------------------------------------------------------------------

/// `text` in lower case, as Unicode defines it.
pub uninterp spec fn lowercase_text(text: Seq<char>) -> Seq<char>;

/// `str::to_lowercase` of `std`: the text in lower case, by the Unicode
/// rules that `std` follows. The result is named, not spelled out.
#[verifier::external_body]
pub(crate) fn to_lowercase(text: &str) -> (lower: String)
    ensures
        lower@ == lowercase_text(text@),
{
    text.to_lowercase()
}

/// Whether `c` is a letter or a digit, as Unicode defines it.
pub uninterp spec fn is_alphanumeric_char(c: char) -> bool;

/// Whether `c` is a letter, as Unicode defines it.
pub uninterp spec fn is_alphabetic_char(c: char) -> bool;

/// `c` in lower case, as Unicode defines it; for a few characters that is
/// more than one character.
pub uninterp spec fn lowercase_of_char(c: char) -> Seq<char>;

/// `char::is_alphanumeric` of `std`. The result is named, not spelled out.
#[verifier::external_body]
pub(crate) fn char_is_alphanumeric(c: char) -> (yes: bool)
    ensures
        yes == is_alphanumeric_char(c),
{
    c.is_alphanumeric()
}

/// `char::is_alphabetic` of `std`. The result is named, not spelled out.
#[verifier::external_body]
pub(crate) fn char_is_alphabetic(c: char) -> (yes: bool)
    ensures
        yes == is_alphabetic_char(c),
{
    c.is_alphabetic()
}

/// `char::to_lowercase` of `std`, with the characters it yields gathered in
/// their order. The result is named, not spelled out.
#[verifier::external_body]
pub(crate) fn char_to_lowercase(c: char) -> (lower: Vec<char>)
    ensures
        lower@ == lowercase_of_char(c),
{
    c.to_lowercase().collect()
}

/// Whether `c` is a numeric character, as Unicode defines it.
pub uninterp spec fn is_numeric_char(c: char) -> bool;

/// Whether `c` is white space: one of the 25 characters that have the
/// Unicode property White_Space.
pub open spec fn is_whitespace_char(c: char) -> bool {
    let code = c as u32;
    ||| 0x0009 <= code <= 0x000D
    ||| code == 0x0020
    ||| code == 0x0085
    ||| code == 0x00A0
    ||| code == 0x1680
    ||| 0x2000 <= code <= 0x200A
    ||| code == 0x2028
    ||| code == 0x2029
    ||| code == 0x202F
    ||| code == 0x205F
    ||| code == 0x3000
}

/// `char::is_numeric` of `std`. The result is named, not spelled out.
#[verifier::external_body]
pub(crate) fn char_is_numeric(c: char) -> (yes: bool)
    ensures
        yes == is_numeric_char(c),
{
    c.is_numeric()
}

/// Whether the character is white space.
pub(crate) fn char_is_whitespace(c: char) -> (yes: bool)
    ensures
        yes == is_whitespace_char(c),
{
    let code: u32 = c as u32;
    (0x0009 <= code && code <= 0x000D) || code == 0x0020 || code == 0x0085 || code == 0x00A0
        || code == 0x1680 || (0x2000 <= code && code <= 0x200A) || code == 0x2028 || code
        == 0x2029 || code == 0x202F || code == 0x205F || code == 0x3000
}

// ---------------------------------------------------------------------------
// Trimming and splitting
// ---------------------------------------------------------------------------

/// `text` without the white space it begins with.
pub open spec fn trim_start_text(text: Seq<char>) -> Seq<char>
    decreases text.len(),
{
    if text.len() > 0 && is_whitespace_char(text[0]) {
        trim_start_text(text.drop_first())
    } else {
        text
    }
}

/// `text` without the white space it ends with.
pub open spec fn trim_end_text(text: Seq<char>) -> Seq<char>
    decreases text.len(),
{
    if text.len() > 0 && is_whitespace_char(text.last()) {
        trim_end_text(text.drop_last())
    } else {
        text
    }
}

/// `text` without the white space at both of its ends.
pub open spec fn trim_text(text: Seq<char>) -> Seq<char> {
    trim_end_text(trim_start_text(text))
}

/// The characters of `chars` without the white space at both ends.
pub fn trim_chars(chars: &Vec<char>) -> (trimmed: Vec<char>)
    ensures
        trimmed@ == trim_text(chars@),
{
    let mut start: usize = 0;
    assert(chars@.skip(0) =~= chars@);
    while start < chars.len() && char_is_whitespace(chars[start])
        invariant
            start <= chars.len(),
            trim_start_text(chars@) == trim_start_text(chars@.skip(start as int)),
        decreases chars.len() - start,
    {
        assert(chars@.skip(start as int).drop_first() =~= chars@.skip(start + 1));
        start = start + 1;
    }
    let ghost rest = chars@.skip(start as int);
    assert(trim_start_text(chars@) == rest) by {
        if start < chars.len() {
            assert(rest[0] == chars@[start as int]);
        }
    }
    let mut end: usize = chars.len();
    assert(rest.take(end - start) =~= rest);
    while end > start && char_is_whitespace(chars[end - 1])
        invariant
            start <= end <= chars.len(),
            rest == chars@.skip(start as int),
            trim_end_text(rest) == trim_end_text(rest.take(end - start)),
        decreases end,
    {
        assert(rest.take(end - start).last() == chars@[end - 1]);
        assert(rest.take(end - start).drop_last() =~= rest.take(end - start - 1));
        end = end - 1;
    }
    assert(trim_end_text(rest) == rest.take(end - start)) by {
        if end > start {
            assert(rest.take(end - start).last() == chars@[end - 1]);
        }
    }
    let mut trimmed: Vec<char> = Vec::new();
    let mut i: usize = start;
    while i < end
        invariant
            start <= i <= end <= chars.len(),
            rest == chars@.skip(start as int),
            trimmed@ == rest.take(i - start),
        decreases end - i,
    {
        assert(rest.take(i - start + 1) =~= rest.take(i - start).push(chars@[i as int]));
        trimmed.push(chars[i]);
        i = i + 1;
    }
    trimmed
}

/// The text without the white space at both of its ends.
pub fn trim(text: &str) -> (trimmed: String)
    ensures
        trimmed@ == trim_text(text@),
{
    let chars = chars_of(text);
    let trimmed = trim_chars(&chars);
    string_of(&trimmed)
}

/// The parts of `text` between the separators, in order: one more than
/// there are separators.
pub open spec fn split_text(text: Seq<char>, separator: char) -> Seq<Seq<char>>
    decreases text.len(),
{
    if text.len() == 0 {
        seq![Seq::<char>::empty()]
    } else {
        let before = split_text(text.drop_last(), separator);
        if text.last() == separator {
            before.push(Seq::<char>::empty())
        } else {
            before.update(before.len() - 1, before.last().push(text.last()))
        }
    }
}

pub proof fn lemma_split_is_not_empty(text: Seq<char>, separator: char)
    ensures
        split_text(text, separator).len() >= 1,
    decreases text.len(),
{
    if text.len() > 0 {
        lemma_split_is_not_empty(text.drop_last(), separator);
    }
}

/// Splits `chars` at every separator.
pub fn split_chars(chars: &Vec<char>, separator: char) -> (parts: Vec<Vec<char>>)
    ensures
        parts@.len() == split_text(chars@, separator).len(),
        forall|k: int| 0 <= k < parts@.len() ==> parts@[k]@ == split_text(chars@, separator)[k],
{
    let mut parts: Vec<Vec<char>> = Vec::new();
    let mut part: Vec<char> = Vec::new();
    let mut i: usize = 0;
    assert(chars@.take(0) =~= Seq::<char>::empty());
    while i < chars.len()
        invariant
            i <= chars.len(),
            parts@.len() + 1 == split_text(chars@.take(i as int), separator).len(),
            forall|k: int|
                0 <= k < parts@.len() ==> parts@[k]@ == split_text(
                    chars@.take(i as int),
                    separator,
                )[k],
            part@ == split_text(chars@.take(i as int), separator).last(),
        decreases chars.len() - i,
    {
        let c = chars[i];
        proof {
            let longer = chars@.take(i + 1);
            assert(longer.drop_last() =~= chars@.take(i as int));
            assert(longer.last() == c);
        }
        if c == separator {
            parts.push(part);
            part = Vec::new();
        } else {
            part.push(c);
        }
        i = i + 1;
    }
    assert(chars@.take(chars.len() as int) =~= chars@);
    parts.push(part);
    parts
}

// ---------------------------------------------------------------------------
// Lines
// ---------------------------------------------------------------------------

/// A line without the carriage return that a line end of two characters
/// leaves at its end.
pub open spec fn without_carriage_return(line: Seq<char>) -> Seq<char> {
    if line.len() > 0 && line.last() == '\r' {
        line.drop_last()
    } else {
        line
    }
}

/// The lines among the first `upto` parts of a text that was split at its
/// line feeds: each part but the last ended in a line end.
pub open spec fn ended_lines(parts: Seq<Seq<char>>, upto: int) -> Seq<Seq<char>>
    decreases upto,
{
    if upto <= 0 {
        Seq::empty()
    } else {
        ended_lines(parts, upto - 1).push(without_carriage_return(parts[upto - 1]))
    }
}

/// The lines of a text. A line ends with a line feed, or with a carriage
/// return and a line feed; the last line need not end at all, and what
/// follows the last line end counts as a line only if it is not empty.
pub open spec fn lines_text(text: Seq<char>) -> Seq<Seq<char>> {
    let parts = split_text(text, '\n');
    let ended = ended_lines(parts, parts.len() - 1);
    if parts.last().len() > 0 {
        ended.push(parts.last())
    } else {
        ended
    }
}

/// The lines of a text, without their line ends.
pub fn lines_of(text: &str) -> (lines: Vec<String>)
    ensures
        lines@.len() == lines_text(text@).len(),
        forall|k: int| 0 <= k < lines@.len() ==> lines@[k]@ == lines_text(text@)[k],
{
    let chars = chars_of(text);
    let parts = split_chars(&chars, '\n');
    let ghost part_texts = split_text(text@, '\n');
    proof {
        lemma_split_is_not_empty(text@, '\n');
    }
    let mut lines: Vec<String> = Vec::new();
    let ended: usize = parts.len() - 1;
    let mut i: usize = 0;
    while i < ended
        invariant
            i <= ended,
            ended + 1 == parts@.len() == part_texts.len(),
            forall|k: int| 0 <= k < parts@.len() ==> parts@[k]@ == part_texts[k],
            lines@.len() == i,
            forall|k: int| 0 <= k < i ==> lines@[k]@ == ended_lines(part_texts, i as int)[k],
            ended_lines(part_texts, i as int).len() == i,
        decreases ended - i,
    {
        let part = &parts[i];
        let line = if part.len() > 0 && part[part.len() - 1] == '\r' {
            let mut shorter: Vec<char> = Vec::new();
            let kept: usize = part.len() - 1;
            let mut j: usize = 0;
            while j < kept
                invariant
                    j <= kept,
                    kept + 1 == part@.len(),
                    shorter@ == part@.take(j as int),
                decreases kept - j,
            {
                assert(part@.take(j + 1) =~= part@.take(j as int).push(part@[j as int]));
                shorter.push(part[j]);
                j = j + 1;
            }
            assert(part@.take(part@.len() - 1) =~= part@.drop_last());
            string_of(&shorter)
        } else {
            string_of(part)
        };
        assert(line@ == without_carriage_return(part_texts[i as int]));
        lines.push(line);
        i = i + 1;
    }
    let last = &parts[parts.len() - 1];
    if last.len() > 0 {
        lines.push(string_of(last));
    }
    lines
}

} // verus!
