//! Text as sequences of characters: trimming, ASCII case, numbers and joining.

use core::fmt::Write;
use vstd::prelude::*;
use vstd::string::*;
use vstd::utf8::*;

verus! {

// ---------------------------------------------------------------------------
// Trusted items: functions of the standard library
// ---------------------------------------------------------------------------

/// `String::push` appends one character at the end.
pub assume_specification[ std::string::String::push ](s: &mut String, ch: char)
    ensures
        final(s)@ == old(s)@.push(ch),
;

/// `core::str::from_utf8`: accepts exactly the well-formed UTF-8 sequences and
/// gives back a string with the very same bytes.
#[verifier::external_body]
pub(crate) fn utf8_text(bytes: &[u8]) -> (text: Option<&str>)
    ensures
        text is Some <==> valid_utf8(bytes@),
        text matches Some(text) ==> text.spec_bytes() == bytes@,
{
    core::str::from_utf8(bytes).ok()
}

/// The error that a sink of text can give.
#[verifier::external_type_specification]
#[verifier::external_body]
pub struct ExFmtError(core::fmt::Error);

/// The pieces, one after another, in which `Debug` of `str` hands out a text between
/// quotation marks, with escapes for what cannot be printed.
pub uninterp spec fn quoted(plain: Seq<char>) -> Seq<Seq<char>>;

/// `Debug` of `str`, through `write!` into a sink that keeps every piece: nothing but
/// the text decides which pieces are handed out. Which characters are escaped, and
/// where a piece ends, is left unsaid.
#[verifier::external_body]
pub(crate) fn quoted_pieces(plain: &str) -> (pieces: Vec<String>)
    ensures
        texts(pieces@) == quoted(plain@),
{
    let mut sink = Pieces { parts: Vec::new() };
    let _ = write!(sink, "{:?}", plain);
    sink.parts
}

/// A sink that keeps the pieces of a text apart.
pub struct Pieces {
    pub parts: Vec<String>,
}

impl core::fmt::Write for Pieces {
    fn write_str(&mut self, piece: &str) -> (done: core::fmt::Result)
        ensures
            done is Ok,
            texts(final(self).parts@) == texts(old(self).parts@).push(piece@),
    {
        let ghost before = self.parts@;
        self.parts.push(piece.to_owned());
        assert(texts(self.parts@) =~= texts(before).push(piece@));
        Ok(())
    }
}

// ---------------------------------------------------------------------------
// What the operations mean
// ---------------------------------------------------------------------------

/// Unicode `White_Space`.
pub open spec fn is_space(c: char) -> bool {
    ||| '\u{9}' <= c <= '\u{d}'
    ||| c == '\u{20}'
    ||| c == '\u{85}'
    ||| c == '\u{a0}'
    ||| c == '\u{1680}'
    ||| '\u{2000}' <= c <= '\u{200a}'
    ||| c == '\u{2028}'
    ||| c == '\u{2029}'
    ||| c == '\u{202f}'
    ||| c == '\u{205f}'
    ||| c == '\u{3000}'
}

/// What a trimming removes: white space, or one given character.
pub open spec fn drops(what: Option<char>, c: char) -> bool {
    match what {
        None => is_space(c),
        Some(only) => c == only,
    }
}

/// `s` without the leading characters that `what` removes.
pub open spec fn without_leading(s: Seq<char>, what: Option<char>) -> Seq<char>
    decreases s.len(),
{
    if s.len() > 0 && drops(what, s[0]) {
        without_leading(s.skip(1), what)
    } else {
        s
    }
}

/// `s` without the trailing characters that `what` removes.
pub open spec fn without_trailing(s: Seq<char>, what: Option<char>) -> Seq<char>
    decreases s.len(),
{
    if s.len() > 0 && drops(what, s.last()) {
        without_trailing(s.drop_last(), what)
    } else {
        s
    }
}

/// `s` without white space at both ends.
pub open spec fn trimmed(s: Seq<char>) -> Seq<char> {
    without_trailing(without_leading(s, None), None)
}

/// The ASCII upper-case form of one character.
pub open spec fn upper(c: char) -> char {
    if 'a' <= c <= 'z' {
        (c as u32 - 32) as char
    } else {
        c
    }
}

/// Every ASCII letter in upper case, everything else unchanged.
pub open spec fn uppercase(s: Seq<char>) -> Seq<char> {
    s.map_values(|c: char| upper(c))
}

/// Equality up to the case of ASCII letters.
pub open spec fn same_ignoring_case(a: Seq<char>, b: Seq<char>) -> bool {
    uppercase(a) == uppercase(b)
}

/// The length of a text in bytes.
pub open spec fn byte_len(s: Seq<char>) -> nat {
    encode_utf8(s).len()
}

/// ASCII characters that leave a mark on paper: everything but the space and
/// the control characters.
pub open spec fn is_graphic(c: char) -> bool {
    '!' <= c <= '~'
}

/// The decimal digit of `n % 10`.
pub open spec fn digit(n: nat) -> char {
    (48 + n % 10) as char
}

/// `n` in decimal, without leading zeros.
pub open spec fn decimal(n: nat) -> Seq<char>
    decreases n,
{
    if n < 10 {
        seq![digit(n)]
    } else {
        decimal(n / 10).push(digit(n))
    }
}

/// `s` filled up on the left to `width` characters.
pub open spec fn padded(s: Seq<char>, width: nat, fill: char) -> Seq<char> {
    if s.len() >= width {
        s
    } else {
        Seq::new((width - s.len()) as nat, |i: int| fill) + s
    }
}

/// `n` in decimal with leading zeros up to `width` characters.
pub open spec fn zero_padded(n: nat, width: nat) -> Seq<char> {
    padded(decimal(n), width, '0')
}

/// The value of a sequence of decimal digits, if it is one.
pub open spec fn digits_value(s: Seq<char>) -> Option<nat>
    decreases s.len(),
{
    if s.len() == 0 {
        Some(0)
    } else if '0' <= s.last() <= '9' {
        match digits_value(s.drop_last()) {
            Some(value) => Some(value * 10 + (s.last() as nat - 48) as nat),
            None => None,
        }
    } else {
        None
    }
}

/// The number that `s` writes down: an optional plus sign, then digits only.
pub open spec fn number_value(s: Seq<char>) -> Option<nat> {
    let digits = if s.len() > 0 && s[0] == '+' {
        s.skip(1)
    } else {
        s
    };
    if digits.len() == 0 {
        None
    } else {
        digits_value(digits)
    }
}

/// The parts one after another with `separator` between them.
pub open spec fn joined(parts: Seq<Seq<char>>, separator: Seq<char>) -> Seq<char>
    decreases parts.len(),
{
    if parts.len() == 0 {
        Seq::empty()
    } else if parts.len() == 1 {
        parts[0]
    } else {
        joined(parts.drop_last(), separator) + separator + parts.last()
    }
}

/// The characters of each string of a list.
pub open spec fn texts(strings: Seq<String>) -> Seq<Seq<char>> {
    strings.map_values(|s: String| s@)
}

/// The characters of a string that may be missing.
pub open spec fn opt_text(string: Option<String>) -> Option<Seq<char>> {
    match string {
        Some(s) => Some(s@),
        None => None,
    }
}

/// The first position of `c` in `s`, or the length where there is none.
pub open spec fn position(s: Seq<char>, c: char) -> int
    decreases s.len(),
{
    if s.len() == 0 || s[0] == c {
        0
    } else {
        1 + position(s.skip(1), c)
    }
}

// ---------------------------------------------------------------------------
// Facts
// ---------------------------------------------------------------------------

/// `position` is the first place where `c` stands.
pub proof fn position_is_first(s: Seq<char>, c: char)
    ensures
        0 <= position(s, c) <= s.len(),
        position(s, c) < s.len() ==> s[position(s, c)] == c,
        forall|i: int| 0 <= i < position(s, c) ==> s[i] != c,
    decreases s.len(),
{
    if s.len() > 0 && s[0] != c {
        position_is_first(s.skip(1), c);
        assert forall|i: int| 0 <= i < position(s, c) implies s[i] != c by {
            if i > 0 {
                assert(s[i] == s.skip(1)[i - 1]);
            }
        }
    }
}

/// Trimming the beginning makes no text longer.
pub proof fn without_leading_is_shorter(s: Seq<char>, what: Option<char>)
    ensures
        without_leading(s, what).len() <= s.len(),
    decreases s.len(),
{
    if s.len() > 0 && drops(what, s[0]) {
        without_leading_is_shorter(s.skip(1), what);
    }
}

/// A place where `c` stands and before which it does not is `position`.
proof fn position_found(s: Seq<char>, c: char, at: int)
    requires
        0 <= at <= s.len(),
        at < s.len() ==> s[at] == c,
        forall|i: int| 0 <= i < at ==> s[i] != c,
    ensures
        position(s, c) == at,
{
    position_is_first(s, c);
    let found = position(s, c);
    if found < at {
        assert(s[found] == c);
    }
}

// ---------------------------------------------------------------------------
// Executable operations
// ---------------------------------------------------------------------------

/// The characters of a string.
pub fn chars_of(text: &str) -> (out: Vec<char>)
    ensures
        out@ == text@,
{
    let mut out: Vec<char> = Vec::new();
    for c in it: text.chars()
        invariant
            it.seq() == text@,
            out@ == text@.take(it.index() as int),
    {
        out.push(c);
        assert(out@ =~= text@.take(it.index() + 1));
    }
    assert(text@.take(text@.len() as int) =~= text@);
    out
}

/// The string made of `chars[from..to]`.
pub fn string_of(chars: &[char], from: usize, to: usize) -> (out: String)
    requires
        from <= to <= chars@.len(),
    ensures
        out@ == chars@.subrange(from as int, to as int),
{
    let mut out = String::new();
    let mut i: usize = from;
    while i < to
        invariant
            from <= i <= to <= chars@.len(),
            out@ == chars@.subrange(from as int, i as int),
        decreases to - i,
    {
        out.push(chars[i]);
        i += 1;
        assert(out@ =~= chars@.subrange(from as int, i as int));
    }
    out
}

/// The length of a text in bytes.
pub fn byte_length(text: &str) -> (len: usize)
    ensures
        len == byte_len(text@),
{
    text.as_bytes().len()
}

/// Whether two strings hold the same characters.
pub fn same_text(a: &str, b: &str) -> (same: bool)
    ensures
        same == (a@ == b@),
{
    let left = chars_of(a);
    let right = chars_of(b);
    if left.len() != right.len() {
        return false;
    }
    let mut i: usize = 0;
    while i < left.len()
        invariant
            i <= left.len(),
            left@ == a@,
            right@ == b@,
            left@.len() == right@.len(),
            forall|j: int| 0 <= j < i ==> left@[j] == right@[j],
        decreases left.len() - i,
    {
        if left[i] != right[i] {
            return false;
        }
        i += 1;
    }
    assert(a@ =~= b@);
    true
}

/// Whether a character is white space.
pub fn is_white_space(c: char) -> (yes: bool)
    ensures
        yes == is_space(c),
{
    ('\u{9}' <= c && c <= '\u{d}') || c == '\u{20}' || c == '\u{85}' || c == '\u{a0}' || c
        == '\u{1680}' || ('\u{2000}' <= c && c <= '\u{200a}') || c == '\u{2028}' || c == '\u{2029}'
        || c == '\u{202f}' || c == '\u{205f}' || c == '\u{3000}'
}

fn is_dropped(what: Option<char>, c: char) -> (yes: bool)
    ensures
        yes == drops(what, c),
{
    match what {
        None => is_white_space(c),
        Some(only) => c == only,
    }
}

/// `text` without the leading characters that `what` removes.
pub fn trim_leading(text: &str, what: Option<char>) -> (out: String)
    ensures
        out@ == without_leading(text@, what),
{
    let chars = chars_of(text);
    let mut i: usize = 0;
    assert(chars@.skip(0) =~= chars@);
    while i < chars.len() && is_dropped(what, chars[i])
        invariant
            i <= chars@.len(),
            without_leading(chars@.skip(i as int), what) == without_leading(chars@, what),
        decreases chars@.len() - i,
    {
        assert(chars@.skip(i as int)[0] == chars@[i as int]);
        assert(chars@.skip(i as int).skip(1) =~= chars@.skip(i + 1));
        i += 1;
    }
    assert(i < chars@.len() ==> chars@.skip(i as int)[0] == chars@[i as int]);
    let out = string_of(chars.as_slice(), i, chars.len());
    assert(out@ =~= chars@.skip(i as int));
    out
}

/// `text` without the trailing characters that `what` removes.
pub fn trim_trailing(text: &str, what: Option<char>) -> (out: String)
    ensures
        out@ == without_trailing(text@, what),
{
    let chars = chars_of(text);
    let mut end: usize = chars.len();
    assert(chars@.take(end as int) =~= chars@);
    while end > 0 && is_dropped(what, chars[end - 1])
        invariant
            end <= chars@.len(),
            without_trailing(chars@.take(end as int), what) == without_trailing(chars@, what),
        decreases end,
    {
        assert(chars@.take(end as int).last() == chars@[end - 1]);
        assert(chars@.take(end as int).drop_last() =~= chars@.take(end - 1));
        end -= 1;
    }
    assert(end > 0 ==> chars@.take(end as int).last() == chars@[end - 1]);
    let out = string_of(chars.as_slice(), 0, end);
    assert(out@ =~= chars@.take(end as int));
    out
}

/// `text` without white space at both ends.
pub fn trim(text: &str) -> (out: String)
    ensures
        out@ == trimmed(text@),
{
    let front = trim_leading(text, None);
    trim_trailing(front.as_str(), None)
}

/// The ASCII upper-case form of one character.
pub fn upper_char(c: char) -> (out: char)
    ensures
        out == upper(c),
{
    if 'a' <= c && c <= 'z' {
        (c as u8 - 32) as char
    } else {
        c
    }
}

/// Every ASCII letter in upper case.
pub fn to_upper(text: &str) -> (out: String)
    ensures
        out@ == uppercase(text@),
{
    let chars = chars_of(text);
    let mut out = String::new();
    let mut i: usize = 0;
    while i < chars.len()
        invariant
            i <= chars@.len(),
            out@ == uppercase(chars@.take(i as int)),
        decreases chars@.len() - i,
    {
        out.push(upper_char(chars[i]));
        assert(uppercase(chars@.take(i + 1)) =~= uppercase(chars@.take(i as int)).push(
            upper(chars@[i as int]),
        ));
        i += 1;
    }
    assert(chars@.take(i as int) =~= text@);
    out
}

/// Equality up to the case of ASCII letters.
pub fn eq_ignoring_case(a: &str, b: &str) -> (same: bool)
    ensures
        same == same_ignoring_case(a@, b@),
{
    let left = to_upper(a);
    let right = to_upper(b);
    same_text(left.as_str(), right.as_str())
}

/// A copy of a list of strings.
pub fn copy_strings(list: &[String]) -> (out: Vec<String>)
    ensures
        texts(out@) == texts(list@),
{
    let mut out: Vec<String> = Vec::new();
    let mut i: usize = 0;
    while i < list.len()
        invariant
            i <= list@.len(),
            texts(out@) == texts(list@.take(i as int)),
        decreases list@.len() - i,
    {
        out.push(list[i].clone());
        assert(texts(list@.take(i + 1)) =~= texts(list@.take(i as int)).push(list@[i as int]@));
        assert(texts(out@) =~= texts(list@.take(i + 1)));
        i += 1;
    }
    assert(list@.take(i as int) =~= list@);
    out
}

/// The strings one after another with `separator` between them.
pub fn join(parts: &[String], separator: &str) -> (out: String)
    ensures
        out@ == joined(texts(parts@), separator@),
{
    let mut out = String::new();
    let mut i: usize = 0;
    while i < parts.len()
        invariant
            i <= parts@.len(),
            out@ == joined(texts(parts@.take(i as int)), separator@),
        decreases parts@.len() - i,
    {
        let ghost before = texts(parts@.take(i as int));
        let ghost after = texts(parts@.take(i + 1));
        assert(after.drop_last() =~= before);
        assert(after.last() == parts@[i as int]@);
        if i > 0 {
            out.append(separator);
        }
        out.append(parts[i].as_str());
        assert(out@ =~= joined(after, separator@));
        i += 1;
    }
    assert(parts@.take(i as int) =~= parts@);
    out
}

/// The character of a digit.
fn digit_char(n: u8) -> (c: char)
    requires
        n < 10,
    ensures
        c == digit(n as nat),
{
    (48 + n) as char
}

/// `n` in decimal.
pub fn decimal_text(n: u64) -> (out: String)
    ensures
        out@ == decimal(n as nat),
    decreases n,
{
    if n < 10 {
        let mut out = String::new();
        out.push(digit_char(n as u8));
        assert(out@ =~= decimal(n as nat));
        out
    } else {
        let mut out = decimal_text(n / 10);
        out.push(digit_char((n % 10) as u8));
        out
    }
}

/// `text` filled up on the left to `width` characters.
pub fn pad(text: &str, width: usize, fill: char) -> (out: String)
    ensures
        out@ == padded(text@, width as nat, fill),
{
    let len = text.unicode_len();
    let mut out = String::new();
    if len < width {
        let mut i: usize = 0;
        while i < width - len
            invariant
                len < width,
                i <= width - len,
                out@ == Seq::new(i as nat, |k: int| fill),
            decreases width - len - i,
        {
            out.push(fill);
            i += 1;
            assert(out@ =~= Seq::new(i as nat, |k: int| fill));
        }
    }
    out.append(text);
    assert(out@ =~= padded(text@, width as nat, fill));
    out
}

/// `n` in decimal with leading zeros up to `width` characters.
pub fn zero_pad(n: u64, width: usize) -> (out: String)
    ensures
        out@ == zero_padded(n as nat, width as nat),
{
    let digits = decimal_text(n);
    pad(digits.as_str(), width, '0')
}

/// A number that does not fit has a longer beginning that does not fit.
proof fn digits_value_grows(s: Seq<char>, at: int)
    requires
        0 <= at <= s.len(),
    ensures
        digits_value(s) is Some ==> digits_value(s.take(at)) is Some,
        digits_value(s) is Some ==> digits_value(s)->0 >= digits_value(s.take(at))->0,
    decreases s.len(),
{
    if at == s.len() {
        assert(s.take(at) =~= s);
    } else {
        digits_value_grows(s.drop_last(), at);
        assert(s.drop_last().take(at) =~= s.take(at));
    }
}

/// The number that `text` writes down, where it fits.
pub fn parse_number(text: &str) -> (value: Option<u64>)
    ensures
        value matches Some(value) ==> number_value(text@) == Some(value as nat),
        value is None ==> match number_value(text@) {
            Some(number) => number > u64::MAX,
            None => true,
        },
{
    let chars = chars_of(text);
    let start: usize = if chars.len() > 0 && chars[0] == '+' {
        1
    } else {
        0
    };
    if start == chars.len() {
        return None;
    }
    let ghost digits = chars@.skip(start as int);
    assert(digits =~= if text@.len() > 0 && text@[0] == '+' {
        text@.skip(1)
    } else {
        text@
    });
    let mut value: u64 = 0;
    let mut i: usize = start;
    while i < chars.len()
        invariant
            start <= i <= chars@.len(),
            digits == chars@.skip(start as int),
            digits.len() > 0,
            chars@ == text@,
            number_value(text@) == digits_value(digits),
            digits_value(digits.take(i - start)) == Some(value as nat),
        decreases chars@.len() - i,
    {
        let c = chars[i];
        let ghost longer = digits.take(i + 1 - start);
        proof {
            assert(longer.drop_last() =~= digits.take(i - start));
            assert(longer.last() == c);
            digits_value_grows(digits, i + 1 - start);
        }
        if !('0' <= c && c <= '9') {
            return None;
        }
        let digit: u64 = (c as u8 - 48) as u64;
        match value.checked_mul(10) {
            Some(shifted) => match shifted.checked_add(digit) {
                Some(sum) => {
                    value = sum;
                },
                None => {
                    return None;
                },
            },
            None => {
                return None;
            },
        }
        i += 1;
    }
    assert(digits.take(i - start) =~= digits);
    Some(value)
}

/// The first position of `c`, or the length where there is none.
pub fn find_char(chars: &[char], c: char) -> (at: usize)
    ensures
        at == position(chars@, c),
        at <= chars@.len(),
{
    let mut i: usize = 0;
    while i < chars.len() && chars[i] != c
        invariant
            i <= chars@.len(),
            forall|j: int| 0 <= j < i ==> chars@[j] != c,
        decreases chars@.len() - i,
    {
        i += 1;
    }
    proof {
        position_found(chars@, c, i as int);
    }
    i
}


// ---------------------------------------------------------------------------
// Laws of texts
// ---------------------------------------------------------------------------

/// White space is what Unicode calls so.
pub proof fn white_space_is_unicode(c: char)
    ensures
        is_space(c) <==> {
            let code = c as u32;
            ||| code == 0x09 || code == 0x0a || code == 0x0b || code == 0x0c || code == 0x0d
            ||| code == 0x20 || code == 0x85 || code == 0xa0 || code == 0x1680
            ||| 0x2000 <= code <= 0x200a
            ||| code == 0x2028 || code == 0x2029 || code == 0x202f || code == 0x205f
            ||| code == 0x3000
        },
{
}

proof fn leading_is_dropped(s: Seq<char>, what: Option<char>) -> (at: int)
    ensures
        0 <= at <= s.len(),
        without_leading(s, what) == s.skip(at),
        forall|i: int| 0 <= i < at ==> drops(what, #[trigger] s[i]),
        at < s.len() ==> !drops(what, s[at]),
    decreases s.len(),
{
    if s.len() > 0 && drops(what, s[0]) {
        let rest = leading_is_dropped(s.skip(1), what);
        assert(s.skip(1).skip(rest) =~= s.skip(rest + 1));
        assert forall|i: int| 0 <= i < rest + 1 implies drops(what, #[trigger] s[i]) by {
            if i > 0 {
                assert(s[i] == s.skip(1)[i - 1]);
            }
        }
        if rest + 1 < s.len() {
            assert(s[rest + 1] == s.skip(1)[rest]);
        }
        rest + 1
    } else {
        assert(s.skip(0) =~= s);
        0
    }
}

proof fn trailing_is_dropped(s: Seq<char>, what: Option<char>) -> (to: int)
    ensures
        0 <= to <= s.len(),
        without_trailing(s, what) == s.take(to),
        forall|i: int| to <= i < s.len() ==> drops(what, #[trigger] s[i]),
        to > 0 ==> !drops(what, s[to - 1]),
    decreases s.len(),
{
    if s.len() > 0 && drops(what, s.last()) {
        let to = trailing_is_dropped(s.drop_last(), what);
        assert(s.drop_last().take(to) =~= s.take(to));
        assert forall|i: int| to <= i < s.len() implies drops(what, #[trigger] s[i]) by {
            if i < s.len() - 1 {
                assert(s[i] == s.drop_last()[i]);
            }
        }
        to
    } else {
        assert(s.take(s.len() as int) =~= s);
        s.len() as int
    }
}

/// Trimming a text keeps its middle: what is dropped at both ends is white space, and what is
/// kept neither begins nor ends with any.
pub proof fn trimming_keeps_the_middle(s: Seq<char>)
    ensures
        exists|from: int, to: int|
            0 <= from <= to <= s.len() && trimmed(s) == #[trigger] s.subrange(from, to) && (forall|
                i: int,
            |
                0 <= i < from || to <= i < s.len() ==> is_space(#[trigger] s[i])),
        trimmed(s).len() > 0 ==> !is_space(trimmed(s)[0]) && !is_space(trimmed(s).last()),
{
    let from = leading_is_dropped(s, None);
    let rest = s.skip(from);
    let len = trailing_is_dropped(rest, None);
    let to = from + len;
    assert(rest.take(len) =~= s.subrange(from, to));
    assert forall|i: int| 0 <= i < from || to <= i < s.len() implies is_space(#[trigger] s[i]) by {
        if i < from {
            assert(drops(None, s[i]));
        } else {
            assert(s[i] == rest[i - from]);
        }
    }
    if len > 0 {
        assert(rest[0] == s[from]);
    }
}

/// A text that neither begins nor ends with white space is not trimmed.
pub proof fn trimming_keeps_what_has_no_space_at_its_ends(s: Seq<char>)
    requires
        s.len() > 0,
        !is_space(s[0]),
        !is_space(s.last()),
    ensures
        trimmed(s) == s,
{
    trimming_keeps_the_middle(s);
    let (from, to) = choose|from: int, to: int|
        0 <= from <= to <= s.len() && trimmed(s) == #[trigger] s.subrange(from, to) && (forall|
            i: int,
        |
            0 <= i < from || to <= i < s.len() ==> is_space(#[trigger] s[i]));
    if from > 0 {
        assert(is_space(s[0]));
    }
    if to < s.len() {
        assert(is_space(s[s.len() - 1]));
    }
    assert(s.subrange(0, s.len() as int) =~= s);
}

/// ASCII letters go up by 32; nothing else changes.
pub proof fn letters_are_raised(s: Seq<char>)
    ensures
        uppercase(s).len() == s.len(),
        forall|i: int|
            0 <= i < s.len() ==> (#[trigger] uppercase(s)[i]) as u32 == if 97 <= s[i] as u32
                && s[i] as u32 <= 122 {
                (s[i] as u32 - 32) as u32
            } else {
                s[i] as u32
            },
{
    assert forall|i: int| 0 <= i < s.len() implies (#[trigger] uppercase(s)[i]) as u32 == if 97
        <= s[i] as u32 && s[i] as u32 <= 122 {
        (s[i] as u32 - 32) as u32
    } else {
        s[i] as u32
    } by {
        assert(uppercase(s)[i] == upper(s[i]));
    }
}

proof fn decimal_reads_back(n: nat)
    ensures
        digits_value(decimal(n)) == Some(n),
        decimal(n).len() > 0,
        forall|i: int| 0 <= i < decimal(n).len() ==> '0' <= #[trigger] decimal(n)[i] <= '9',
        n > 0 ==> decimal(n)[0] != '0',
    decreases n,
{
    let d = digit(n);
    assert(d as u32 == 48 + n % 10);
    if n < 10 {
        assert(decimal(n).drop_last() =~= Seq::<char>::empty());
        reveal_with_fuel(digits_value, 2);
    } else {
        decimal_reads_back(n / 10);
        assert(decimal(n).drop_last() =~= decimal(n / 10));
        assert(decimal(n).last() == d);
        assert forall|i: int| 0 <= i < decimal(n).len() implies '0' <= #[trigger] decimal(n)[i]
            <= '9' by {
            if i < decimal(n).len() - 1 {
                assert(decimal(n)[i] == decimal(n / 10)[i]);
            }
        }
        assert(decimal(n)[0] == decimal(n / 10)[0]);
    }
}

/// A number that is written down in decimal can be read back, is made of digits only, and has
/// no needless zero before it.
pub proof fn numbers_read_back(n: nat)
    ensures
        number_value(decimal(n)) == Some(n),
        decimal(n).len() > 0,
        forall|i: int|
            0 <= i < decimal(n).len() ==> 48 <= (#[trigger] decimal(n)[i]) as u32 <= 57,
        decimal(n).len() > 1 ==> decimal(n)[0] as u32 != 48,
{
    decimal_reads_back(n);
    if decimal(n).len() > 1 {
        assert(n >= 10);
    }
    assert forall|i: int| 0 <= i < decimal(n).len() implies 48 <= (#[trigger] decimal(n)[i]) as u32
        <= 57 by {
        assert('0' <= decimal(n)[i] <= '9');
    }
}

proof fn zeros_add_nothing(count: nat, s: Seq<char>)
    ensures
        digits_value(Seq::new(count, |i: int| '0') + s) == digits_value(s),
    decreases s.len(), count,
{
    let zeros = Seq::new(count, |i: int| '0');
    let whole = zeros + s;
    if s.len() > 0 {
        zeros_add_nothing(count, s.drop_last());
        assert(whole.drop_last() =~= zeros + s.drop_last());
    } else if count > 0 {
        let fewer = (count - 1) as nat;
        zeros_add_nothing(fewer, s);
        assert(whole.drop_last() =~= Seq::new(fewer, |i: int| '0') + s);
        assert(whole.last() == '0');
    } else {
        assert(whole =~= s);
    }
}

/// Zeros before a number leave it what it is, and fill it up to its width.
pub proof fn zero_padding_keeps_the_number(n: nat, width: nat)
    ensures
        number_value(zero_padded(n, width)) == Some(n),
        zero_padded(n, width).len() >= width,
        n < 10 && width == 2 ==> zero_padded(n, width).len() == 2,
        n < 100 && width == 2 ==> zero_padded(n, width).len() == 2,
        n < 10_000 && width == 4 ==> zero_padded(n, width).len() == 4,
{
    numbers_read_back(n);
    decimal_reads_back(n);
    reveal_with_fuel(decimal, 5);
    let s = decimal(n);
    if s.len() < width {
        let fill = (width - s.len()) as nat;
        zeros_add_nothing(fill, s);
        assert(padded(s, width, '0') =~= Seq::new(fill, |i: int| '0') + s);
        assert(zero_padded(n, width)[0] == '0');
    } else {
        assert(s[0] != '+') by {
            assert('0' <= s[0] <= '9');
        }
    }
}

/// A further digit makes a number ten times as large and adds the digit; anything else makes
/// it no number.
pub proof fn digits_have_their_place(s: Seq<char>, c: char)
    requires
        s.len() > 0,
    ensures
        48 <= c as u32 <= 57 ==> number_value(s.push(c)) == match number_value(s) {
            Some(n) => Some((10 * n + (c as u32 - 48)) as nat),
            None => if s =~= seq!['+'] {
                Some((c as u32 - 48) as nat)
            } else {
                None
            },
        },
        !(48 <= c as u32 <= 57) ==> number_value(s.push(c)) is None,
{
    let more = s.push(c);
    if s[0] == '+' {
        assert(more.skip(1) =~= s.skip(1).push(c));
        assert(more.skip(1).drop_last() =~= s.skip(1));
        if s.len() == 1 {
            assert(s =~= seq!['+']);
            assert(s.skip(1) =~= Seq::<char>::empty());
            reveal_with_fuel(digits_value, 2);
        }
    } else {
        assert(more.drop_last() =~= s);
    }
}

/// Filling a text up leaves it at the end, and makes it just as long as asked for unless it
/// is longer.
pub proof fn filling_keeps_the_text(s: Seq<char>, width: nat, fill: char)
    ensures
        ({
            let out = padded(s, width, fill);
            let more = out.len() - s.len();
            &&& out.len() == if s.len() < width {
                width
            } else {
                s.len()
            }
            &&& out.skip(more) == s
            &&& forall|i: int| 0 <= i < more ==> #[trigger] out[i] == fill
        }),
{
    let out = padded(s, width, fill);
    assert(out.skip(out.len() - s.len()) =~= s);
}

} // verus!
