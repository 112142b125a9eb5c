//! Text: decimal numbers, hexadecimal bytes, searching, columns.

use vstd::prelude::*;

verus! {

/// `String::push` appends one character and changes nothing else.
pub assume_specification[ String::push ](s: &mut String, c: char)
    ensures
        final(s)@ == old(s)@.push(c),
;

#[verifier::external_type_specification]
#[verifier::external_body]
pub struct ExUtf8Error(core::str::Utf8Error);

/// `core::str::from_utf8` accepts exactly the valid UTF-8 sequences, and gives
/// the text that they encode.
pub assume_specification<'a>[ core::str::from_utf8 ](v: &'a [u8]) -> (r: core::result::Result<
    &'a str,
    core::str::Utf8Error,
>)
    ensures
        r is Ok <==> vstd::utf8::valid_utf8(v@),
        r matches Ok(s) ==> vstd::utf8::encode_utf8(s@) == v@,
;

/// Equality of `str`: two texts are equal when they are the same characters.
pub assume_specification[ <str as PartialEq<str>>::eq ](a: &str, b: &str) -> (r: bool)
    ensures
        r == (a@ == b@),
;

/// A text in quotation marks, with escapes, as std's `Debug` writes it.
pub uninterp spec fn quoted(text: Seq<char>) -> Seq<char>;

/// `Debug` formatting of a `str`: the text in quotation marks, with std's
/// escapes.
#[verifier::external_body]
pub(crate) fn quote(text: &str) -> (s: String)
    ensures
        s@ == quoted(text@),
{
    format!("{:?}", text)
}

/// The number of bytes of `s` in UTF-8.
pub fn byte_len(s: &str) -> (n: usize)
    ensures
        n == vstd::utf8::encode_utf8(s@).len(),
{
    s.as_bytes().len()
}

/// The character of a decimal digit.
pub open spec fn digit_char(d: nat) -> char {
    (48 + d) as char
}

/// The decimal digits of `n`, most significant first.
pub open spec fn decimal(n: nat) -> Seq<char>
    decreases n,
{
    if n < 10 {
        seq![digit_char(n)]
    } else {
        decimal(n / 10).push(digit_char(n % 10))
    }
}

/// Append the decimal digits of `n` to `out`.
pub fn push_decimal(out: &mut String, n: usize)
    ensures
        final(out)@ == old(out)@ + decimal(n as nat),
    decreases n,
{
    if n >= 10 {
        push_decimal(out, n / 10);
    }
    let digit: u8 = (n % 10) as u8;
    out.push((48 + digit) as char);
}

/// The lower-case hexadecimal character of a half byte.
pub open spec fn hex_char(d: int) -> char {
    if d < 10 {
        (48 + d) as char
    } else {
        (87 + d) as char
    }
}

/// Two lower-case hexadecimal characters for each byte, high half first.
pub open spec fn hex(bytes: Seq<u8>) -> Seq<char> {
    Seq::new(
        2 * bytes.len(),
        |i: int|
            if i % 2 == 0 {
                hex_char(bytes[i / 2] as int / 16)
            } else {
                hex_char(bytes[i / 2] as int % 16)
            },
    )
}

/// The hexadecimal character of a half byte.
fn hex_digit(d: u8) -> (c: char)
    requires
        d < 16,
    ensures
        c == hex_char(d as int),
{
    if d < 10 {
        (48 + d) as char
    } else {
        (87 + d) as char
    }
}

/// Append the hexadecimal form of `bytes` to `out`.
pub fn push_hex(out: &mut String, bytes: &[u8])
    ensures
        final(out)@ == old(out)@ + hex(bytes@),
{
    let ghost start = out@;
    let mut i: usize = 0;
    assert(out@ =~= start + hex(bytes@.take(0)));
    while i < bytes.len()
        invariant
            i <= bytes@.len(),
            out@ == start + hex(bytes@.take(i as int)),
        decreases bytes@.len() - i,
    {
        let b: u8 = bytes[i];
        out.push(hex_digit(b / 16));
        out.push(hex_digit(b % 16));
        i += 1;
        assert(hex(bytes@.take(i as int)) =~= hex(bytes@.take(i - 1)).push(
            hex_char(b as int / 16),
        ).push(hex_char(b as int % 16)));
    }
    assert(bytes@.take(i as int) =~= bytes@);
}

/// Whether a byte is an ASCII hexadecimal digit, of either case.
pub open spec fn is_hex_byte(b: u8) -> bool {
    48 <= b <= 57 || 65 <= b <= 70 || 97 <= b <= 102
}

/// Whether every byte is an ASCII hexadecimal digit.
pub open spec fn all_hex(bytes: Seq<u8>) -> bool {
    forall|i: int| 0 <= i < bytes.len() ==> is_hex_byte(#[trigger] bytes[i])
}

/// Whether every byte of `bytes` is an ASCII hexadecimal digit.
pub fn is_hex(bytes: &[u8]) -> (r: bool)
    ensures
        r == all_hex(bytes@),
{
    let mut i: usize = 0;
    while i < bytes.len()
        invariant
            i <= bytes@.len(),
            forall|j: int| 0 <= j < i ==> is_hex_byte(#[trigger] bytes@[j]),
        decreases bytes@.len() - i,
    {
        let b: u8 = bytes[i];
        if !((48 <= b && b <= 57) || (65 <= b && b <= 70) || (97 <= b && b <= 102)) {
            assert(!is_hex_byte(bytes@[i as int]));
            return false;
        }
        i += 1;
    }
    true
}

/// The hexadecimal form of bytes takes two bytes for each in UTF-8, all of them
/// hexadecimal digits.
pub proof fn hex_is_hex(bytes: Seq<u8>)
    ensures
        vstd::utf8::encode_utf8(hex(bytes)).len() == 2 * bytes.len(),
        all_hex(vstd::utf8::encode_utf8(hex(bytes))),
{
    let text = hex(bytes);
    assert(vstd::utf8::is_ascii_chars(text));
    vstd::utf8::is_ascii_chars_encode_utf8(text);
    let encoded = vstd::utf8::encode_utf8(text);
    assert forall|i: int| 0 <= i < encoded.len() implies is_hex_byte(#[trigger] encoded[i]) by {
        assert(text[i] as u8 == encoded[i]);
    }
}

// ---------------------------------------------------------------------------
// Searching
// ---------------------------------------------------------------------------

/// Whether a character is white space, by Unicode's `White_Space` property.
pub open spec fn is_whitespace(c: char) -> bool {
    ||| 9 <= c as u32 <= 13
    ||| c as u32 == 0x20
    ||| c as u32 == 0x85
    ||| c as u32 == 0xA0
    ||| c as u32 == 0x1680
    ||| 0x2000 <= c as u32 <= 0x200A
    ||| c as u32 == 0x2028
    ||| c as u32 == 0x2029
    ||| c as u32 == 0x202F
    ||| c as u32 == 0x205F
    ||| c as u32 == 0x3000
}

/// A text without the white space at its start.
pub open spec fn trimmed_start(text: Seq<char>) -> Seq<char>
    decreases text.len(),
{
    if text.len() > 0 && is_whitespace(text[0]) {
        trimmed_start(text.drop_first())
    } else {
        text
    }
}

/// A text without the white space at its end.
pub open spec fn trimmed_end(text: Seq<char>) -> Seq<char>
    decreases text.len(),
{
    if text.len() > 0 && is_whitespace(text.last()) {
        trimmed_end(text.drop_last())
    } else {
        text
    }
}

/// `str::trim` takes the white space off both ends of a text.
pub assume_specification[ str::trim ](s: &str) -> (r: &str)
    ensures
        r@ == trimmed_end(trimmed_start(s@)),
;

/// The lower-case form of a text, by Unicode's mapping.
pub uninterp spec fn lowercase(text: Seq<char>) -> Seq<char>;

/// `str::to_lowercase` gives the lower-case form of a text, which depends on
/// the text alone.
pub assume_specification[ str::to_lowercase ](s: &str) -> (r: String)
    ensures
        r@ == lowercase(s@),
;

/// Whether `part` occurs in `text`.
pub open spec fn occurs_in(part: Seq<char>, text: Seq<char>) -> bool {
    exists|i: int|
        0 <= i <= text.len() - part.len() && #[trigger] text.subrange(i, i + part.len()) == part
}

/// `str::contains` with a text: whether it occurs somewhere.
#[verifier::external_body]
pub(crate) fn contains(text: &str, part: &str) -> (r: bool)
    ensures
        r == occurs_in(part@, text@),
{
    text.contains(part)
}

// ---------------------------------------------------------------------------
// Columns
// ---------------------------------------------------------------------------

/// A text cut to at most `max` characters, with an ellipsis in place of the last
/// if it had to be cut and there is room for one.
pub open spec fn cut(text: Seq<char>, max: nat) -> Seq<char> {
    if text.len() <= max {
        text
    } else if max == 0 {
        Seq::empty()
    } else {
        text.take(max - 1).push('…')
    }
}

/// A text filled up with spaces to at least `width` characters.
pub open spec fn padded(text: Seq<char>, width: nat) -> Seq<char>
    decreases width - text.len(),
{
    if text.len() < width {
        padded(text.push(' '), width)
    } else {
        text
    }
}

/// Fill `text` up with spaces to at least `width` characters.
pub fn pad(text: &mut String, width: usize)
    ensures
        final(text)@ == padded(old(text)@, width as nat),
{
    let ghost whole = padded(text@, width as nat);
    let mut n: usize = text.as_str().unicode_len();
    while n < width
        invariant
            n == text@.len(),
            padded(text@, width as nat) == whole,
        decreases width - n,
    {
        text.push(' ');
        n += 1;
    }
}

} // verus!
