//! Text that the library writes: hexadecimal and decimal numerals, joined
//! lists, and the conversions of std that its texts rest on.

use vstd::prelude::*;
use vstd::string::*;

verus! {

/// `String::push`: the character is appended to the end of the text.
pub assume_specification[ String::push ](s: &mut String, c: char)
    ensures
        final(s)@ == old(s)@.push(c),
;

/// The text that `String::from_utf8_lossy` makes of a byte sequence.
pub uninterp spec fn utf8_lossy(bytes: Seq<u8>) -> Seq<char>;

/// What `str::trim` leaves of a text: the text without its leading and
/// trailing white space.
pub uninterp spec fn trimmed(text: Seq<char>) -> Seq<char>;

/// What `str::to_lowercase` makes of a text: every character in lower
/// case.
pub uninterp spec fn lowercase(text: Seq<char>) -> Seq<char>;

/// `String::from_utf8_lossy`: decodes `bytes` as UTF-8, with the replacement
/// character for what is not valid. The result is a function of the bytes
/// alone; the contract names it and says no more.
#[verifier::external_body]
pub(crate) fn decode_utf8_lossy(bytes: &[u8]) -> (s: String)
    ensures
        s@ == utf8_lossy(bytes@),
{
    String::from_utf8_lossy(bytes).into_owned()
}

/// `str::trim`: the text without leading and trailing white space, as
/// Unicode defines it. The contract names the result and says no more.
#[verifier::external_body]
pub(crate) fn trim_text(s: &str) -> (t: String)
    ensures
        t@ == trimmed(s@),
{
    s.trim().to_owned()
}

/// `str::to_lowercase`: the lower-case form of the text, as Unicode defines
/// it. The contract names the result and says no more.
#[verifier::external_body]
pub(crate) fn lowercase_text(s: &str) -> (t: String)
    ensures
        t@ == lowercase(s@),
{
    s.to_lowercase()
}

/// The digit for a value below sixteen, in upper case.
pub open spec fn hex_digit(n: int) -> char {
    if n == 0 { '0' }
    else if n == 1 { '1' }
    else if n == 2 { '2' }
    else if n == 3 { '3' }
    else if n == 4 { '4' }
    else if n == 5 { '5' }
    else if n == 6 { '6' }
    else if n == 7 { '7' }
    else if n == 8 { '8' }
    else if n == 9 { '9' }
    else if n == 10 { 'A' }
    else if n == 11 { 'B' }
    else if n == 12 { 'C' }
    else if n == 13 { 'D' }
    else if n == 14 { 'E' }
    else { 'F' }
}

/// A byte as two hexadecimal digits.
pub open spec fn hex_u8(b: u8) -> Seq<char> {
    seq![hex_digit(b as int / 16), hex_digit(b as int % 16)]
}

/// A 16-bit value as four hexadecimal digits.
pub open spec fn hex_u16(v: u16) -> Seq<char> {
    hex_u8((v as int / 256) as u8) + hex_u8((v as int % 256) as u8)
}

/// Bytes as two-digit hexadecimal numerals with one space between them.
pub open spec fn hex_bytes(bytes: Seq<u8>) -> Seq<char>
    decreases bytes.len(),
{
    if bytes.len() == 0 {
        Seq::<char>::empty()
    } else if bytes.len() == 1 {
        hex_u8(bytes[0])
    } else {
        hex_bytes(bytes.drop_last()).push(' ') + hex_u8(bytes.last())
    }
}

/// The decimal numeral of a natural number, without leading zeros.
pub open spec fn decimal(n: nat) -> Seq<char>
    decreases n,
{
    if n < 10 {
        seq![hex_digit(n as int)]
    } else {
        decimal(n / 10).push(hex_digit((n % 10) as int))
    }
}

/// The decimal numeral of an integer, with a minus sign where it is negative.
pub open spec fn signed_decimal(n: int) -> Seq<char> {
    if n < 0 {
        seq!['-'] + decimal((-n) as nat)
    } else {
        decimal(n as nat)
    }
}

/// Texts with `separator` between each two of them.
pub open spec fn joined(parts: Seq<Seq<char>>, separator: Seq<char>) -> Seq<char>
    decreases parts.len(),
{
    if parts.len() == 0 {
        Seq::<char>::empty()
    } else if parts.len() == 1 {
        parts[0]
    } else {
        joined(parts.drop_last(), separator) + separator + parts.last()
    }
}

/// The views of a list of strings.
pub open spec fn views(parts: Seq<String>) -> Seq<Seq<char>> {
    parts.map_values(|s: String| s@)
}

/// `name`, then the byte in parentheses as `0x` and two hexadecimal digits.
pub open spec fn named_byte(name: Seq<char>, byte: u8) -> Seq<char> {
    name + " (0x"@ + hex_u8(byte) + ")"@
}

/// Appends `name`, then the byte in parentheses.
pub fn push_named_byte(text: &mut String, name: &str, byte: u8)
    ensures
        final(text)@ == old(text)@ + named_byte(name@, byte),
{
    text.append(name);
    text.append(" (0x");
    push_hex_u8(text, byte);
    text.append(")");
    assert(text@ =~= old(text)@ + named_byte(name@, byte));
}

/// `name`, then the byte in parentheses.
pub fn named_text(name: &str, byte: u8) -> (text: String)
    ensures
        text@ == named_byte(name@, byte),
{
    let mut text = String::new();
    push_named_byte(&mut text, name, byte);
    assert(text@ =~= named_byte(name@, byte));
    text
}

/// Whether two texts are the same.
pub fn same_text(a: &str, b: &str) -> (same: bool)
    ensures
        same == (a@ == b@),
{
    String::from_str(a) == String::from_str(b)
}

fn digit_char(n: u8) -> (c: char)
    requires
        n < 16,
    ensures
        c == hex_digit(n as int),
{
    if n == 0 { '0' }
    else if n == 1 { '1' }
    else if n == 2 { '2' }
    else if n == 3 { '3' }
    else if n == 4 { '4' }
    else if n == 5 { '5' }
    else if n == 6 { '6' }
    else if n == 7 { '7' }
    else if n == 8 { '8' }
    else if n == 9 { '9' }
    else if n == 10 { 'A' }
    else if n == 11 { 'B' }
    else if n == 12 { 'C' }
    else if n == 13 { 'D' }
    else if n == 14 { 'E' }
    else { 'F' }
}

/// Appends a byte as two hexadecimal digits.
pub fn push_hex_u8(s: &mut String, b: u8)
    ensures
        final(s)@ == old(s)@ + hex_u8(b),
{
    s.push(digit_char(b / 16));
    s.push(digit_char(b % 16));
    assert(s@ =~= old(s)@ + hex_u8(b));
}

/// Appends a 16-bit value as four hexadecimal digits.
pub fn push_hex_u16(s: &mut String, v: u16)
    ensures
        final(s)@ == old(s)@ + hex_u16(v),
{
    push_hex_u8(s, (v / 256) as u8);
    push_hex_u8(s, (v % 256) as u8);
    assert(s@ =~= old(s)@ + hex_u16(v));
}

/// Appends bytes as hexadecimal numerals with one space between them.
pub fn push_hex_bytes(s: &mut String, bytes: &[u8])
    ensures
        final(s)@ == old(s)@ + hex_bytes(bytes@),
{
    let n = bytes.len();
    let mut i: usize = 0;
    assert(s@ =~= old(s)@ + hex_bytes(bytes@.subrange(0, 0)));
    while i < n
        invariant
            n == bytes@.len(),
            i <= n,
            s@ == old(s)@ + hex_bytes(bytes@.subrange(0, i as int)),
        decreases n - i,
    {
        let ghost head = bytes@.subrange(0, i as int);
        let ghost next = bytes@.subrange(0, i + 1);
        assert(next.drop_last() =~= head);
        if i > 0 {
            s.push(' ');
        }
        push_hex_u8(s, bytes[i]);
        assert(s@ =~= old(s)@ + hex_bytes(next));
        i += 1;
    }
    assert(bytes@.subrange(0, n as int) =~= bytes@);
}

/// Bytes as hexadecimal numerals with one space between them.
pub fn hex_string(bytes: &[u8]) -> (s: String)
    ensures
        s@ == hex_bytes(bytes@),
{
    let mut s = String::new();
    push_hex_bytes(&mut s, bytes);
    assert(s@ =~= hex_bytes(bytes@));
    s
}

/// Appends the decimal numeral of `n`.
pub fn push_decimal(s: &mut String, n: u64)
    ensures
        final(s)@ == old(s)@ + decimal(n as nat),
    decreases n,
{
    if n < 10 {
        s.push(digit_char(n as u8));
        assert(s@ =~= old(s)@ + decimal(n as nat));
    } else {
        push_decimal(s, n / 10);
        s.push(digit_char((n % 10) as u8));
        assert(s@ =~= old(s)@ + decimal(n as nat));
    }
}

/// Appends the decimal numeral of `n`, with a minus sign where it is negative.
pub fn push_signed_decimal(s: &mut String, n: i64)
    ensures
        final(s)@ == old(s)@ + signed_decimal(n as int),
{
    if n < 0 {
        // The least number has no positive counterpart of its own type.
        let magnitude: u64 = ((-(n + 1)) as u64) + 1;
        s.push('-');
        push_decimal(s, magnitude);
        assert(s@ =~= old(s)@ + signed_decimal(n as int));
    } else {
        push_decimal(s, n as u64);
    }
}

/// Appends `parts` with `separator` between each two of them.
pub fn push_joined(s: &mut String, parts: &Vec<String>, separator: &str)
    ensures
        final(s)@ == old(s)@ + joined(views(parts@), separator@),
{
    let n = parts.len();
    let mut i: usize = 0;
    assert(s@ =~= old(s)@ + joined(views(parts@).subrange(0, 0), separator@));
    while i < n
        invariant
            n == parts@.len(),
            i <= n,
            s@ == old(s)@ + joined(views(parts@).subrange(0, i as int), separator@),
        decreases n - i,
    {
        let ghost head = views(parts@).subrange(0, i as int);
        let ghost next = views(parts@).subrange(0, i + 1);
        assert(next.drop_last() =~= head);
        assert(next.last() == parts@[i as int]@);
        if i > 0 {
            s.append(separator);
        }
        s.append(parts[i].as_str());
        assert(s@ =~= old(s)@ + joined(next, separator@));
        i += 1;
    }
    assert(views(parts@).subrange(0, n as int) =~= views(parts@));
}

} // verus!
