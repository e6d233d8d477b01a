//! Text building blocks: decimal and hexadecimal digits, hyphenated UUIDs
//! and JSON string literals, each with the exact character sequence it
//! produces.

use vstd::prelude::*;
use vstd::string::StrSliceExecFns;

verus! {

/// The lower-case digit character for a value below sixteen.
pub open spec fn hex_char(d: nat) -> char {
    if d == 0 { '0' }
    else if d == 1 { '1' }
    else if d == 2 { '2' }
    else if d == 3 { '3' }
    else if d == 4 { '4' }
    else if d == 5 { '5' }
    else if d == 6 { '6' }
    else if d == 7 { '7' }
    else if d == 8 { '8' }
    else if d == 9 { '9' }
    else if d == 10 { 'a' }
    else if d == 11 { 'b' }
    else if d == 12 { 'c' }
    else if d == 13 { 'd' }
    else if d == 14 { 'e' }
    else { 'f' }
}

/// The shortest decimal spelling of `n`.
pub open spec fn decimal(n: nat) -> Seq<char>
    decreases n,
{
    if n < 10 {
        seq![hex_char(n)]
    } else {
        decimal(n / 10).push(hex_char(n % 10))
    }
}

/// The last `count` hexadecimal digits of `x`, most significant first.
pub open spec fn hex_digits(x: nat, count: nat) -> Seq<char>
    decreases count,
{
    if count == 0 {
        Seq::empty()
    } else {
        hex_digits(x / 16, (count - 1) as nat).push(hex_char(x % 16))
    }
}

/// The hyphenated lower-case form of a 128-bit identifier, most significant
/// digit first, in groups of 8, 4, 4, 4 and 12 digits.
pub open spec fn uuid_text(id: u128) -> Seq<char> {
    let v = id as nat;
    hex_digits(v / 0x1_0000_0000_0000_0000_0000_0000, 8) + "-"@
        + hex_digits((v / 0x1_0000_0000_0000_0000_0000) % 0x1_0000, 4) + "-"@
        + hex_digits((v / 0x1_0000_0000_0000_0000) % 0x1_0000, 4) + "-"@
        + hex_digits((v / 0x1_0000_0000_0000) % 0x1_0000, 4) + "-"@
        + hex_digits(v % 0x1_0000_0000_0000, 12)
}

/// How one character is written inside a JSON string literal: quote and
/// backslash are escaped, the control characters get their short escape where
/// JSON has one and a `\u00XX` escape otherwise, every other character stands
/// as it is.
pub open spec fn json_escape_char(c: char) -> Seq<char> {
    if c == '"' {
        "\\\""@
    } else if c == '\\' {
        "\\\\"@
    } else if c == '\n' {
        "\\n"@
    } else if c == '\r' {
        "\\r"@
    } else if c == '\t' {
        "\\t"@
    } else if c == '\x08' {
        "\\b"@
    } else if c == '\x0c' {
        "\\f"@
    } else if (c as nat) < 0x20 {
        "\\u00"@ + hex_digits(c as nat, 2)
    } else {
        seq![c]
    }
}

/// The escaped body of a JSON string literal.
pub open spec fn json_escaped(s: Seq<char>) -> Seq<char>
    decreases s.len(),
{
    if s.len() == 0 {
        Seq::empty()
    } else {
        json_escaped(s.drop_last()) + json_escape_char(s.last())
    }
}

/// A JSON string literal holding `s`.
pub open spec fn json_string(s: Seq<char>) -> Seq<char> {
    "\""@ + json_escaped(s) + "\""@
}

/// Appends one character to a string.
/// Trusted: `String::push`, which std documents as appending the character
/// to the end of the string.
#[verifier::external_body]
pub(crate) fn push_char(s: &mut String, c: char)
    ensures
        final(s)@ == old(s)@.push(c),
{
    s.push(c);
}

/// The digit character for a value below sixteen.
pub fn hex_digit(d: u8) -> (c: char)
    requires
        d < 16,
    ensures
        c == hex_char(d as nat),
{
    if d == 0 { '0' }
    else if d == 1 { '1' }
    else if d == 2 { '2' }
    else if d == 3 { '3' }
    else if d == 4 { '4' }
    else if d == 5 { '5' }
    else if d == 6 { '6' }
    else if d == 7 { '7' }
    else if d == 8 { '8' }
    else if d == 9 { '9' }
    else if d == 10 { 'a' }
    else if d == 11 { 'b' }
    else if d == 12 { 'c' }
    else if d == 13 { 'd' }
    else if d == 14 { 'e' }
    else { 'f' }
}

/// Appends the decimal spelling of `n`.
pub fn push_decimal(out: &mut String, n: u64)
    ensures
        final(out)@ == old(out)@ + decimal(n as nat),
    decreases n,
{
    let ghost start = out@;
    if n >= 10 {
        push_decimal(out, n / 10);
    }
    push_char(out, hex_digit((n % 10) as u8));
    if n >= 10 {
        assert(out@ =~= start + decimal(n as nat));
    } else {
        assert(out@ =~= start + decimal(n as nat));
    }
}

/// Appends the last `count` hexadecimal digits of `x`.
pub fn push_hex(out: &mut String, x: u128, count: u32)
    ensures
        final(out)@ == old(out)@ + hex_digits(x as nat, count as nat),
    decreases count,
{
    let ghost start = out@;
    if count > 0 {
        push_hex(out, x / 16, count - 1);
        push_char(out, hex_digit((x % 16) as u8));
        assert(out@ =~= start + hex_digits(x as nat, count as nat));
    } else {
        assert(out@ =~= start + hex_digits(x as nat, count as nat));
    }
}

/// Appends the hyphenated form of a 128-bit identifier.
pub fn push_uuid(out: &mut String, id: u128)
    ensures
        final(out)@ == old(out)@ + uuid_text(id),
{
    let ghost start = out@;
    push_hex(out, id / 0x1_0000_0000_0000_0000_0000_0000, 8);
    out.append("-");
    push_hex(out, (id / 0x1_0000_0000_0000_0000_0000) % 0x1_0000, 4);
    out.append("-");
    push_hex(out, (id / 0x1_0000_0000_0000_0000) % 0x1_0000, 4);
    out.append("-");
    push_hex(out, (id / 0x1_0000_0000_0000) % 0x1_0000, 4);
    out.append("-");
    push_hex(out, id % 0x1_0000_0000_0000, 12);
    assert(out@ =~= start + uuid_text(id));
}

/// Appends one character as it is written inside a JSON string literal.
pub fn push_json_char(out: &mut String, c: char)
    ensures
        final(out)@ == old(out)@ + json_escape_char(c),
{
    let ghost start = out@;
    if c == '"' {
        out.append("\\\"");
    } else if c == '\\' {
        out.append("\\\\");
    } else if c == '\n' {
        out.append("\\n");
    } else if c == '\r' {
        out.append("\\r");
    } else if c == '\t' {
        out.append("\\t");
    } else if c == '\x08' {
        out.append("\\b");
    } else if c == '\x0c' {
        out.append("\\f");
    } else if (c as u32) < 0x20 {
        out.append("\\u00");
        push_hex(out, (c as u32) as u128, 2);
    } else {
        push_char(out, c);
        assert(out@ =~= start + json_escape_char(c));
    }
}

/// Appends `s` as a JSON string literal.
pub fn push_json_string(out: &mut String, s: &str)
    ensures
        final(out)@ == old(out)@ + json_string(s@),
{
    let ghost start = out@;
    out.append("\"");
    let n = s.unicode_len();
    let mut i: usize = 0;
    while i < n
        invariant
            n == s@.len(),
            i <= n,
            out@ == start + "\""@ + json_escaped(s@.subrange(0, i as int)),
        decreases n - i,
    {
        let c = s.get_char(i);
        push_json_char(out, c);
        assert(s@.subrange(0, i + 1).drop_last() =~= s@.subrange(0, i as int));
        i = i + 1;
    }
    assert(s@.subrange(0, n as int) =~= s@);
    out.append("\"");
    assert(out@ =~= start + json_string(s@));
}

} // verus!
