//! How byte fields and flags read when printed for debugging.
use vstd::prelude::*;

verus! {

/// Appends `c` to `s` with `String::push`, which appends the character at the end.
#[verifier::external_body]
fn push_char(s: &mut String, c: char)
    ensures
        final(s)@ == old(s)@.push(c),
{
    s.push(c);
}

/// The upper-case hexadecimal digit of `n`, for `n` below 16.
pub open spec fn hex_digit_upper(n: u8) -> char {
    if n < 10 {
        (n + 48) as char
    } else {
        (n + 55) as char
    }
}

/// Each byte as two upper-case hexadecimal digits followed by a space.
pub open spec fn hex_bytes_text(bytes: Seq<u8>) -> Seq<char>
    decreases bytes.len(),
{
    if bytes.len() == 0 {
        seq![]
    } else {
        let last = bytes.last();
        hex_bytes_text(bytes.drop_last()) + seq![
            hex_digit_upper(last >> 4u8),
            hex_digit_upper(last & 0xF),
            ' ',
        ]
    }
}

/// How a byte field reads: the empty-set sign when every byte is zero, else
/// its bytes in hexadecimal.
pub open spec fn bytes_text(bytes: Seq<u8>) -> Seq<char> {
    if forall|i: int| 0 <= i < bytes.len() ==> bytes[i] == 0 {
        seq!['\u{2205}']
    } else {
        hex_bytes_text(bytes)
    }
}

fn hex_digit(n: u8) -> (c: char)
    requires
        n < 16,
    ensures
        c == hex_digit_upper(n),
{
    if n < 10 {
        (n + 48) as char
    } else {
        (n + 55) as char
    }
}

/// How a byte field reads when printed for debugging.
pub fn format_bytes(bytes: &[u8]) -> (text: String)
    ensures
        text@ == bytes_text(bytes@),
{
    let mut empty = true;
    let mut i: usize = 0;
    while i < bytes.len()
        invariant
            i <= bytes@.len(),
            empty <==> forall|k: int| 0 <= k < i ==> bytes@[k] == 0,
        decreases bytes@.len() - i,
    {
        if bytes[i] != 0 {
            empty = false;
        }
        i = i + 1;
    }
    let mut text = String::new();
    if empty {
        push_char(&mut text, '\u{2205}');
        assert(text@ =~= seq!['\u{2205}']);
        return text;
    }
    let mut i: usize = 0;
    while i < bytes.len()
        invariant
            i <= bytes@.len(),
            text@ == hex_bytes_text(bytes@.subrange(0, i as int)),
        decreases bytes@.len() - i,
    {
        let byte = bytes[i];
        assert(byte >> 4u8 < 16 && byte & 0xF < 16) by (bit_vector);
        push_char(&mut text, hex_digit(byte >> 4));
        push_char(&mut text, hex_digit(byte & 0xF));
        push_char(&mut text, ' ');
        assert(bytes@.subrange(0, i + 1).drop_last() =~= bytes@.subrange(0, i as int));
        i = i + 1;
    }
    assert(bytes@.subrange(0, i as int) =~= bytes@);
    text
}

/// The lower-case hexadecimal digit of `n`, for `n` below 16.
pub open spec fn hex_digit_lower(n: u32) -> char {
    if n < 10 {
        (n + 48) as char
    } else {
        (n + 87) as char
    }
}

/// `value` in lower-case hexadecimal, without leading zeros.
pub open spec fn hex_lower(value: u32) -> Seq<char>
    decreases value,
{
    if value < 16 {
        seq![hex_digit_lower(value)]
    } else {
        hex_lower(value / 16) + seq![hex_digit_lower(value % 16)]
    }
}

/// Appends `value` in lower-case hexadecimal, without leading zeros.
pub fn push_hex_lower(text: &mut String, value: u32)
    ensures
        final(text)@ == old(text)@ + hex_lower(value),
    decreases value,
{
    if value >= 16 {
        push_hex_lower(text, value / 16);
    }
    let n = value % 16;
    let c = if n < 10 {
        ((n + 48) as u8) as char
    } else {
        ((n + 87) as u8) as char
    };
    push_char(text, c);
    assert(text@ =~= old(text)@ + hex_lower(value));
}

} // verus!
