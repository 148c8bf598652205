use vstd::prelude::*;

verus! {

// The encoded container crosses the module boundary as text: standard base64
// (RFC 4648 section 4 alphabet, '=' padding, no line breaks).  `base64_chars`
// pins the exact text for every byte sequence, and the outside encoder is
// held to it.

/// The base64 digit (as its ASCII code) for a 6-bit value.
pub open spec fn base64_digit(v: int) -> u8 {
    if 0 <= v < 26 {
        (0x41 + v) as u8  // 'A'..'Z'
    } else if 26 <= v < 52 {
        (0x61 + (v - 26)) as u8  // 'a'..'z'
    } else if 52 <= v < 62 {
        (0x30 + (v - 52)) as u8  // '0'..'9'
    } else if v == 62 {
        0x2b  // '+'
    } else {
        0x2f  // '/'
    }
}

/// The ASCII codes of the standard base64 encoding of `b`: each group of
/// three bytes becomes four digits of six bits each, and a final group of one
/// or two bytes is padded with '='.
pub open spec fn base64_ascii(b: Seq<u8>) -> Seq<u8>
    decreases b.len(),
{
    if b.len() == 0 {
        Seq::empty()
    } else if b.len() == 1 {
        let b0 = b[0] as int;
        seq![base64_digit(b0 / 4), base64_digit((b0 % 4) * 16), 0x3d, 0x3d]
    } else if b.len() == 2 {
        let b0 = b[0] as int;
        let b1 = b[1] as int;
        seq![
            base64_digit(b0 / 4),
            base64_digit((b0 % 4) * 16 + b1 / 16),
            base64_digit((b1 % 16) * 4),
            0x3d,
        ]
    } else {
        let b0 = b[0] as int;
        let b1 = b[1] as int;
        let b2 = b[2] as int;
        seq![
            base64_digit(b0 / 4),
            base64_digit((b0 % 4) * 16 + b1 / 16),
            base64_digit((b1 % 16) * 4 + b2 / 64),
            base64_digit(b2 % 64),
        ] + base64_ascii(b.skip(3))
    }
}

/// The standard base64 encoding of `b`, as the characters of the text.
pub open spec fn base64_chars(b: Seq<u8>) -> Seq<char> {
    base64_ascii(b).map_values(|a: u8| a as char)
}

/// Relies on base64's STANDARD engine: the RFC 4648 section 4 alphabet with
/// '=' padding and no line wrapping, one digit per six bits of input.
#[verifier::external_body]
pub(crate) fn encode_base64(bytes: &Vec<u8>) -> (r: String)
    requires
        4 * bytes@.len() <= usize::MAX,
    ensures
        r@ == base64_chars(bytes@),
{
    base64::Engine::encode(&base64::engine::general_purpose::STANDARD, bytes)
}

} // verus!
