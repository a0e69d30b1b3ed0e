//! Hexadecimal text: what it says of bytes, and the calls into the `hex`
//! crate that produce and read it.

use vstd::prelude::*;
use vstd::string::StringSliceAdditionalSpecFns;
use vstd::utf8::is_ascii_chars;
use vstd::utf8::is_ascii_chars_encode_utf8;

verus! {

/// The lowercase hexadecimal digit for a value from 0 to 15.
pub open spec fn hex_digit(nibble: int) -> char {
    seq![
        '0', '1', '2', '3', '4', '5', '6', '7',
        '8', '9', 'a', 'b', 'c', 'd', 'e', 'f',
    ][nibble]
}

/// Lowercase hexadecimal text of `bytes`: two digits for each byte, the high
/// half first.
pub open spec fn hex_text(bytes: Seq<u8>) -> Seq<char> {
    Seq::new(
        2 * bytes.len(),
        |i: int| hex_digit(if i % 2 == 0 { bytes[i / 2] as int / 16 } else { bytes[i / 2] as int % 16 }),
    )
}

/// The value of one byte of hexadecimal text, in either case; `None` for a
/// byte that is no hexadecimal digit.
pub open spec fn hex_value(digit: u8) -> Option<int> {
    if 0x30 <= digit <= 0x39 {
        Some(digit - 0x30)
    } else if 0x61 <= digit <= 0x66 {
        Some(digit - 0x61 + 10)
    } else if 0x41 <= digit <= 0x46 {
        Some(digit - 0x41 + 10)
    } else {
        None
    }
}

/// Whether `text` is hexadecimal text of whole bytes: an even number of
/// hexadecimal digits.
pub open spec fn is_hex(text: Seq<u8>) -> bool {
    &&& text.len() % 2 == 0
    &&& forall|i: int| 0 <= i < text.len() ==> (#[trigger] hex_value(text[i])) is Some
}

/// The bytes that hexadecimal text stands for.
pub open spec fn hex_bytes(text: Seq<u8>) -> Seq<u8> {
    Seq::new(
        text.len() / 2,
        |i: int| (hex_value(text[2 * i]).unwrap() * 16 + hex_value(text[2 * i + 1]).unwrap()) as u8,
    )
}

#[verifier::external_type_specification]
#[verifier::external_body]
pub struct ExFromHexError(hex::FromHexError);

/// `hex::encode`: the text holds two lowercase hexadecimal digits for each
/// byte, in the order of the bytes.
#[verifier::external_body]
pub(crate) fn hex_encode(bytes: &[u8]) -> (text: String)
    ensures
        text@ == hex_text(bytes@),
{
    hex::encode(bytes)
}

/// `hex::decode`: it accepts an even number of hexadecimal digits of either
/// case and gives the bytes they stand for; anything else is an error.
#[verifier::external_body]
pub(crate) fn hex_decode(text: &str) -> (r: Result<Vec<u8>, hex::FromHexError>)
    ensures
        r is Ok <==> is_hex(text.spec_bytes()),
        r matches Ok(bytes) ==> bytes@ == hex_bytes(text.spec_bytes()),
{
    hex::decode(text)
}

/// Hexadecimal text is plain ASCII.
pub proof fn lemma_hex_text_is_ascii(bytes: Seq<u8>)
    ensures
        is_ascii_chars(hex_text(bytes)),
        hex_text(bytes).len() == 2 * bytes.len(),
{
}

/// Reading back the text written for `bytes` gives `bytes` again: the text
/// is accepted and stands for the same bytes.
pub proof fn lemma_hex_round_trip(bytes: Seq<u8>)
    ensures
        is_hex(vstd::utf8::encode_utf8(hex_text(bytes))),
        hex_bytes(vstd::utf8::encode_utf8(hex_text(bytes))) == bytes,
{
    let text = hex_text(bytes);
    let raw = vstd::utf8::encode_utf8(text);
    lemma_hex_text_is_ascii(bytes);
    is_ascii_chars_encode_utf8(text);
    assert forall|i: int| 0 <= i < raw.len() implies (#[trigger] hex_value(raw[i])) is Some by {
        assert(raw[i] == text[i] as u8);
    }
    assert forall|i: int| 0 <= i < bytes.len() implies hex_bytes(raw)[i] == bytes[i] by {
        assert(raw[2 * i] == text[2 * i] as u8);
        assert(raw[2 * i + 1] == text[2 * i + 1] as u8);
    }
    assert(hex_bytes(raw) =~= bytes);
}

} // verus!
