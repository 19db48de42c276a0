use jwt_simple::reexports::ct_codecs::{Decoder, Encoder, Hex};
use vstd::prelude::*;

verus! {

/// The value of a hexadecimal digit, in either case; `None` for any other
/// character.
pub open spec fn hex_digit_value(c: char) -> Option<u8> {
    let code = c as u32;
    if 0x30 <= code <= 0x39 {
        Some((code - 0x30) as u8)
    } else if 0x61 <= code <= 0x66 {
        Some((code - 0x61 + 10) as u8)
    } else if 0x41 <= code <= 0x46 {
        Some((code - 0x41 + 10) as u8)
    } else {
        None
    }
}

/// Every character is a hexadecimal digit.
pub open spec fn is_hex(text: Seq<char>) -> bool {
    forall|i: int| 0 <= i < text.len() ==> (#[trigger] hex_digit_value(text[i])) is Some
}

/// The byte that a pair of digit values stands for.
pub open spec fn byte_of(high: Option<u8>, low: Option<u8>) -> u8 {
    match (high, low) {
        (Some(h), Some(l)) => (16 * (h % 16) + (l % 16)) as u8,
        _ => 0,
    }
}

/// The bytes that `text` encodes, provided it consists of an even number of
/// hexadecimal digits and stands for at most `capacity` bytes.
pub open spec fn hex_decoded(text: Seq<char>, capacity: nat) -> Option<Seq<u8>> {
    if is_hex(text) && text.len() % 2 == 0 && text.len() / 2 <= capacity {
        Some(
            Seq::new(
                text.len() / 2,
                |i: int| byte_of(hex_digit_value(text[2 * i]), hex_digit_value(text[2 * i + 1])),
            ),
        )
    } else {
        None
    }
}

/// The lower-case digit that stands for a value below sixteen.
pub open spec fn hex_digit(value: u8) -> char {
    if value % 16 < 10 {
        ((0x30 + value % 16) as u8) as char
    } else {
        ((0x61 + value % 16 - 10) as u8) as char
    }
}

/// The lower-case hexadecimal text of `bytes`, two digits for each byte, the
/// high half first.
pub open spec fn hex_encoded(bytes: Seq<u8>) -> Seq<char> {
    Seq::new(
        2 * bytes.len(),
        |i: int|
            if i % 2 == 0 {
                hex_digit(bytes[i / 2] / 16)
            } else {
                hex_digit(bytes[i / 2] % 16)
            },
    )
}

/// Every digit that [`hex_digit`] writes is read back as the value it was
/// written for.
pub proof fn digit_round_trip(value: u8)
    requires
        value < 16,
    ensures
        hex_digit_value(hex_digit(value)) == Some(value),
{
}

/// Decoding undoes encoding: the text written for `bytes` is read back as
/// `bytes` by any decoder with room for them.
pub proof fn hex_round_trip(bytes: Seq<u8>, capacity: nat)
    requires
        bytes.len() <= capacity,
    ensures
        hex_decoded(hex_encoded(bytes), capacity) == Some(bytes),
{
    let text = hex_encoded(bytes);
    assert forall|i: int| 0 <= i < text.len() implies (#[trigger] hex_digit_value(
        text[i],
    )) is Some by {
        if i % 2 == 0 {
            digit_round_trip(bytes[i / 2] / 16);
        } else {
            digit_round_trip(bytes[i / 2] % 16);
        }
    }
    assert(text.len() / 2 == bytes.len());
    let back = hex_decoded(text, capacity).unwrap();
    assert forall|i: int| 0 <= i < bytes.len() implies back[i] == bytes[i] by {
        digit_round_trip(bytes[i] / 16);
        digit_round_trip(bytes[i] % 16);
        assert((2 * i) / 2 == i && (2 * i) % 2 == 0);
        assert((2 * i + 1) / 2 == i && (2 * i + 1) % 2 == 1);
    }
    assert(back =~= bytes);
}

/// `ct_codecs::Hex::decode` into a buffer of `capacity` bytes, ignoring no
/// character. The contract claims what the decoder's loop does: it fails on
/// the first character that is no hexadecimal digit, on a digit for which
/// the buffer has no room, and on an odd number of digits; otherwise each
/// pair of digits gives one byte, the first digit its high half.
#[verifier::external_body]
pub(crate) fn decode(text: &str, capacity: usize) -> (bytes: Option<Vec<u8>>)
    ensures
        match bytes {
            Some(b) => hex_decoded(text@, capacity as nat) == Some(b@),
            None => hex_decoded(text@, capacity as nat) is None,
        },
{
    let mut buffer = vec![0u8; capacity];
    Hex::decode(&mut buffer, text, None).ok().map(|decoded| decoded.to_vec())
}

/// `ct_codecs::Hex::encode_to_str` into a buffer of `capacity` bytes. The
/// contract claims what the encoder's loop does: it fails when the buffer
/// is shorter than twice the input, and otherwise writes two lower-case
/// digits for each byte, the high half first.
#[verifier::external_body]
pub(crate) fn encode(bytes: &Vec<u8>, capacity: usize) -> (text: Option<String>)
    ensures
        match text {
            Some(t) => 2 * bytes@.len() <= capacity && t@ == hex_encoded(bytes@),
            None => 2 * bytes@.len() > capacity,
        },
{
    let mut buffer = vec![0u8; capacity];
    Hex::encode_to_str(&mut buffer, bytes).ok().map(|encoded| encoded.to_string())
}

} // verus!
