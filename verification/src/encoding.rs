//! Bytes as text: hexadecimal and Base64.
use base64::Engine;
use vstd::prelude::*;
use vstd::string::StringSliceAdditionalSpecFns;
use vstd::utf8::{encode_utf8, is_ascii_chars_encode_utf8};

verus! {

/// Why a text is not the hexadecimal form of some bytes.
#[derive(Clone, Copy, Debug, PartialEq, Eq, Structural)]
pub enum HexError {
    /// A byte of the text is no hexadecimal digit.
    InvalidHexCharacter { c: char, index: usize },
    /// The text has an odd number of bytes.
    OddLength,
    /// The text does not have the length that was asked for.
    InvalidStringLength,
}

/// The lower case hexadecimal digit for a value below 16.
pub open spec fn hex_digit(v: int) -> char {
    if v < 10 {
        (48 + v) as char
    } else {
        (87 + v) as char
    }
}

/// Two lower case hexadecimal digits for each byte, the high half first.
pub open spec fn hex_text(bytes: Seq<u8>) -> Seq<char> {
    Seq::new(
        2 * bytes.len(),
        |i: int| hex_digit(if i % 2 == 0 { bytes[i / 2] as int / 16 } else { bytes[i / 2] as int % 16 }),
    )
}

/// The value of an ASCII hexadecimal digit of either case.
pub open spec fn hex_value(b: u8) -> Option<int> {
    if 48 <= b <= 57 {
        Some(b - 48)
    } else if 65 <= b <= 70 {
        Some(b - 55)
    } else if 97 <= b <= 102 {
        Some(b - 87)
    } else {
        None
    }
}

/// The number of hexadecimal digits that `text` begins with.
pub open spec fn hex_prefix(text: Seq<u8>) -> nat
    decreases text.len(),
{
    if text.len() == 0 || hex_value(text[0]) is None {
        0
    } else {
        1 + hex_prefix(text.skip(1))
    }
}

/// The bytes that pairs of hexadecimal digits denote.
pub open spec fn hex_bytes(text: Seq<u8>) -> Seq<u8> {
    Seq::new(
        text.len() / 2,
        |i: int| (hex_value(text[2 * i]).unwrap() * 16 + hex_value(text[2 * i + 1]).unwrap()) as u8,
    )
}

/// Why `text` cannot be decoded, if it cannot: an odd length is refused before
/// any character is looked at, then the first byte that is no digit is named.
pub open spec fn hex_error(text: Seq<u8>) -> Option<HexError> {
    let at = hex_prefix(text);
    if text.len() % 2 == 1 {
        Some(HexError::OddLength)
    } else if at < text.len() {
        Some(
            HexError::InvalidHexCharacter { c: text[at as int] as char, index: at as usize },
        )
    } else {
        None
    }
}

/// What decoding `text` as hexadecimal gives.
pub open spec fn hex_decoded(text: Seq<u8>) -> Result<Seq<u8>, HexError> {
    match hex_error(text) {
        Some(e) => Err(e),
        None => Ok(hex_bytes(text)),
    }
}

/// The result of a decoding, with the bytes as a sequence.
pub open spec fn decoding(res: Result<Vec<u8>, HexError>) -> Result<Seq<u8>, HexError> {
    match res {
        Ok(bytes) => Ok(bytes@),
        Err(e) => Err(e),
    }
}

/// The Base64 digit for a value below 64, in the standard alphabet.
pub open spec fn base64_digit(v: int) -> char {
    if v < 26 {
        (65 + v) as char
    } else if v < 52 {
        (71 + v) as char
    } else if v < 62 {
        (v - 4) as char
    } else if v == 62 {
        '+'
    } else {
        '/'
    }
}

/// The byte at `i`, and 0 behind the end.
pub open spec fn byte_or_zero(bytes: Seq<u8>, i: int) -> int {
    if i < bytes.len() {
        bytes[i] as int
    } else {
        0
    }
}

/// The six bits that the character `i` of the Base64 form stands for.
pub open spec fn sextet(bytes: Seq<u8>, i: int) -> int {
    let g = 3 * (i / 4);
    let (x, y, z) = (byte_or_zero(bytes, g), byte_or_zero(bytes, g + 1), byte_or_zero(bytes, g + 2));
    if i % 4 == 0 {
        x / 4
    } else if i % 4 == 1 {
        (x % 4) * 16 + y / 16
    } else if i % 4 == 2 {
        (y % 16) * 4 + z / 64
    } else {
        z % 64
    }
}

/// Padded Base64 in the standard alphabet: four characters for each three bytes
/// begun, `=` where all six bits lie behind the last byte.
pub open spec fn base64_text(bytes: Seq<u8>) -> Seq<char> {
    Seq::new(
        4 * ((bytes.len() + 2) / 3),
        |i: int| if 6 * i < 8 * bytes.len() { base64_digit(sextet(bytes, i)) } else { '=' },
    )
}

/// `hex::encode` writes each byte as two lower case hexadecimal digits.
#[verifier::external_body]
pub(crate) fn hex_encode(data: &[u8]) -> (res: String)
    requires
        2 * data@.len() <= usize::MAX,
    ensures
        res@ == hex_text(data@),
{
    hex::encode(data)
}

/// `hex::decode` reads pairs of hexadecimal digits of either case. It refuses an
/// odd number of bytes first, then names the first byte that is no digit; its
/// third error belongs to decoding into a given slice and never comes here.
#[verifier::external_body]
pub(crate) fn hex_decode(text: &str) -> (res: Result<Vec<u8>, HexError>)
    ensures
        decoding(res) == hex_decoded(text.spec_bytes()),
{
    match hex::decode(text) {
        Ok(bytes) => Ok(bytes),
        Err(hex::FromHexError::InvalidHexCharacter { c, index }) => Err(
            HexError::InvalidHexCharacter { c, index },
        ),
        Err(hex::FromHexError::OddLength) => Err(HexError::OddLength),
        Err(hex::FromHexError::InvalidStringLength) => Err(HexError::InvalidStringLength),
    }
}

/// `base64::engine::general_purpose::STANDARD.encode` writes padded Base64 in
/// the standard alphabet. It panics where the length of the result does not fit
/// in a `usize`.
#[verifier::external_body]
pub(crate) fn base64_encode(data: &[u8]) -> (res: String)
    requires
        4 * ((data@.len() + 2) / 3) <= usize::MAX,
    ensures
        res@ == base64_text(data@),
{
    base64::engine::general_purpose::STANDARD.encode(data)
}

proof fn lemma_hex_digit_value(v: int)
    requires
        0 <= v < 16,
    ensures
        hex_value(hex_digit(v) as u8) == Some(v),
        (hex_digit(v) as u32) < 128,
{
}

proof fn lemma_hex_prefix_whole(text: Seq<u8>)
    requires
        forall|i: int| 0 <= i < text.len() ==> hex_value(#[trigger] text[i]) is Some,
    ensures
        hex_prefix(text) == text.len(),
    decreases text.len(),
{
    if text.len() > 0 {
        lemma_hex_prefix_whole(text.skip(1));
    }
}

/// Decoding the hexadecimal form of some bytes gives these bytes.
pub proof fn law_hex_round_trip(bytes: Seq<u8>)
    ensures
        hex_decoded(encode_utf8(hex_text(bytes))) == Ok::<Seq<u8>, HexError>(bytes),
{
    let text = hex_text(bytes);
    assert forall|i: int| 0 <= i < text.len() implies (#[trigger] text[i] as u32) < 128
        && hex_value(text[i] as u8) == Some(
        if i % 2 == 0 {
            bytes[i / 2] as int / 16
        } else {
            bytes[i / 2] as int % 16
        },
    ) by {
        lemma_hex_digit_value(
            if i % 2 == 0 {
                bytes[i / 2] as int / 16
            } else {
                bytes[i / 2] as int % 16
            },
        );
    }
    is_ascii_chars_encode_utf8(text);
    let coded = encode_utf8(text);
    assert(coded =~= Seq::new(text.len(), |i: int| text[i] as u8));
    lemma_hex_prefix_whole(coded);
    assert forall|i: int| 0 <= i < bytes.len() implies hex_bytes(coded)[i] == bytes[i] by {
        assert(coded[2 * i] == text[2 * i] as u8);
        assert(coded[2 * i + 1] == text[2 * i + 1] as u8);
        assert((2 * i) / 2 == i);
        assert((2 * i + 1) / 2 == i);
    }
    assert(hex_bytes(coded) =~= bytes);
}

proof fn lemma_base64_digit_injective(v: int, w: int)
    requires
        0 <= v < 64,
        0 <= w < 64,
        base64_digit(v) == base64_digit(w),
    ensures
        v == w,
{
}

proof fn lemma_base64_digit_not_pad(v: int)
    requires
        0 <= v < 64,
    ensures
        base64_digit(v) != '=',
{
}

proof fn lemma_sextet_bound(bytes: Seq<u8>, i: int)
    ensures
        0 <= sextet(bytes, i) < 64,
{
}

/// Different bytes have different Base64 forms, so a reader of the form knows
/// the bytes.
pub proof fn law_base64_injective(a: Seq<u8>, b: Seq<u8>)
    requires
        base64_text(a) == base64_text(b),
    ensures
        a == b,
{
    let (s, t) = (base64_text(a), base64_text(b));
    assert(s.len() == t.len());
    assert forall|i: int|
        #![trigger s[i]]
        0 <= i < s.len() implies (6 * i < 8 * a.len()) == (6 * i < 8 * b.len())
        && (6 * i < 8 * a.len() ==> sextet(a, i) == sextet(b, i)) by {
        lemma_sextet_bound(a, i);
        lemma_sextet_bound(b, i);
        lemma_base64_digit_not_pad(sextet(a, i));
        lemma_base64_digit_not_pad(sextet(b, i));
        assert(s[i] == t[i]);
        if 6 * i < 8 * a.len() && 6 * i < 8 * b.len() {
            lemma_base64_digit_injective(sextet(a, i), sextet(b, i));
        }
    }
    assert(a.len() == b.len()) by {
        let n = s.len() as int;
        if n > 0 {
            let (last, before) = (s[n - 1], s[n - 2]);
        }
    }
    assert forall|k: int| 0 <= k < a.len() implies a[k] == b[k] by {
        let i = 4 * (k / 3) + k % 3;
        assert(i / 4 == k / 3);
        assert((i + 1) / 4 == k / 3);
        assert(i % 4 == k % 3);
        assert((i + 1) % 4 == k % 3 + 1);
        let (one, two) = (s[i], s[i + 1]);
        assert(sextet(a, i) == sextet(b, i));
        assert(sextet(a, i + 1) == sextet(b, i + 1));
    }
    assert(a =~= b);
}

} // verus!
