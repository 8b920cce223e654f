//! Properties of characters and the decoding of bytes, as the standard library
//! knows them.
use vstd::prelude::*;
use vstd::utf8::{decode_utf8, valid_utf8};

verus! {

/// What `char::is_alphanumeric` answers: whether the character has the Unicode
/// property Alphabetic or is in one of the categories of numbers.
pub uninterp spec fn unicode_alphanumeric(c: char) -> bool;

/// The text that `String::from_utf8_lossy` makes of bytes.
pub uninterp spec fn utf8_lossy(bytes: Seq<u8>) -> Seq<char>;

/// The character is a letter or a number. Of the ASCII characters, these are the
/// letters and the digits.
pub open spec fn alphanumeric(c: char) -> bool {
    if (c as u32) < 128 {
        '0' <= c <= '9' || 'a' <= c <= 'z' || 'A' <= c <= 'Z'
    } else {
        unicode_alphanumeric(c)
    }
}

/// The character has the Unicode property White_Space.
pub open spec fn whitespace(c: char) -> bool {
    let v = c as u32;
    ||| 0x9 <= v <= 0xd
    ||| v == 0x20
    ||| v == 0x85
    ||| v == 0xa0
    ||| v == 0x1680
    ||| 0x2000 <= v <= 0x200a
    ||| v == 0x2028
    ||| v == 0x2029
    ||| v == 0x202f
    ||| v == 0x205f
    ||| v == 0x3000
}

/// Every character of `s` is alphanumeric.
pub open spec fn all_alphanumeric(s: Seq<char>) -> bool {
    forall|i: int| 0 <= i < s.len() ==> alphanumeric(#[trigger] s[i])
}

/// Every character of `s` is white space.
pub open spec fn all_whitespace(s: Seq<char>) -> bool {
    forall|i: int| 0 <= i < s.len() ==> whitespace(#[trigger] s[i])
}

/// `char::is_alphanumeric`. Among the ASCII characters, exactly the letters and
/// the digits are alphanumeric.
#[verifier::external_body]
fn is_alphanumeric(c: char) -> (res: bool)
    ensures
        res == unicode_alphanumeric(c),
        (c as u32) < 128 ==> res == ('0' <= c <= '9' || 'a' <= c <= 'z' || 'A' <= c <= 'Z'),
{
    c.is_alphanumeric()
}

/// `char::is_whitespace`, which tells whether a character has the Unicode property
/// White_Space.
#[verifier::external_body]
fn is_whitespace(c: char) -> (res: bool)
    ensures
        res == whitespace(c),
{
    c.is_whitespace()
}

/// `String::from_utf8_lossy`, which hands valid UTF-8 on as it is and puts a
/// replacement character where it is not valid.
#[verifier::external_body]
pub(crate) fn from_utf8_lossy(bytes: &[u8]) -> (res: String)
    ensures
        res@ == utf8_lossy(bytes@),
        valid_utf8(bytes@) ==> res@ == decode_utf8(bytes@),
{
    String::from_utf8_lossy(bytes).into_owned()
}

/// Whether every character of `s` is alphanumeric.
pub fn is_all_alphanumeric(s: &str) -> (res: bool)
    ensures
        res == all_alphanumeric(s@),
{
    for c in iter: s.chars()
        invariant
            iter.seq() == s@,
            forall|i: int| 0 <= i < iter.index() ==> alphanumeric(#[trigger] s@[i]),
    {
        if !is_alphanumeric(c) {
            assert(s@[iter.index() as int] == c);
            return false;
        }
    }
    true
}

/// Whether nothing is left of `s` once white space is trimmed from both ends.
pub fn is_blank(s: &str) -> (res: bool)
    ensures
        res == all_whitespace(s@),
{
    for c in iter: s.chars()
        invariant
            iter.seq() == s@,
            forall|i: int| 0 <= i < iter.index() ==> whitespace(#[trigger] s@[i]),
    {
        if !is_whitespace(c) {
            assert(s@[iter.index() as int] == c);
            return false;
        }
    }
    true
}

/// A text is alphanumeric exactly if both of its parts are, wherever it is cut.
pub proof fn law_alphanumeric_by_parts(a: Seq<char>, b: Seq<char>)
    ensures
        all_alphanumeric(a + b) <==> all_alphanumeric(a) && all_alphanumeric(b),
{
    if all_alphanumeric(a + b) {
        assert forall|i: int| 0 <= i < a.len() implies alphanumeric(#[trigger] a[i]) by {
            assert((a + b)[i] == a[i]);
        }
        assert forall|i: int| 0 <= i < b.len() implies alphanumeric(#[trigger] b[i]) by {
            assert((a + b)[a.len() + i] == b[i]);
        }
    }
}

/// The empty text is alphanumeric. One character is if it is an ASCII letter or
/// digit, or no ASCII character and alphanumeric in Unicode.
pub proof fn law_alphanumeric_character(c: char)
    ensures
        all_alphanumeric(Seq::<char>::empty()),
        all_alphanumeric(seq![c]) <==> {
            ||| '0' <= c <= '9'
            ||| 'a' <= c <= 'z'
            ||| 'A' <= c <= 'Z'
            ||| (c as u32) >= 128 && unicode_alphanumeric(c)
        },
{
    assert(seq![c][0] == c);
}

/// A text is blank exactly if both of its parts are, wherever it is cut.
pub proof fn law_blank_by_parts(a: Seq<char>, b: Seq<char>)
    ensures
        all_whitespace(a + b) <==> all_whitespace(a) && all_whitespace(b),
{
    if all_whitespace(a + b) {
        assert forall|i: int| 0 <= i < a.len() implies whitespace(#[trigger] a[i]) by {
            assert((a + b)[i] == a[i]);
        }
        assert forall|i: int| 0 <= i < b.len() implies whitespace(#[trigger] b[i]) by {
            assert((a + b)[a.len() + i] == b[i]);
        }
    }
}

/// The empty text is blank, and one character is if it is white space.
pub proof fn law_blank_character(c: char)
    ensures
        all_whitespace(Seq::<char>::empty()),
        all_whitespace(seq![c]) <==> whitespace(c),
{
    assert(seq![c][0] == c);
}

} // verus!
