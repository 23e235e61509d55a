//! Hexadecimal text, as the `hex` crate writes and reads it.

use vstd::prelude::*;
use vstd::string::StringExecFns;

verus! {

/// The lower-case digit for a value below sixteen.
pub open spec fn hex_digit(n: int) -> char {
    if n < 10 {
        ('0' as int + n) as char
    } else {
        ('a' as int + n - 10) as char
    }
}

/// The value of a hexadecimal digit of either case, if `c` is one.
pub open spec fn hex_value(c: char) -> Option<int> {
    if '0' <= c && c <= '9' {
        Some(c as int - '0' as int)
    } else if 'a' <= c && c <= 'f' {
        Some(c as int - 'a' as int + 10)
    } else if 'A' <= c && c <= 'F' {
        Some(c as int - 'A' as int + 10)
    } else {
        None
    }
}

/// Two lower-case digits per byte, high nibble first.
pub open spec fn hex_encode(bytes: Seq<u8>) -> Seq<char> {
    Seq::new(
        2 * bytes.len(),
        |i: int| if i % 2 == 0 {
            hex_digit(bytes[i / 2] as int / 16)
        } else {
            hex_digit(bytes[i / 2] as int % 16)
        },
    )
}

/// Whether `text` is an even number of hexadecimal digits.
pub open spec fn is_hex(text: Seq<char>) -> bool {
    &&& text.len() % 2 == 0
    &&& forall|i: int| 0 <= i < text.len() ==> (#[trigger] hex_value(text[i])) is Some
}

/// The bytes that `text` spells, where it is hexadecimal.
pub open spec fn hex_decode(text: Seq<char>) -> Option<Seq<u8>> {
    if is_hex(text) {
        Some(
            Seq::new(
                text.len() / 2,
                |i: int| (hex_value(text[2 * i])->0 * 16 + hex_value(text[2 * i + 1])->0) as u8,
            ),
        )
    } else {
        None
    }
}

/// Every character that encoding writes is a hexadecimal digit.
pub proof fn lemma_encode_is_hex(bytes: Seq<u8>)
    ensures
        hex_encode(bytes).len() == 2 * bytes.len(),
        forall|i: int|
            0 <= i < hex_encode(bytes).len() ==> (#[trigger] hex_value(hex_encode(bytes)[i])) is Some,
        forall|c: char| hex_value(c) is None ==> !hex_encode(bytes).contains(c),
{
    let text = hex_encode(bytes);
    assert forall|i: int| 0 <= i < text.len() implies (#[trigger] hex_value(text[i])) is Some by {
        lemma_digit_value(bytes[i / 2] as int / 16);
        lemma_digit_value(bytes[i / 2] as int % 16);
    }
}

/// Decoding reads back what encoding wrote.
pub proof fn lemma_hex_roundtrip(bytes: Seq<u8>)
    ensures
        hex_decode(hex_encode(bytes)) == Some(bytes),
{
    let text = hex_encode(bytes);
    lemma_encode_is_hex(bytes);
    assert(is_hex(text));
    let back = hex_decode(text)->0;
    assert forall|i: int| 0 <= i < bytes.len() implies back[i] == bytes[i] by {
        lemma_digit_value(bytes[i] as int / 16);
        lemma_digit_value(bytes[i] as int % 16);
        assert(text[2 * i] == hex_digit(bytes[(2 * i) / 2] as int / 16));
        assert(text[2 * i + 1] == hex_digit(bytes[(2 * i + 1) / 2] as int % 16));
    }
    assert(back =~= bytes);
}

/// A digit written by `hex_digit` is read back by `hex_value`.
pub proof fn lemma_digit_value(n: int)
    requires
        0 <= n < 16,
    ensures
        hex_value(hex_digit(n)) == Some(n),
{
}

/// `hex::encode` on a byte slice: the text is `hex_encode` of the bytes,
/// which is what the crate's lower-case digit table produces.
#[verifier::external_body]
pub(crate) fn encode(bytes: &[u8]) -> (text: String)
    ensures
        text@ == hex_encode(bytes@),
{
    hex::encode(bytes)
}

/// `hex::decode` on a string: it succeeds exactly on an even number of
/// hexadecimal digits of either case and then yields the bytes they spell;
/// an odd length or any other character is an error.
#[verifier::external_body]
pub(crate) fn decode(text: &str) -> (bytes: Option<Vec<u8>>)
    ensures
        match bytes {
            Some(b) => hex_decode(text@) == Some(b@),
            None => hex_decode(text@) is None,
        },
{
    hex::decode(text).ok()
}

/// A text that was to be read as hexadecimal and is not.
#[derive(Clone, Debug, PartialEq, Eq)]
pub struct NotHex {
    /// What the text was meant to be.
    pub what: String,
}

impl NotHex {
    /// The text of the error.
    pub fn message(&self) -> (text: String)
        ensures
            text@ == "decode "@ + self.what@ + " failed"@,
    {
        let mut text = String::from_str("decode ");
        text.append(self.what.as_str());
        text.append(" failed");
        text
    }
}

/// The bytes that `text` spells in hexadecimal; `what` names the text in the
/// error.
pub fn decode_named(text: &str, what: &str) -> (bytes: Result<Vec<u8>, NotHex>)
    ensures
        match bytes {
            Ok(b) => hex_decode(text@) == Some(b@),
            Err(e) => hex_decode(text@) is None && e.what@ == what@,
        },
{
    match decode(text) {
        Some(bytes) => Ok(bytes),
        None => Err(NotHex { what: what.to_owned() }),
    }
}

} // verus!
