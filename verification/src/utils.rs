//! Conversion of C strings handed out by the verbs library.

use vstd::prelude::*;

verus! {

/// What `String::from_utf8_lossy` makes of a byte sequence.
pub uninterp spec fn utf8_lossy(bytes: Seq<u8>) -> Seq<char>;

/// Whether every byte is ASCII.
pub open spec fn all_ascii(bytes: Seq<u8>) -> bool {
    forall|i: int| 0 <= i < bytes.len() ==> bytes[i] < 128
}

/// The characters that ASCII bytes stand for.
pub open spec fn ascii_chars(bytes: Seq<u8>) -> Seq<char> {
    bytes.map_values(|b: u8| b as char)
}

/// `String::from_utf8_lossy(bytes).into_owned()`. Its documentation says
/// that invalid sequences become U+FFFD and that valid UTF-8 is kept as
/// it is; ASCII bytes are valid UTF-8 that decodes to the characters with
/// the same codes. What it makes of other input is named, not stated.
#[verifier::external_body]
fn from_utf8_lossy(bytes: &[u8]) -> (s: String)
    ensures
        s@ == utf8_lossy(bytes@),
        all_ascii(bytes@) ==> s@ == ascii_chars(bytes@),
{
    String::from_utf8_lossy(bytes).into_owned()
}

/// Converts the bytes of a C string (without its terminating NUL) to a
/// `String`; `None` stands for a null pointer and gives the empty string.
pub fn ptr_to_string(bytes: Option<&[u8]>) -> (s: String)
    ensures
        bytes is None ==> s@ == Seq::<char>::empty(),
        bytes matches Some(b) ==> s@ == utf8_lossy(b@),
        bytes matches Some(b) ==> (all_ascii(b@) ==> s@ == ascii_chars(b@)),
{
    match bytes {
        None => String::new(),
        Some(b) => from_utf8_lossy(b),
    }
}

} // verus!
