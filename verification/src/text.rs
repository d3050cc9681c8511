//! The parts of std's text handling that the library stands on.
use vstd::prelude::*;
use vstd::utf8::*;

verus! {

/// `==` on string slices, `str`'s own `PartialEq::eq`: true exactly when both slices hold the
/// same characters.
pub assume_specification[ <str as PartialEq>::eq ](a: &str, b: &str) -> (res: bool)
    ensures
        res == (a@ == b@),
;

/// What [`String::from_utf8_lossy`] makes of some bytes.
pub uninterp spec fn lossy_text(bytes: Seq<u8>) -> Seq<char>;

/// [`String::from_utf8_lossy`]. The text is a function of the bytes, [`lossy_text`], and bytes
/// that are valid UTF-8 come out as the text they encode. How invalid bytes are replaced is
/// left to the name.
#[verifier::external_body]
pub(crate) fn from_utf8_lossy(bytes: &[u8]) -> (res: String)
    ensures
        res@ == lossy_text(bytes@),
        valid_utf8(bytes@) ==> res@ == decode_utf8(bytes@),
{
    String::from_utf8_lossy(bytes).into_owned()
}

/// The characters with Unicode's `White_Space` property.
pub open spec fn is_white_space(c: char) -> bool {
    let code = c as u32;
    ||| 0x9 <= code <= 0xd
    ||| code == 0x20
    ||| code == 0x85
    ||| code == 0xa0
    ||| code == 0x1680
    ||| 0x2000 <= code <= 0x200a
    ||| code == 0x2028
    ||| code == 0x2029
    ||| code == 0x202f
    ||| code == 0x205f
    ||| code == 0x3000
}

/// `inner` is `text` without its leading and trailing white space.
pub open spec fn is_trimmed(text: Seq<char>, inner: Seq<char>) -> bool {
    &&& inner.len() > 0 ==> !is_white_space(inner.first()) && !is_white_space(inner.last())
    &&& exists|from: int, to: int|
        {
            &&& 0 <= from <= to <= text.len()
            &&& inner == #[trigger] text.subrange(from, to)
            &&& forall|i: int| 0 <= i < from ==> is_white_space(#[trigger] text[i])
            &&& forall|i: int| to <= i < text.len() ==> is_white_space(#[trigger] text[i])
        }
}

/// [`str::trim`]: the slice without its leading and trailing white space, where white space is
/// Unicode's `White_Space` property.
#[verifier::external_body]
pub(crate) fn trim(text: &str) -> (res: &str)
    ensures
        is_trimmed(text@, res@),
{
    text.trim()
}

/// What `{:?}` prints of a list of strings.
pub uninterp spec fn debug_text(words: Seq<Seq<char>>) -> Seq<char>;

/// [`format!`] with `{:?}` on a list of strings: brackets round the quoted and escaped words,
/// as `Debug` of slices and of `str` writes them. The text is a function of the words,
/// [`debug_text`].
#[verifier::external_body]
pub(crate) fn format_debug(words: &Vec<String>) -> (res: String)
    ensures
        res@ == debug_text(words.deep_view()),
{
    format!("{words:?}")
}

} // verus!
