//! Short (8.3) file names.

use embedded_sdmmc::ShortFileName;
use vstd::prelude::*;

verus! {

/// A character that may stand in a short file name beside the dot.
pub open spec fn is_short_name_char(c: char) -> bool {
    &&& '\u{20}' < c <= '\u{ff}'
    &&& c != '"' && c != '*' && c != '+' && c != ',' && c != '.' && c != '/' && c != ':'
    &&& c != ';' && c != '<' && c != '=' && c != '>' && c != '?' && c != '[' && c != '\\'
    &&& c != ']' && c != '|'
}

/// `s` as one to eight characters of a base name up to `base`, dots up to
/// `extension`, and at most three characters of an extension, which needs a dot
/// before it.
pub open spec fn is_short_split(s: Seq<char>, base: int, extension: int) -> bool {
    &&& 1 <= base <= 8
    &&& base <= extension <= s.len() <= extension + 3
    &&& base == extension ==> extension == s.len()
    &&& forall|i: int| 0 <= i < base ==> is_short_name_char(#[trigger] s[i])
    &&& forall|i: int| base <= i < extension ==> #[trigger] s[i] == '.'
    &&& forall|i: int| extension <= i < s.len() ==> is_short_name_char(#[trigger] s[i])
}

/// A text that makes a short file name: a name of the form 8.3, or one of those
/// for the directory itself (`.` or nothing) and its parent (`..`).
pub open spec fn is_short_name(s: Seq<char>) -> bool {
    ||| s.len() == 0
    ||| s == seq!['.']
    ||| s == seq!['.', '.']
    ||| exists|base: int, extension: int| is_short_split(s, base, extension)
}

/// `embedded_sdmmc::ShortFileName::create_from_str`: succeeds exactly on the
/// texts that make a short file name.
#[verifier::external_body]
pub(crate) fn short_name_fits(name: &str) -> (fits: bool)
    ensures
        fits == is_short_name(name@),
{
    ShortFileName::create_from_str(name).is_ok()
}

} // verus!
