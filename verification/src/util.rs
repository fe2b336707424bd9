//! Small conversions between switch states and their spoken forms.
use vstd::prelude::*;


verus! {

/// Types that can be shown as "on" or "off".
pub trait OnOffExt {
    /// The word for the state.
    spec fn spec_on_off(&self) -> Seq<char>;

    fn as_on_off_str(&self) -> (word: &'static str)
        ensures
            word@ == self.spec_on_off(),
    ;
}

impl OnOffExt for bool {
    /// "on" for `true`, "off" for `false`.
    open spec fn spec_on_off(&self) -> Seq<char> {
        if *self {
            seq!['o', 'n']
        } else {
            seq!['o', 'f', 'f']
        }
    }

    fn as_on_off_str(&self) -> (word: &'static str) {
        if *self {
            let word = "on";
            proof {
                reveal_strlit("on");
            }
            assert(word@ =~= seq!['o', 'n']);
            word
        } else {
            let word = "off";
            proof {
                reveal_strlit("off");
            }
            assert(word@ =~= seq!['o', 'f', 'f']);
            word
        }
    }
}

/// What `str::to_lowercase` makes of a text.
pub uninterp spec fn lowercase(text: Seq<char>) -> Seq<char>;

/// Whether a character is white space in the sense of the Unicode
/// property `White_Space`, which `str::trim` documents that it uses.
pub open spec fn is_white_space(c: char) -> bool {
    let code = c as u32;
    ||| 0x9 <= code <= 0xD
    ||| code == 0x20
    ||| code == 0x85
    ||| code == 0xA0
    ||| code == 0x1680
    ||| 0x2000 <= code <= 0x200A
    ||| code == 0x2028
    ||| code == 0x2029
    ||| code == 0x202F
    ||| code == 0x205F
    ||| code == 0x3000
}

/// The text without its leading white space.
pub open spec fn trim_start(text: Seq<char>) -> Seq<char>
    decreases text.len(),
{
    if text.len() > 0 && is_white_space(text[0]) {
        trim_start(text.drop_first())
    } else {
        text
    }
}

/// The text without its trailing white space.
pub open spec fn trim_end(text: Seq<char>) -> Seq<char>
    decreases text.len(),
{
    if text.len() > 0 && is_white_space(text.last()) {
        trim_end(text.drop_last())
    } else {
        text
    }
}

/// The text without its leading and trailing white space.
pub open spec fn trimmed(text: Seq<char>) -> Seq<char> {
    trim_end(trim_start(text))
}

/// Calls `str::to_lowercase`. Its result depends on the text alone; the
/// Unicode case mapping it applies is left to the name [`lowercase`].
#[verifier::external_body]
pub(crate) fn to_lowercase(text: &str) -> (lower: String)
    ensures
        lower@ == lowercase(text@),
{
    text.to_lowercase()
}

/// Calls `str::trim`, which its documentation says removes the leading and
/// trailing characters that have the Unicode property `White_Space`.
#[verifier::external_body]
pub(crate) fn trim(text: &str) -> (inner: &str)
    ensures
        inner@ == trimmed(text@),
{
    text.trim()
}

} // verus!
