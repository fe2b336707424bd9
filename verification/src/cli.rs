//! Argument reading of the network diagnosis and analysis tools.
use vstd::prelude::*;
use vstd::string::*;

use crate::text::str_equal;
use crate::util::{lowercase, to_lowercase, trim, trimmed};

verus! {

/// Words read as "true".
pub open spec fn spec_is_yes_word(word: Seq<char>) -> bool {
    word == seq!['y', 'e', 's'] || word == seq!['t', 'r', 'u', 'e'] || word == seq!['o', 'n']
        || word == seq!['1']
}

/// Words read as "false".
pub open spec fn spec_is_no_word(word: Seq<char>) -> bool {
    word == seq!['n', 'o'] || word == seq!['f', 'a', 'l', 's', 'e'] || word == seq!['o', 'f', 'f']
        || word == seq!['0']
}

/// What a normalised answer word means: yes, true, on and 1 are `true`; no,
/// false, off and 0 are `false`; any other word is refused.
pub open spec fn spec_bool_from_word(word: Seq<char>) -> Result<bool, ()> {
    if spec_is_yes_word(word) {
        Ok(true)
    } else if spec_is_no_word(word) {
        Ok(false)
    } else {
        Err(())
    }
}

/// Reads an answer word that is already lowercase and trimmed.
pub fn bool_from_word(word: &str) -> (answer: Result<bool, ()>)
    ensures
        answer == spec_bool_from_word(word@),
{
    proof {
        reveal_strlit("yes");
        reveal_strlit("true");
        reveal_strlit("on");
        reveal_strlit("1");
        reveal_strlit("no");
        reveal_strlit("false");
        reveal_strlit("off");
        reveal_strlit("0");
        assert("yes"@ =~= seq!['y', 'e', 's']);
        assert("true"@ =~= seq!['t', 'r', 'u', 'e']);
        assert("on"@ =~= seq!['o', 'n']);
        assert("1"@ =~= seq!['1']);
        assert("no"@ =~= seq!['n', 'o']);
        assert("false"@ =~= seq!['f', 'a', 'l', 's', 'e']);
        assert("off"@ =~= seq!['o', 'f', 'f']);
        assert("0"@ =~= seq!['0']);
    }
    if str_equal(word, "yes") || str_equal(word, "true") || str_equal(word, "on") || str_equal(
        word,
        "1",
    ) {
        Ok(true)
    } else if str_equal(word, "no") || str_equal(word, "false") || str_equal(word, "off")
        || str_equal(word, "0") {
        Ok(false)
    } else {
        Err(())
    }
}

/// Reads a yes/no answer, ignoring case and surrounding white space.
pub fn string_to_bool(text: &str) -> (answer: Result<bool, ()>)
    ensures
        answer == spec_bool_from_word(trimmed(lowercase(text@))),
{
    let lower = to_lowercase(text);
    bool_from_word(trim(lower.as_str()))
}

/// `std::num::ParseIntError` is carried through as an opaque value.
#[verifier::external_type_specification]
#[verifier::external_body]
pub struct ExParseIntError(std::num::ParseIntError);

/// The value of a hexadecimal digit, if the character is one.
pub open spec fn spec_hex_digit(c: char) -> Option<nat> {
    if '0' <= c && c <= '9' {
        Some((c as nat - '0' as nat) as nat)
    } else if 'a' <= c && c <= 'f' {
        Some((c as nat - 'a' as nat + 10) as nat)
    } else if 'A' <= c && c <= 'F' {
        Some((c as nat - 'A' as nat + 10) as nat)
    } else {
        None
    }
}

/// The value of a string of hexadecimal digits, if every character is one.
pub open spec fn spec_hex_value(digits: Seq<char>) -> Option<nat>
    decreases digits.len(),
{
    if digits.len() == 0 {
        Some(0)
    } else {
        match (spec_hex_value(digits.drop_last()), spec_hex_digit(digits.last())) {
            (Some(high), Some(low)) => Some(high * 16 + low),
            _ => None,
        }
    }
}

/// What `u8::from_str_radix(text, 16)` accepts: an optional `+` followed by
/// at least one hexadecimal digit and nothing else, with a value below 256.
pub open spec fn spec_parse_hex_u8(text: Seq<char>) -> Option<u8> {
    let digits = if text.len() > 0 && text[0] == '+' {
        text.drop_first()
    } else {
        text
    };
    if digits.len() == 0 {
        None
    } else {
        match spec_hex_value(digits) {
            Some(value) => if value <= 255 {
                Some(value as u8)
            } else {
                None
            },
            None => None,
        }
    }
}

/// Calls `u8::from_str_radix` with radix 16. Its documentation: the text is
/// an optional `+` sign followed by digits only, and the value must fit the
/// type; anything else is an error.
#[verifier::external_body]
fn u8_from_hex(text: &str) -> (value: Result<u8, std::num::ParseIntError>)
    ensures
        match spec_parse_hex_u8(text@) {
            Some(v) => value == Ok::<u8, std::num::ParseIntError>(v),
            None => value is Err,
        },
{
    u8::from_str_radix(text, 16)
}

/// Whether a text starts with `0x`.
pub open spec fn spec_has_hex_prefix(text: Seq<char>) -> bool {
    text.len() >= 2 && text[0] == '0' && text[1] == 'x'
}

/// The text with every leading `0x` removed, as `trim_start_matches("0x")`
/// removes them.
pub open spec fn spec_strip_hex_prefixes(text: Seq<char>) -> Seq<char>
    decreases text.len(),
{
    if spec_has_hex_prefix(text) {
        spec_strip_hex_prefixes(text.skip(2))
    } else {
        text
    }
}

/// Removes every leading `0x` from a text.
fn strip_hex_prefixes(text: &str) -> (rest: &str)
    ensures
        rest@ == spec_strip_hex_prefixes(text@),
{
    let n = text.unicode_len();
    let mut i: usize = 0;
    assert(text@.skip(0) =~= text@);
    while i < n && i + 1 < n && text.get_char(i) == '0' && text.get_char(i + 1) == 'x'
        invariant
            n == text@.len(),
            i <= n,
            spec_strip_hex_prefixes(text@) == spec_strip_hex_prefixes(text@.skip(i as int)),
        decreases n - i,
    {
        assert(text@.skip(i as int).skip(2) =~= text@.skip(i + 2));
        i = i + 2;
    }
    let rest = text.substring_char(i, n);
    assert(rest@ =~= text@.skip(i as int));
    rest
}

/// What an address argument denotes: hexadecimal digits, written with or
/// without a leading `0x`.
pub open spec fn spec_j1939_address(address: Seq<char>) -> Option<u8> {
    if spec_has_hex_prefix(address) {
        spec_parse_hex_u8(spec_strip_hex_prefixes(address))
    } else {
        spec_parse_hex_u8(address)
    }
}

/// Reads a J1939 address given in hexadecimal, with or without `0x`.
pub fn j1939_address(address: String) -> (value: Result<u8, std::num::ParseIntError>)
    ensures
        match spec_j1939_address(address@) {
            Some(v) => value == Ok::<u8, std::num::ParseIntError>(v),
            None => value is Err,
        },
{
    let text = address.as_str();
    let starts_with_prefix = text.unicode_len() >= 2 && text.get_char(0) == '0' && text.get_char(1)
        == 'x';
    if starts_with_prefix {
        u8_from_hex(strip_hex_prefixes(text))
    } else {
        u8_from_hex(text)
    }
}

/// Reads a network node address given in hexadecimal, with or without `0x`.
pub fn node_address(address: String) -> (value: Result<u8, std::num::ParseIntError>)
    ensures
        match spec_j1939_address(address@) {
            Some(v) => value == Ok::<u8, std::num::ParseIntError>(v),
            None => value is Err,
        },
{
    j1939_address(address)
}

} // verus!
