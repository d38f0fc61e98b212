//! Calls into the standard library and into `atelier_core` whose contracts are
//! taken on trust.

use atelier_core::model::{Identifier, NamespaceID};
use std::str::FromStr;
use vstd::prelude::*;
use vstd::std_specs::iter::IteratorSpec;
use vstd::utf8::is_ascii_chars;

use crate::features::Features;
use crate::text::pieces;

verus! {

/// The ASCII lower case of a character: `A` to `Z` become `a` to `z`, every
/// other character stays.
pub open spec fn ascii_lower(c: char) -> char {
    if 'A' <= c <= 'Z' {
        (c as u32 + 32) as char
    } else {
        c
    }
}

/// The ASCII lower case of a text, character by character.
pub open spec fn ascii_lowercase(text: Seq<char>) -> Seq<char> {
    text.map_values(|c: char| ascii_lower(c))
}

/// `str::to_ascii_lowercase`: ASCII letters are mapped to lower case, all other
/// characters stay as they are.
#[verifier::external_body]
pub(crate) fn to_ascii_lowercase(text: &str) -> (lower: String)
    ensures
        lower@ == ascii_lowercase(text@),
{
    text.to_ascii_lowercase()
}

/// `<str as PartialEq>::eq`: two texts are equal when they hold the same
/// characters.
#[verifier::external_body]
pub(crate) fn same_text(a: &str, b: &str) -> (same: bool)
    ensures
        same == (a@ == b@),
{
    a == b
}

/// `String::push`: appends one character.
pub assume_specification[ String::push ](text: &mut String, c: char)
    ensures
        final(text)@ == old(text)@.push(c),
;

/// What `str::to_lowercase` makes of a text.
pub uninterp spec fn lowercase(text: Seq<char>) -> Seq<char>;

/// Two names that differ at most in case. On ASCII names that is decided letter
/// by letter; beyond ASCII, by the Unicode lower case of both.
pub open spec fn alike(a: Seq<char>, b: Seq<char>) -> bool {
    if is_ascii_chars(a) && is_ascii_chars(b) {
        ascii_lowercase(a) == ascii_lowercase(b)
    } else {
        lowercase(a) == lowercase(b)
    }
}

/// `<atelier_core::model::NamespaceID as PartialEq>::eq`: namespaces are equal
/// when their lower cases are.
#[verifier::external_body]
pub(crate) fn same_namespace(a: &str, b: &str) -> (same: bool)
    ensures
        same == (if is_ascii_chars(a@) && is_ascii_chars(b@) {
            ascii_lowercase(a@) == ascii_lowercase(b@)
        } else {
            lowercase(a@) == lowercase(b@)
        }),
{
    NamespaceID::new_unchecked(a) == NamespaceID::new_unchecked(b)
}

/// `<atelier_core::model::Identifier as PartialEq>::eq`: identifiers are equal
/// when their lower cases are.
#[verifier::external_body]
pub(crate) fn same_identifier(a: &str, b: &str) -> (same: bool)
    ensures
        same == (if is_ascii_chars(a@) && is_ascii_chars(b@) {
            ascii_lowercase(a@) == ascii_lowercase(b@)
        } else {
            lowercase(a@) == lowercase(b@)
        }),
{
    Identifier::new_unchecked(a) == Identifier::new_unchecked(b)
}

/// An ASCII letter.
pub open spec fn is_letter(c: char) -> bool {
    'a' <= c <= 'z' || 'A' <= c <= 'Z'
}

/// An ASCII letter, an ASCII digit or an underscore.
pub open spec fn is_word(c: char) -> bool {
    is_letter(c) || '0' <= c <= '9' || c == '_'
}

/// A letter, with nothing but underscores before it, and nothing but letters,
/// digits and underscores behind it.
pub open spec fn is_identifier(text: Seq<char>) -> bool {
    exists|k: int|
        {
            &&& 0 <= k < text.len()
            &&& is_letter(#[trigger] text[k])
            &&& forall|i: int| 0 <= i < k ==> text[i] == '_'
            &&& forall|i: int| k < i < text.len() ==> is_word(text[i])
        }
}

/// Identifiers, separated by dots.
pub open spec fn is_namespace(text: Seq<char>) -> bool {
    forall|i: int|
        0 <= i < pieces(text, '.').len() ==> is_identifier(#[trigger] pieces(text, '.')[i])
}

/// The error type of `atelier_core`.
#[verifier::external_type_specification]
#[verifier::external_body]
pub struct ExAtelierError(atelier_core::error::Error);

/// `<atelier_core::model::NamespaceID as FromStr>::from_str`: accepts the
/// texts that are identifiers separated by dots, and keeps them as they are.
#[verifier::external_body]
pub(crate) fn parse_namespace(text: &str) -> (parsed: Result<String, atelier_core::error::Error>)
    ensures
        parsed is Ok == is_namespace(text@),
        parsed matches Ok(namespace) ==> namespace@ == text@,
{
    match NamespaceID::from_str(text) {
        Ok(namespace) => Ok(namespace.to_string()),
        Err(error) => Err(error),
    }
}

/// `Iterator::collect` into a `Vec`: the items that the iterator still yields,
/// in order. It returns when the iterator has come to its end.
#[verifier::external_body]
pub(crate) fn collect_flags<I: Iterator<Item = Features>>(flags: I) -> (collected: Vec<Features>)
    ensures
        flags.obeys_prophetic_iter_laws() ==> collected@ == flags.remaining(),
{
    flags.collect()
}

} // verus!
