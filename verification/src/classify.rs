//! The choice classifier: maps a raw choice identifier/text pair to a binary
//! valence (dark or light) by case-insensitive keyword matching. Empty or
//! unmatched inputs classify as light.

use vstd::prelude::*;

use crate::text::seq_contains_seq;
use crate::text::str_contains;

verus! {

/// What std's case folding returns for a string: a function of the
/// characters of the input alone.
pub uninterp spec fn lowercase_of(s: Seq<char>) -> Seq<char>;

/// Relies on str::to_lowercase, whose result depends only on the characters
/// of its input.
#[verifier::external_body]
fn to_lowercase(s: &str) -> (r: String)
    ensures
        r@ == lowercase_of(s@),
{
    s.to_lowercase()
}

/// A choice is dark exactly when its lowercased identifier holds one of the
/// identifier keywords, or its lowercased display text holds one of the
/// phrase keywords.
pub open spec fn spec_is_dark(id_low: Seq<char>, text_low: Seq<char>) -> bool {
    ||| seq_contains_seq(id_low, "dark"@)
    ||| seq_contains_seq(id_low, "hurt"@)
    ||| seq_contains_seq(id_low, "ignore"@)
    ||| seq_contains_seq(id_low, "nihil"@)
    ||| seq_contains_seq(id_low, "cruel"@)
    ||| seq_contains_seq(id_low, "abandon"@)
    ||| seq_contains_seq(text_low, "kill"@)
    ||| seq_contains_seq(text_low, "abandon"@)
    ||| seq_contains_seq(text_low, "nothing matters"@)
    ||| seq_contains_seq(text_low, "don't care"@)
    ||| seq_contains_seq(text_low, "meaningless"@)
    ||| seq_contains_seq(text_low, "leave them"@)
    ||| seq_contains_seq(text_low, "walk away"@)
}

/// Classify a raw (identifier, display text) pair: true means dark, false
/// means light. Strictly boolean; no match of any keyword means light.
pub fn classify(choice_id: &str, choice_text: &str) -> (is_dark: bool)
    ensures
        is_dark == spec_is_dark(lowercase_of(choice_id@), lowercase_of(choice_text@)),
{
    let id_low = to_lowercase(choice_id);
    let text_low = to_lowercase(choice_text);
    str_contains(id_low.as_str(), "dark") || str_contains(id_low.as_str(), "hurt")
        || str_contains(id_low.as_str(), "ignore") || str_contains(id_low.as_str(), "nihil")
        || str_contains(id_low.as_str(), "cruel") || str_contains(id_low.as_str(), "abandon")
        || str_contains(text_low.as_str(), "kill") || str_contains(text_low.as_str(), "abandon")
        || str_contains(text_low.as_str(), "nothing matters") || str_contains(
        text_low.as_str(),
        "don't care",
    ) || str_contains(text_low.as_str(), "meaningless") || str_contains(
        text_low.as_str(),
        "leave them",
    ) || str_contains(text_low.as_str(), "walk away")
}

} // verus!
