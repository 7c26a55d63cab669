//! The text normaliser: substitution rules first, width folding second.

use crate::rules::{apply_replacements, apply_rules, rules_of, Replacement, Rule};
use crate::width::{fold_char, fold_one, fold_text, lemma_fold_text_idempotent};
use vstd::prelude::*;

verus! {

/// The pattern whose matches are folded: one class holding the range from
/// FULLWIDTH EXCLAMATION MARK to FULLWIDTH TILDE.
pub const WIDTH_PATTERN: &'static str = "[\u{ff01}-\u{ff5e}]";

/// Why a text could not be normalised.
#[derive(Debug, Clone, Copy, PartialEq, Eq, Structural)]
pub enum FormatError {
    /// The pattern of the folded range was rejected by the pattern compiler.
    Pattern,
}

/// The error of `regex::Regex::new`, carried through as it is.
#[verifier::external_type_specification]
#[verifier::external_body]
pub struct ExPatternError(regex::Error);

/// Whether `regex::Regex::new` accepts `pattern`.
pub uninterp spec fn regex_accepts(pattern: Seq<char>) -> bool;

/// Whether `pattern` is one bracketed class that holds one range between two
/// characters beyond ASCII, the first not after the second.
pub open spec fn is_range_class(pattern: Seq<char>) -> bool {
    &&& pattern.len() == 5
    &&& pattern[0] == '['
    &&& pattern[2] == '-'
    &&& pattern[4] == ']'
    &&& 0x80 <= pattern[1] as u32 <= pattern[3] as u32
}

/// What is written in place of one match: the fold of its first character.
pub open spec fn fold_match_text(matched: Seq<char>, exclusions: Set<char>) -> Seq<char> {
    if matched.len() == 0 {
        matched
    } else {
        seq![fold_char(matched[0], exclusions)]
    }
}

/// `haystack` with every character from `lo` to `hi` replaced by what is
/// written for a match made of that character alone.
pub open spec fn replace_class(haystack: Seq<char>, lo: char, hi: char, exclusions: Set<char>) -> Seq<
    char,
>
    decreases haystack.len(),
{
    if haystack.len() == 0 {
        haystack
    } else {
        let head = if lo as u32 <= haystack[0] as u32 <= hi as u32 {
            fold_match_text(seq![haystack[0]], exclusions)
        } else {
            seq![haystack[0]]
        };
        head + replace_class(haystack.skip(1), lo, hi, exclusions)
    }
}

/// `text` after the rules and the folding of what they left.
pub open spec fn normalize(text: Seq<char>, rules: Seq<Rule>, exclusions: Set<char>) -> Seq<char> {
    fold_text(apply_rules(text, rules), exclusions)
}

/// The text written in place of one match of the width pattern: the fold of
/// the first character of the match. An empty match is answered with an empty
/// text.
pub fn fold_match(matched: &str, exclusions: &[char]) -> (out: String)
    ensures
        out@ == fold_match_text(matched@, exclusions@.to_set()),
{
    let mut out = String::new();
    if matched.unicode_len() > 0 {
        out.push(fold_one(matched.get_char(0), exclusions));
        assert(out@ =~= seq![fold_char(matched@[0], exclusions@.to_set())]);
    } else {
        assert(out@ =~= matched@);
    }
    out
}

/// Compiles `pattern` with `regex::Regex::new` and rewrites `haystack` with
/// `regex::Regex::replace_all`, whose replacer is [`fold_match`] on the text
/// of each match. The contract claims two things of the outside crate. The
/// call fails exactly when the compiler rejects the pattern. For a pattern
/// that is one class with one range, the matches are the single characters of
/// that range, so that the result is the haystack with each of them replaced
/// and everything else kept.
#[verifier::external_body]
fn replace_matches(pattern: &str, haystack: &str, exclusions: &[char]) -> (r: Result<
    String,
    regex::Error,
>)
    requires
        is_range_class(pattern@),
    ensures
        r is Ok <==> regex_accepts(pattern@),
        r matches Ok(out) ==> out@ == replace_class(
            haystack@,
            pattern@[1],
            pattern@[3],
            exclusions@.to_set(),
        ),
{
    let re = regex::Regex::new(pattern)?;
    let replaced = re.replace_all(haystack, |found: &regex::Captures| fold_match(&found[0], exclusions));
    Ok(replaced.into_owned())
}

/// Replacing the characters of the folded range one by one is folding.
proof fn lemma_replace_class_folds(text: Seq<char>, lo: char, hi: char, exclusions: Set<char>)
    requires
        lo as u32 == crate::width::FULLWIDTH_FIRST,
        hi as u32 == crate::width::FULLWIDTH_LAST,
    ensures
        replace_class(text, lo, hi, exclusions) == fold_text(text, exclusions),
    decreases text.len(),
{
    if text.len() > 0 {
        lemma_replace_class_folds(text.skip(1), lo, hi, exclusions);
        assert(replace_class(text, lo, hi, exclusions) =~= fold_text(text, exclusions));
    } else {
        assert(replace_class(text, lo, hi, exclusions) =~= fold_text(text, exclusions));
    }
}

/// The width-folding step: every full-width character of `text` that is not
/// in `exclusions` becomes its half-width twin. Fails exactly when the
/// pattern compiler rejects [`WIDTH_PATTERN`].
pub fn fold_width(text: &str, exclusions: &[char]) -> (r: Result<String, FormatError>)
    ensures
        r is Ok <==> regex_accepts(WIDTH_PATTERN@),
        r matches Ok(out) ==> out@ == fold_text(text@, exclusions@.to_set()),
{
    proof {
        reveal_strlit("[\u{ff01}-\u{ff5e}]");
    }
    match replace_matches(WIDTH_PATTERN, text, exclusions) {
        Ok(out) => {
            proof {
                lemma_replace_class_folds(
                    text@,
                    WIDTH_PATTERN@[1],
                    WIDTH_PATTERN@[3],
                    exclusions@.to_set(),
                );
            }
            Ok(out)
        },
        Err(_) => Err(FormatError::Pattern),
    }
}

/// Normalises `text`: applies `replacements` in order, then folds the
/// full-width characters that `exclusion_list` does not hold. Fails exactly
/// when the pattern compiler rejects [`WIDTH_PATTERN`].
pub fn format_text(text: &str, replacements: &[Replacement], exclusion_list: &[char]) -> (r: Result<
    String,
    FormatError,
>)
    ensures
        r is Ok <==> regex_accepts(WIDTH_PATTERN@),
        r matches Ok(out) ==> out@ == normalize(
            text@,
            rules_of(replacements@),
            exclusion_list@.to_set(),
        ),
{
    let replaced = apply_replacements(text, replacements);
    fold_width(replaced.as_str(), exclusion_list)
}

/// Without rules, normalising a normalised text changes nothing.
pub proof fn lemma_normalize_idempotent_without_rules(text: Seq<char>, exclusions: Set<char>)
    ensures
        normalize(normalize(text, Seq::empty(), exclusions), Seq::empty(), exclusions) == normalize(
            text,
            Seq::empty(),
            exclusions,
        ),
{
    lemma_fold_text_idempotent(text, exclusions);
}

/// Where the rules leave a normalised text as it is, normalising it again
/// changes nothing. Rules that match in their own output are applied again on
/// every pass, so the premise cannot be dropped.
pub proof fn lemma_normalize_idempotent(text: Seq<char>, rules: Seq<Rule>, exclusions: Set<char>)
    requires
        apply_rules(normalize(text, rules, exclusions), rules) == normalize(text, rules, exclusions),
    ensures
        normalize(normalize(text, rules, exclusions), rules, exclusions) == normalize(
            text,
            rules,
            exclusions,
        ),
{
    lemma_fold_text_idempotent(apply_rules(text, rules), exclusions);
}

} // verus!
