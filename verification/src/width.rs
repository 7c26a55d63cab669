//! Folding of full-width ASCII variants (U+FF01 to U+FF5E) to half-width.

use vstd::prelude::*;

verus! {

/// Code point of FULLWIDTH EXCLAMATION MARK, the first character of the folded range.
pub const FULLWIDTH_FIRST: u32 = 0xFF01;

/// Code point of FULLWIDTH TILDE, the last character of the folded range.
pub const FULLWIDTH_LAST: u32 = 0xFF5E;

/// Distance between a full-width character and its half-width twin.
pub const WIDTH_OFFSET: u32 = 0xFEE0;

/// Whether `c` lies in the folded range.
pub open spec fn is_fullwidth(c: char) -> bool {
    FULLWIDTH_FIRST <= c as u32 <= FULLWIDTH_LAST
}

/// The half-width twin of a full-width character.
pub open spec fn narrow(c: char) -> char {
    (c as u32 - WIDTH_OFFSET) as char
}

/// What folding makes of one character under the exclusion set `exclusions`.
pub open spec fn fold_char(c: char, exclusions: Set<char>) -> char {
    if is_fullwidth(c) && !exclusions.contains(c) {
        narrow(c)
    } else {
        c
    }
}

/// Whether `c` occurs in `exclusions`.
pub fn is_excluded(exclusions: &[char], c: char) -> (found: bool)
    ensures
        found == exclusions@.to_set().contains(c),
{
    let mut i: usize = 0;
    while i < exclusions.len()
        invariant
            i <= exclusions.len(),
            forall|j: int| 0 <= j < i ==> exclusions@[j] != c,
        decreases exclusions.len() - i,
    {
        if exclusions[i] == c {
            return true;
        }
        i = i + 1;
    }
    false
}

/// Folds one character: a full-width character outside `exclusions` becomes
/// its half-width twin, every other character is returned as it is.
pub fn fold_one(c: char, exclusions: &[char]) -> (folded: char)
    ensures
        folded == fold_char(c, exclusions@.to_set()),
{
    let code: u32 = c as u32;
    if FULLWIDTH_FIRST <= code && code <= FULLWIDTH_LAST && !is_excluded(exclusions, c) {
        let low: u8 = (code - WIDTH_OFFSET) as u8;
        low as char
    } else {
        c
    }
}

/// `text` with every character folded under `exclusions`.
pub open spec fn fold_text(text: Seq<char>, exclusions: Set<char>) -> Seq<char> {
    text.map_values(|c: char| fold_char(c, exclusions))
}

/// A full-width character of the exclusion set is left as it is; one outside
/// the set becomes the character whose code point is smaller by `WIDTH_OFFSET`.
pub proof fn lemma_fold_char_in_range(c: char, exclusions: Set<char>)
    requires
        is_fullwidth(c),
    ensures
        exclusions.contains(c) ==> fold_char(c, exclusions) == c,
        !exclusions.contains(c) ==> fold_char(c, exclusions) as u32 == c as u32 - WIDTH_OFFSET,
        !exclusions.contains(c) ==> 0x21 <= fold_char(c, exclusions) as u32 <= 0x7E,
{
}

/// A character outside the folded range is never altered, whether or not the
/// exclusion set holds it.
pub proof fn lemma_fold_char_outside_range(c: char, exclusions: Set<char>)
    requires
        !is_fullwidth(c),
    ensures
        fold_char(c, exclusions) == c,
{
}

/// Folding keeps the length of a text and acts on each position by itself:
/// positions outside the folded range and excluded positions keep their
/// character, the others hold the half-width twin.
pub proof fn lemma_fold_text_pointwise(text: Seq<char>, exclusions: Set<char>, i: int)
    requires
        0 <= i < text.len(),
    ensures
        fold_text(text, exclusions).len() == text.len(),
        fold_text(text, exclusions)[i] == fold_char(text[i], exclusions),
        !is_fullwidth(text[i]) || exclusions.contains(text[i]) ==> fold_text(text, exclusions)[i]
            == text[i],
        is_fullwidth(text[i]) && !exclusions.contains(text[i]) ==> fold_text(
            text,
            exclusions,
        )[i] as u32 == text[i] as u32 - WIDTH_OFFSET,
{
}

/// A folded character folds to itself: what was full-width and not excluded
/// has left the range, everything else was not changed.
pub proof fn lemma_fold_char_idempotent(c: char, exclusions: Set<char>)
    ensures
        fold_char(fold_char(c, exclusions), exclusions) == fold_char(c, exclusions),
{
}

/// Folding a folded text changes nothing.
pub proof fn lemma_fold_text_idempotent(text: Seq<char>, exclusions: Set<char>)
    ensures
        fold_text(fold_text(text, exclusions), exclusions) == fold_text(text, exclusions),
{
    let once = fold_text(text, exclusions);
    assert forall|i: int| 0 <= i < once.len() implies fold_text(once, exclusions)[i] == once[i] by {
        lemma_fold_char_idempotent(text[i], exclusions);
    }
    assert(fold_text(once, exclusions) =~= once);
}

/// With an empty exclusion set no full-width character is left after folding.
pub proof fn lemma_fold_text_leaves_no_fullwidth(text: Seq<char>, i: int)
    requires
        0 <= i < text.len(),
    ensures
        !is_fullwidth(fold_text(text, Set::empty())[i]),
{
}

/// A text without full-width characters outside the exclusion set is left as
/// it is.
pub proof fn lemma_fold_text_fixed(text: Seq<char>, exclusions: Set<char>)
    requires
        forall|i: int| 0 <= i < text.len() ==> !is_fullwidth(#[trigger] text[i]) || exclusions.contains(text[i]),
    ensures
        fold_text(text, exclusions) == text,
{
    assert(fold_text(text, exclusions) =~= text);
}

} // verus!
