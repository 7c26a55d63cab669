//! Substitution rules and their sequential application.

use crate::text::to_chars;
use vstd::prelude::*;
use vstd::string::StringExecFns;

verus! {

/// One substitution: every occurrence of `original` becomes `replacement`.
#[derive(Debug, Clone, PartialEq, Eq, Hash)]
pub struct Replacement {
    pub original: String,
    pub replacement: String,
}

/// The mathematical content of a [`Replacement`].
pub struct Rule {
    pub original: Seq<char>,
    pub replacement: Seq<char>,
}

impl View for Replacement {
    type V = Rule;

    open spec fn view(&self) -> Rule {
        Rule { original: self.original@, replacement: self.replacement@ }
    }
}

/// The rules held by a slice of replacements, in order.
pub open spec fn rules_of(replacements: Seq<Replacement>) -> Seq<Rule> {
    replacements.map_values(|r: Replacement| r@)
}

/// `text` with every non-overlapping occurrence of `from`, found from left to
/// right, replaced by `to`. An empty `from` occurs before every character and
/// at the end.
pub open spec fn replace_occurrences(text: Seq<char>, from: Seq<char>, to: Seq<char>) -> Seq<char>
    decreases text.len(),
{
    if from.len() == 0 {
        if text.len() == 0 {
            to
        } else {
            to + seq![text[0]] + replace_occurrences(text.skip(1), from, to)
        }
    } else if text.len() < from.len() {
        text
    } else if text.take(from.len() as int) == from {
        to + replace_occurrences(text.skip(from.len() as int), from, to)
    } else {
        seq![text[0]] + replace_occurrences(text.skip(1), from, to)
    }
}

/// `text` after the rules were applied one after the other, each to the result
/// of the one before.
pub open spec fn apply_rules(text: Seq<char>, rules: Seq<Rule>) -> Seq<char>
    decreases rules.len(),
{
    if rules.len() == 0 {
        text
    } else {
        replace_occurrences(
            apply_rules(text, rules.drop_last()),
            rules.last().original,
            rules.last().replacement,
        )
    }
}

/// Whether `needle` stands in `hay` at position `at`.
fn occurs_at(hay: &Vec<char>, at: usize, needle: &Vec<char>) -> (found: bool)
    requires
        at + needle.len() <= hay.len(),
    ensures
        found == (hay@.skip(at as int).take(needle.len() as int) == needle@),
{
    let mut k: usize = 0;
    while k < needle.len()
        invariant
            k <= needle.len(),
            at + needle.len() <= hay.len(),
            forall|j: int| 0 <= j < k ==> hay@[at + j] == needle@[j],
        decreases needle.len() - k,
    {
        if hay[at + k] != needle[k] {
            assert(hay@.skip(at as int).take(needle.len() as int)[k as int] != needle@[k as int]);
            return false;
        }
        k = k + 1;
    }
    assert(hay@.skip(at as int).take(needle.len() as int) =~= needle@);
    true
}

/// Replaces every non-overlapping occurrence of `from` in `text` by `to`.
pub fn replace_text(text: &str, from: &str, to: &str) -> (out: String)
    ensures
        out@ == replace_occurrences(text@, from@, to@),
{
    let hay = to_chars(text);
    let needle = to_chars(from);
    let mut out = String::new();
    let mut i: usize = 0;
    assert(hay@.skip(0) =~= hay@);
    assert(out@ + replace_occurrences(hay@, from@, to@) =~= replace_occurrences(hay@, from@, to@));
    while i < hay.len()
        invariant
            i <= hay.len(),
            hay@ == text@,
            needle@ == from@,
            out@ + replace_occurrences(hay@.skip(i as int), from@, to@) == replace_occurrences(
                hay@,
                from@,
                to@,
            ),
        decreases hay.len() - i,
    {
        let ghost rest = hay@.skip(i as int);
        assert(rest.len() == hay.len() - i);
        assert(rest[0] == hay@[i as int]);
        if needle.len() == 0 {
            assert(rest.skip(1) =~= hay@.skip(i + 1));
            out.append(to);
            out.push(hay[i]);
            i = i + 1;
        } else if hay.len() - i >= needle.len() && occurs_at(&hay, i, &needle) {
            assert(rest.skip(needle.len() as int) =~= hay@.skip(i + needle.len()));
            out.append(to);
            i = i + needle.len();
        } else {
            assert(rest.skip(1) =~= hay@.skip(i + 1));
            out.push(hay[i]);
            i = i + 1;
        }
    }
    assert(hay@.skip(i as int).len() == 0);
    if needle.len() == 0 {
        out.append(to);
    }
    out
}

/// Applies the rules to `text` one after the other, in slice order.
pub fn apply_replacements(text: &str, replacements: &[Replacement]) -> (out: String)
    ensures
        out@ == apply_rules(text@, rules_of(replacements@)),
{
    let mut out = String::from_str(text);
    let mut i: usize = 0;
    while i < replacements.len()
        invariant
            i <= replacements.len(),
            out@ == apply_rules(text@, rules_of(replacements@).take(i as int)),
        decreases replacements.len() - i,
    {
        let rule = &replacements[i];
        let ghost done = rules_of(replacements@).take(i as int);
        let ghost next = rules_of(replacements@).take(i + 1);
        assert(next.drop_last() =~= done);
        assert(next.last() == rule@);
        out = replace_text(out.as_str(), rule.original.as_str(), rule.replacement.as_str());
        i = i + 1;
    }
    assert(rules_of(replacements@).take(i as int) =~= rules_of(replacements@));
    out
}

/// Without rules a text is left as it is.
pub proof fn lemma_no_rules_change_nothing(text: Seq<char>)
    ensures
        apply_rules(text, Seq::empty()) == text,
{
}

/// Rules are applied one after the other: applying a sequence of rules and
/// then another is applying the two sequences joined, so that later rules
/// work on what earlier rules wrote.
pub proof fn lemma_rules_apply_in_sequence(text: Seq<char>, first: Seq<Rule>, second: Seq<Rule>)
    ensures
        apply_rules(text, first + second) == apply_rules(apply_rules(text, first), second),
    decreases second.len(),
{
    if second.len() == 0 {
        assert(first + second =~= first);
    } else {
        assert((first + second).drop_last() =~= first + second.drop_last());
        assert((first + second).last() == second.last());
        lemma_rules_apply_in_sequence(text, first, second.drop_last());
    }
}

/// A text that is shorter than a non-empty `from` holds no occurrence of it
/// and is left as it is.
pub proof fn lemma_short_text_is_kept(text: Seq<char>, from: Seq<char>, to: Seq<char>)
    requires
        text.len() < from.len(),
    ensures
        replace_occurrences(text, from, to) == text,
{
}

/// A text in which a non-empty `from` occurs nowhere is left as it is.
pub proof fn lemma_text_without_occurrence_is_kept(text: Seq<char>, from: Seq<char>, to: Seq<char>)
    requires
        from.len() > 0,
        forall|i: int|
            0 <= i <= text.len() - from.len() ==> #[trigger] text.subrange(i, i + from.len())
                != from,
    ensures
        replace_occurrences(text, from, to) == text,
    decreases text.len(),
{
    if text.len() >= from.len() {
        assert(text.take(from.len() as int) =~= text.subrange(0, 0 + from.len() as int));
        let rest = text.skip(1);
        assert forall|i: int| 0 <= i <= rest.len() - from.len() implies #[trigger] rest.subrange(
            i,
            i + from.len(),
        ) != from by {
            assert(rest.subrange(i, i + from.len()) =~= text.subrange(i + 1, i + 1 + from.len()));
        }
        lemma_text_without_occurrence_is_kept(rest, from, to);
        assert(seq![text[0]] + rest =~= text);
    }
}

/// Replacing a text by itself changes nothing.
pub proof fn lemma_replace_by_itself(text: Seq<char>, from: Seq<char>)
    requires
        from.len() > 0,
    ensures
        replace_occurrences(text, from, from) == text,
    decreases text.len(),
{
    if text.len() >= from.len() {
        if text.take(from.len() as int) == from {
            lemma_replace_by_itself(text.skip(from.len() as int), from);
            assert(text.take(from.len() as int) + text.skip(from.len() as int) =~= text);
        } else {
            lemma_replace_by_itself(text.skip(1), from);
            assert(seq![text[0]] + text.skip(1) =~= text);
        }
    }
}

} // verus!
