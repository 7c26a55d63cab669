//! Content fingerprints of the loaded configuration. A fingerprint is the
//! digest of a fixed byte encoding of the content, so equal contents always
//! have equal fingerprints.

use crate::rules::{rules_of, Replacement, Rule};
use std::collections::hash_map::DefaultHasher;
use std::hash::Hasher;
use vstd::bytes::{spec_u32_to_le_bytes, spec_u64_to_le_bytes, u32_to_le_bytes, u64_to_le_bytes};
use vstd::prelude::*;
use vstd::std_specs::hash::DefaultHasherAdditionalSpecFns;
use vstd::string::StringSliceAdditionalSpecFns;
use vstd::utf8::encode_utf8;

verus! {

/// The digest of a sequence of writes.
pub open spec fn fingerprint(writes: Seq<Seq<u8>>) -> u64 {
    DefaultHasher::spec_finish(writes)
}

/// What is written for a count: its eight bytes, lowest first.
pub open spec fn count_writes(count: nat) -> Seq<Seq<u8>> {
    seq![spec_u64_to_le_bytes(count as u64)]
}

/// What is written for a text: the length of its UTF-8 form, then that form.
pub open spec fn text_writes(text: Seq<char>) -> Seq<Seq<u8>> {
    count_writes(encode_utf8(text).len()) + seq![encode_utf8(text)]
}

/// What is written for a rule: its original, then its replacement.
pub open spec fn rule_writes(rule: Rule) -> Seq<Seq<u8>> {
    text_writes(rule.original) + text_writes(rule.replacement)
}

/// What is written for the rules one after the other.
pub open spec fn rules_writes(rules: Seq<Rule>) -> Seq<Seq<u8>>
    decreases rules.len(),
{
    if rules.len() == 0 {
        Seq::empty()
    } else {
        rules_writes(rules.drop_last()) + rule_writes(rules.last())
    }
}

/// What is written for a rule sequence: the number of rules, then each rule.
pub open spec fn rules_digest_input(rules: Seq<Rule>) -> Seq<Seq<u8>> {
    count_writes(rules.len()) + rules_writes(rules)
}

/// What is written for the characters one after the other: the four bytes of
/// each code point, lowest first.
pub open spec fn chars_writes(chars: Seq<char>) -> Seq<Seq<u8>>
    decreases chars.len(),
{
    if chars.len() == 0 {
        Seq::empty()
    } else {
        chars_writes(chars.drop_last()) + seq![spec_u32_to_le_bytes(chars.last() as u32)]
    }
}

/// What is written for a character list: the number of characters, then each
/// character.
pub open spec fn chars_digest_input(chars: Seq<char>) -> Seq<Seq<u8>> {
    count_writes(chars.len()) + chars_writes(chars)
}

/// Content that can be fed to a hasher as a fixed sequence of writes.
pub trait Fingerprinted {
    /// The writes that stand for the content.
    spec fn digest_input(&self) -> Seq<Seq<u8>>;

    /// Appends the writes of the content to `state`.
    fn feed(&self, state: &mut DefaultHasher)
        ensures
            final(state)@ == old(state)@ + self.digest_input(),
    ;
}

/// Writes a count to `state`.
fn feed_count(count: usize, state: &mut DefaultHasher)
    ensures
        final(state)@ == old(state)@ + count_writes(count as nat),
{
    let bytes = u64_to_le_bytes(count as u64);
    state.write(bytes.as_slice());
    assert(state@ =~= old(state)@ + count_writes(count as nat));
}

/// Writes a text to `state`.
fn feed_text(text: &str, state: &mut DefaultHasher)
    ensures
        final(state)@ == old(state)@ + text_writes(text@),
{
    let bytes = text.as_bytes();
    feed_count(bytes.len(), state);
    state.write(bytes);
    assert(state@ =~= old(state)@ + text_writes(text@));
}

impl Fingerprinted for Vec<Replacement> {
    open spec fn digest_input(&self) -> Seq<Seq<u8>> {
        rules_digest_input(rules_of(self@))
    }

    fn feed(&self, state: &mut DefaultHasher) {
        feed_count(self.len(), state);
        let mut i: usize = 0;
        assert(rules_writes(rules_of(self@).take(0)) =~= Seq::<Seq<u8>>::empty());
        assert(state@ =~= old(state)@ + count_writes(self@.len()) + rules_writes(
            rules_of(self@).take(0),
        ));
        while i < self.len()
            invariant
                i <= self.len(),
                state@ == old(state)@ + count_writes(self@.len()) + rules_writes(
                    rules_of(self@).take(i as int),
                ),
            decreases self.len() - i,
        {
            let ghost before = rules_of(self@).take(i as int);
            let ghost after = rules_of(self@).take(i + 1);
            let ghost entry = state@;
            assert(after.drop_last() =~= before);
            assert(after.last() == self@[i as int]@);
            feed_text(self[i].original.as_str(), state);
            feed_text(self[i].replacement.as_str(), state);
            assert(state@ =~= entry + rule_writes(self@[i as int]@));
            assert(state@ =~= old(state)@ + count_writes(self@.len()) + rules_writes(after));
            i = i + 1;
        }
        assert(rules_of(self@).take(i as int) =~= rules_of(self@));
        assert(state@ =~= old(state)@ + self.digest_input());
    }
}

impl Fingerprinted for Vec<char> {
    open spec fn digest_input(&self) -> Seq<Seq<u8>> {
        chars_digest_input(self@)
    }

    fn feed(&self, state: &mut DefaultHasher) {
        feed_count(self.len(), state);
        let mut i: usize = 0;
        assert(chars_writes(self@.take(0)) =~= Seq::<Seq<u8>>::empty());
        assert(state@ =~= old(state)@ + count_writes(self@.len()) + chars_writes(self@.take(0)));
        while i < self.len()
            invariant
                i <= self.len(),
                state@ == old(state)@ + count_writes(self@.len()) + chars_writes(
                    self@.take(i as int),
                ),
            decreases self.len() - i,
        {
            let ghost before = self@.take(i as int);
            let ghost after = self@.take(i + 1);
            assert(after.drop_last() =~= before);
            assert(after.last() == self@[i as int]);
            let bytes = u32_to_le_bytes(self[i] as u32);
            state.write(bytes.as_slice());
            assert(state@ =~= old(state)@ + count_writes(self@.len()) + chars_writes(after));
            i = i + 1;
        }
        assert(self@.take(i as int) =~= self@);
        assert(state@ =~= old(state)@ + self.digest_input());
    }
}

/// The fingerprint of `content`: the digest of its writes by a hasher that
/// starts empty.
pub fn calculate_hash<T: Fingerprinted>(content: &T) -> (digest: u64)
    ensures
        digest == fingerprint(content.digest_input()),
{
    let mut state = DefaultHasher::new();
    content.feed(&mut state);
    assert(state@ =~= content.digest_input());
    state.finish()
}

/// Equal rule sequences have equal fingerprints.
pub proof fn lemma_equal_rules_equal_fingerprint(a: Vec<Replacement>, b: Vec<Replacement>)
    requires
        rules_of(a@) == rules_of(b@),
    ensures
        fingerprint(a.digest_input()) == fingerprint(b.digest_input()),
{
}

} // verus!
