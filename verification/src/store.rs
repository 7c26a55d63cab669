//! The configuration in effect: the rules and exclusions that were loaded
//! last, each with its content fingerprint, and one sticky failure flag for
//! each of the two files.

use crate::config::ConfigError;
use crate::fingerprint::{
    calculate_hash, chars_digest_input, fingerprint, rules_digest_input, Fingerprinted,
};
use crate::rules::{rules_of, Replacement, Rule};
use vstd::prelude::*;

verus! {

/// The fingerprint of a rule sequence.
pub open spec fn rules_fingerprint(rules: Seq<Rule>) -> u64 {
    fingerprint(rules_digest_input(rules))
}

/// The fingerprint of an exclusion list.
pub open spec fn exclusions_fingerprint(chars: Seq<char>) -> u64 {
    fingerprint(chars_digest_input(chars))
}

/// A rule sequence together with its fingerprint.
pub struct RuleSet {
    rules: Vec<Replacement>,
    stamp: u64,
}

impl View for RuleSet {
    type V = Seq<Rule>;

    closed spec fn view(&self) -> Seq<Rule> {
        rules_of(self.rules@)
    }
}

impl RuleSet {
    #[verifier::type_invariant]
    spec fn stamped(self) -> bool {
        self.stamp == rules_fingerprint(rules_of(self.rules@))
    }

    /// Takes `rules` and computes their fingerprint.
    pub fn new(rules: Vec<Replacement>) -> (set: RuleSet)
        ensures
            set@ == rules_of(rules@),
    {
        let stamp = calculate_hash(&rules);
        RuleSet { rules, stamp }
    }

    /// The rules, in order.
    pub fn rules(&self) -> (rules: &Vec<Replacement>)
        ensures
            rules_of(rules@) == self@,
    {
        &self.rules
    }

    /// The fingerprint of the rules.
    pub fn fingerprint(&self) -> (stamp: u64)
        ensures
            stamp == rules_fingerprint(self@),
    {
        proof {
            use_type_invariant(self);
        }
        self.stamp
    }
}

/// An exclusion list together with its fingerprint.
pub struct ExclusionSet {
    chars: Vec<char>,
    stamp: u64,
}

impl View for ExclusionSet {
    type V = Seq<char>;

    closed spec fn view(&self) -> Seq<char> {
        self.chars@
    }
}

impl ExclusionSet {
    #[verifier::type_invariant]
    spec fn stamped(self) -> bool {
        self.stamp == exclusions_fingerprint(self.chars@)
    }

    /// Takes `chars` and computes their fingerprint.
    pub fn new(chars: Vec<char>) -> (set: ExclusionSet)
        ensures
            set@ == chars@,
    {
        let stamp = calculate_hash(&chars);
        ExclusionSet { chars, stamp }
    }

    /// The excluded characters, in the order of the file.
    pub fn chars(&self) -> (chars: &Vec<char>)
        ensures
            chars@ == self@,
    {
        &self.chars
    }

    /// The fingerprint of the list.
    pub fn fingerprint(&self) -> (stamp: u64)
        ensures
            stamp == exclusions_fingerprint(self@),
    {
        proof {
            use_type_invariant(self);
        }
        self.stamp
    }
}

/// Whether the last load of a file gave a configuration.
#[derive(Debug, Clone, Copy, PartialEq, Eq, Structural)]
pub enum LoadStatus {
    /// The last load succeeded, or none was tried since the start.
    Healthy,
    /// The last load failed, and the failure was reported.
    Failed,
}

/// What a load did to the store.
#[derive(Debug, Clone, Copy, PartialEq, Eq, Structural)]
pub enum Reload {
    /// The loaded content has another fingerprint and is now in effect.
    Applied,
    /// The loaded content has the fingerprint of what is in effect.
    Unchanged,
    /// The load failed, as the first since the last success: to be reported.
    FailedFirst,
    /// The load failed again: already reported.
    FailedAgain,
}

/// The configuration in effect.
pub struct ConfigStore {
    rules: RuleSet,
    exclusions: ExclusionSet,
    rules_status: LoadStatus,
    exclusions_status: LoadStatus,
}

/// The mathematical content of a [`ConfigStore`].
pub struct StoreView {
    pub rules: Seq<Rule>,
    pub exclusions: Seq<char>,
    pub rules_status: LoadStatus,
    pub exclusions_status: LoadStatus,
}

/// The store after a load of the rules file, and what the load did. A failed
/// load keeps the rules and raises the flag. A successful load lowers the
/// flag, and puts the loaded rules in effect if their fingerprint is new.
pub open spec fn rules_reloaded(store: StoreView, loaded: Result<Seq<Rule>, ConfigError>) -> (
    StoreView,
    Reload,
) {
    match loaded {
        Err(_) => (
            StoreView { rules_status: LoadStatus::Failed, ..store },
            if store.rules_status == LoadStatus::Healthy {
                Reload::FailedFirst
            } else {
                Reload::FailedAgain
            },
        ),
        Ok(rules) => if rules_fingerprint(rules) != rules_fingerprint(store.rules) {
            (StoreView { rules, rules_status: LoadStatus::Healthy, ..store }, Reload::Applied)
        } else {
            (StoreView { rules_status: LoadStatus::Healthy, ..store }, Reload::Unchanged)
        },
    }
}

/// The store after a load of the exclusions file, and what the load did.
pub open spec fn exclusions_reloaded(
    store: StoreView,
    loaded: Result<Seq<char>, ConfigError>,
) -> (StoreView, Reload) {
    match loaded {
        Err(_) => (
            StoreView { exclusions_status: LoadStatus::Failed, ..store },
            if store.exclusions_status == LoadStatus::Healthy {
                Reload::FailedFirst
            } else {
                Reload::FailedAgain
            },
        ),
        Ok(chars) => if exclusions_fingerprint(chars) != exclusions_fingerprint(
            store.exclusions,
        ) {
            (
                StoreView { exclusions: chars, exclusions_status: LoadStatus::Healthy, ..store },
                Reload::Applied,
            )
        } else {
            (StoreView { exclusions_status: LoadStatus::Healthy, ..store }, Reload::Unchanged)
        },
    }
}

/// The outcome of a load of the rules file, as a model value.
pub open spec fn loaded_rules_view(loaded: Result<Vec<Replacement>, ConfigError>) -> Result<
    Seq<Rule>,
    ConfigError,
> {
    match loaded {
        Ok(rules) => Ok(rules_of(rules@)),
        Err(e) => Err(e),
    }
}

/// The outcome of a load of the exclusions file, as a model value.
pub open spec fn loaded_exclusions_view(loaded: Result<Vec<char>, ConfigError>) -> Result<
    Seq<char>,
    ConfigError,
> {
    match loaded {
        Ok(chars) => Ok(chars@),
        Err(e) => Err(e),
    }
}

impl View for ConfigStore {
    type V = StoreView;

    closed spec fn view(&self) -> StoreView {
        StoreView {
            rules: self.rules@,
            exclusions: self.exclusions@,
            rules_status: self.rules_status,
            exclusions_status: self.exclusions_status,
        }
    }
}

impl ConfigStore {
    /// A store that holds the configuration loaded at the start, with both
    /// flags lowered.
    pub fn new(rules: Vec<Replacement>, exclusions: Vec<char>) -> (store: ConfigStore)
        ensures
            store@ == (StoreView {
                rules: rules_of(rules@),
                exclusions: exclusions@,
                rules_status: LoadStatus::Healthy,
                exclusions_status: LoadStatus::Healthy,
            }),
    {
        ConfigStore {
            rules: RuleSet::new(rules),
            exclusions: ExclusionSet::new(exclusions),
            rules_status: LoadStatus::Healthy,
            exclusions_status: LoadStatus::Healthy,
        }
    }

    /// The rules in effect.
    pub fn rules(&self) -> (rules: &Vec<Replacement>)
        ensures
            rules_of(rules@) == self@.rules,
    {
        self.rules.rules()
    }

    /// The exclusions in effect.
    pub fn exclusions(&self) -> (chars: &Vec<char>)
        ensures
            chars@ == self@.exclusions,
    {
        self.exclusions.chars()
    }

    /// The fingerprint of the rules in effect.
    pub fn rules_fingerprint(&self) -> (stamp: u64)
        ensures
            stamp == rules_fingerprint(self@.rules),
    {
        self.rules.fingerprint()
    }

    /// The fingerprint of the exclusions in effect.
    pub fn exclusions_fingerprint(&self) -> (stamp: u64)
        ensures
            stamp == exclusions_fingerprint(self@.exclusions),
    {
        self.exclusions.fingerprint()
    }

    /// The failure flag of the rules file.
    pub fn rules_status(&self) -> (status: LoadStatus)
        ensures
            status == self@.rules_status,
    {
        self.rules_status
    }

    /// The failure flag of the exclusions file.
    pub fn exclusions_status(&self) -> (status: LoadStatus)
        ensures
            status == self@.exclusions_status,
    {
        self.exclusions_status
    }

    /// Takes in the outcome of a load of the rules file.
    pub fn reload_rules(&mut self, loaded: Result<Vec<Replacement>, ConfigError>) -> (done: Reload)
        ensures
            (final(self)@, done) == rules_reloaded(old(self)@, loaded_rules_view(loaded)),
    {
        match loaded {
            Err(_) => {
                let first = self.rules_status == LoadStatus::Healthy;
                self.rules_status = LoadStatus::Failed;
                if first {
                    Reload::FailedFirst
                } else {
                    Reload::FailedAgain
                }
            },
            Ok(rules) => {
                let candidate = RuleSet::new(rules);
                self.rules_status = LoadStatus::Healthy;
                if candidate.fingerprint() != self.rules.fingerprint() {
                    self.rules = candidate;
                    Reload::Applied
                } else {
                    Reload::Unchanged
                }
            },
        }
    }

    /// Takes in the outcome of a load of the exclusions file.
    pub fn reload_exclusions(&mut self, loaded: Result<Vec<char>, ConfigError>) -> (done: Reload)
        ensures
            (final(self)@, done) == exclusions_reloaded(
                old(self)@,
                loaded_exclusions_view(loaded),
            ),
    {
        match loaded {
            Err(_) => {
                let first = self.exclusions_status == LoadStatus::Healthy;
                self.exclusions_status = LoadStatus::Failed;
                if first {
                    Reload::FailedFirst
                } else {
                    Reload::FailedAgain
                }
            },
            Ok(chars) => {
                let candidate = ExclusionSet::new(chars);
                self.exclusions_status = LoadStatus::Healthy;
                if candidate.fingerprint() != self.exclusions.fingerprint() {
                    self.exclusions = candidate;
                    Reload::Applied
                } else {
                    Reload::Unchanged
                }
            },
        }
    }
}

} // verus!
