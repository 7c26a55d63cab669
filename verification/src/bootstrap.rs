//! What a first run has to put in place: the configuration directory and the
//! two files with their default contents.

use vstd::prelude::*;

verus! {

/// Name of the configuration directory below the configuration root.
pub const CONFIG_DIR_NAME: &'static str = "kill-zen-all";

/// The rules file that a first run writes.
pub const DEFAULT_REPLACEMENTS: &'static str =
    "[\n  { \"original\": \"，\", \"replacement\": \", \" },\n  { \"original\": \"．\", \"replacement\": \". \" },\n  { \"original\": \"CRLF\", \"replacement\": \"。\" },\n  { \"original\": \"頚\", \"replacement\": \"頸\" }\n]\n";

/// The exclusions file that a first run writes.
pub const DEFAULT_EXCLUSIONS: &'static str =
    "{\n  \"exclude\": [\"　\", \"！\", \"？\", \"〜\", \"～\"]\n}\n";

/// The configuration root: the override where one is set, else the root that
/// the platform names, else none.
pub fn config_root<P>(override_root: Option<P>, platform_root: Option<P>) -> (root: Option<P>)
    ensures
        root == if override_root is Some {
            override_root
        } else {
            platform_root
        },
{
    match override_root {
        Some(root) => Some(root),
        None => platform_root,
    }
}

/// One thing that a first run puts in place.
#[derive(Debug, Clone, Copy, PartialEq, Eq, Structural)]
pub enum Provision {
    /// Create the configuration directory, with the directories above it.
    CreateDirectory,
    /// Write the default rules file.
    WriteReplacements,
    /// Write the default exclusions file.
    WriteExclusions,
}

/// What has to be put in place, in order: the directory if it is missing,
/// then each file that is missing.
pub open spec fn provisions(directory: bool, replacements: bool, exclusions: bool) -> Seq<
    Provision,
> {
    (if directory {
        Seq::<Provision>::empty()
    } else {
        seq![Provision::CreateDirectory]
    }) + (if replacements {
        Seq::<Provision>::empty()
    } else {
        seq![Provision::WriteReplacements]
    }) + (if exclusions {
        Seq::<Provision>::empty()
    } else {
        seq![Provision::WriteExclusions]
    })
}

/// What a run has to put in place before it loads its configuration, given
/// which of the directory and the two files exist. Nothing that exists is
/// touched.
pub fn create_default_config(directory: bool, replacements: bool, exclusions: bool) -> (steps: Vec<
    Provision,
>)
    ensures
        steps@ == provisions(directory, replacements, exclusions),
{
    let mut steps: Vec<Provision> = Vec::new();
    if !directory {
        steps.push(Provision::CreateDirectory);
    }
    if !replacements {
        steps.push(Provision::WriteReplacements);
    }
    if !exclusions {
        steps.push(Provision::WriteExclusions);
    }
    assert(steps@ =~= provisions(directory, replacements, exclusions));
    steps
}

impl Provision {
    /// The content that the step writes, if it writes a file.
    pub open spec fn content_spec(self) -> Option<&'static str> {
        match self {
            Provision::CreateDirectory => None,
            Provision::WriteReplacements => Some(DEFAULT_REPLACEMENTS),
            Provision::WriteExclusions => Some(DEFAULT_EXCLUSIONS),
        }
    }

    /// The content that the step writes, if it writes a file.
    pub fn content(self) -> (content: Option<&'static str>)
        ensures
            content == self.content_spec(),
    {
        match self {
            Provision::CreateDirectory => None,
            Provision::WriteReplacements => Some(DEFAULT_REPLACEMENTS),
            Provision::WriteExclusions => Some(DEFAULT_EXCLUSIONS),
        }
    }
}

} // verus!
