//! Errors of the clipboard and the probe that decides whether a freshly
//! opened clipboard can be used.

use vstd::prelude::*;
use vstd::string::StringExecFns;

verus! {

/// What is said when the probe could neither read nor write.
pub const PROBE_FAILED: &'static str = "Failed to set empty contents";

/// A failure of the clipboard, with what the provider said about it.
#[derive(Debug, Clone, PartialEq, Eq)]
pub enum ClipboardError {
    /// No usable clipboard could be opened.
    CreateContext(String),
    /// The clipboard could not be written.
    SetContents(String),
    /// The clipboard could not be read.
    GetContents(String),
}

/// The mathematical content of a [`ClipboardError`].
pub enum ClipboardFault {
    CreateContext(Seq<char>),
    SetContents(Seq<char>),
    GetContents(Seq<char>),
}

impl View for ClipboardError {
    type V = ClipboardFault;

    open spec fn view(&self) -> ClipboardFault {
        match self {
            ClipboardError::CreateContext(detail) => ClipboardFault::CreateContext(detail@),
            ClipboardError::SetContents(detail) => ClipboardFault::SetContents(detail@),
            ClipboardError::GetContents(detail) => ClipboardFault::GetContents(detail@),
        }
    }
}

/// The sentence that stands for a failure: what failed, a colon, a space, and
/// what the provider said.
pub open spec fn fault_message(fault: ClipboardFault) -> Seq<char> {
    match fault {
        ClipboardFault::CreateContext(detail) => "Failed to create clipboard provider: "@
            + detail,
        ClipboardFault::SetContents(detail) => "Failed to set clipboard contents: "@ + detail,
        ClipboardFault::GetContents(detail) => "Failed to get clipboard contents: "@ + detail,
    }
}

impl ClipboardError {
    /// The sentence that stands for this failure.
    pub fn message(&self) -> (text: String)
        ensures
            text@ == fault_message(self@),
    {
        match self {
            ClipboardError::CreateContext(detail) => String::from_str(
                "Failed to create clipboard provider: ",
            ).concat(detail.as_str()),
            ClipboardError::SetContents(detail) => String::from_str(
                "Failed to set clipboard contents: ",
            ).concat(detail.as_str()),
            ClipboardError::GetContents(detail) => String::from_str(
                "Failed to get clipboard contents: ",
            ).concat(detail.as_str()),
        }
    }
}

/// Where the probe of a clipboard stands. A provider can be created and still
/// not work, so a new one is read once, and written once with an empty text
/// if the read failed.
#[derive(Debug, Clone, PartialEq, Eq)]
pub enum Probe {
    /// Next: create the provider.
    Create,
    /// Next: read the clipboard.
    Read,
    /// Next: write an empty text.
    WriteEmpty,
    /// The clipboard can be used.
    Usable,
    /// The clipboard cannot be used.
    Unusable(ClipboardError),
}

/// The mathematical content of a [`Probe`].
pub enum ProbeView {
    Create,
    Read,
    WriteEmpty,
    Usable,
    Unusable(ClipboardFault),
}

impl View for Probe {
    type V = ProbeView;

    open spec fn view(&self) -> ProbeView {
        match self {
            Probe::Create => ProbeView::Create,
            Probe::Read => ProbeView::Read,
            Probe::WriteEmpty => ProbeView::WriteEmpty,
            Probe::Usable => ProbeView::Usable,
            Probe::Unusable(error) => ProbeView::Unusable(error@),
        }
    }
}

/// The outcome of one step of the probe, as a model value: `Ok`, or `Err`
/// with what the provider said.
pub open spec fn outcome_view(outcome: Result<(), String>) -> Result<(), Seq<char>> {
    match outcome {
        Ok(_) => Ok(()),
        Err(detail) => Err(detail@),
    }
}

/// Where the probe stands after the step that `probe` asked for ended with
/// `outcome`. A provider that cannot be created is unusable, with what the
/// provider said. A read that works makes the clipboard usable. After a read
/// that fails, a write that works makes it usable too, and a write that fails
/// makes it unusable. A probe that has ended stays where it is.
pub open spec fn probe_after(probe: ProbeView, outcome: Result<(), Seq<char>>) -> ProbeView {
    match probe {
        ProbeView::Create => match outcome {
            Ok(_) => ProbeView::Read,
            Err(detail) => ProbeView::Unusable(ClipboardFault::CreateContext(detail)),
        },
        ProbeView::Read => match outcome {
            Ok(_) => ProbeView::Usable,
            Err(_) => ProbeView::WriteEmpty,
        },
        ProbeView::WriteEmpty => match outcome {
            Ok(_) => ProbeView::Usable,
            Err(_) => ProbeView::Unusable(ClipboardFault::CreateContext(PROBE_FAILED@)),
        },
        ProbeView::Usable => probe,
        ProbeView::Unusable(_) => probe,
    }
}

impl Probe {
    /// The probe of a clipboard that has not been opened yet.
    pub fn start() -> (probe: Probe)
        ensures
            probe@ == ProbeView::Create,
    {
        Probe::Create
    }

    /// Takes in the outcome of the step that the probe asked for.
    pub fn advance(self, outcome: Result<(), String>) -> (next: Probe)
        ensures
            next@ == probe_after(self@, outcome_view(outcome)),
    {
        match self {
            Probe::Create => match outcome {
                Ok(_) => Probe::Read,
                Err(detail) => Probe::Unusable(ClipboardError::CreateContext(detail)),
            },
            Probe::Read => match outcome {
                Ok(_) => Probe::Usable,
                Err(_) => Probe::WriteEmpty,
            },
            Probe::WriteEmpty => match outcome {
                Ok(_) => Probe::Usable,
                Err(_) => Probe::Unusable(
                    ClipboardError::CreateContext(String::from_str(PROBE_FAILED)),
                ),
            },
            Probe::Usable => Probe::Usable,
            Probe::Unusable(error) => Probe::Unusable(error),
        }
    }
}

/// A probe ends after at most three steps, whatever their outcomes.
pub proof fn lemma_probe_ends(
    first: Result<(), Seq<char>>,
    second: Result<(), Seq<char>>,
    third: Result<(), Seq<char>>,
)
    ensures
        ({
            let end = probe_after(
                probe_after(probe_after(ProbeView::Create, first), second),
                third,
            );
            end is Usable || end is Unusable
        }),
{
}

/// A probe finds the clipboard usable exactly when the provider was created
/// and the read or the write that followed worked.
pub proof fn lemma_probe_verdict(
    created: Result<(), Seq<char>>,
    read: Result<(), Seq<char>>,
    written: Result<(), Seq<char>>,
)
    ensures
        probe_after(probe_after(probe_after(ProbeView::Create, created), read), written)
            is Usable <==> created is Ok && (read is Ok || written is Ok),
{
}

} // verus!
