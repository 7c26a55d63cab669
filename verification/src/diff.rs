//! Highlighting of what normalisation changed in a text.

use vstd::prelude::*;
use vstd::string::StringExecFns;

verus! {

/// Terminal sequence that starts green text, used for what was added.
pub const ADDED_START: &'static str = "\x1b[32m";

/// Terminal sequence that starts red text, used for what was removed.
pub const REMOVED_START: &'static str = "\x1b[31m";

/// Terminal sequence that ends coloured text.
pub const COLOUR_END: &'static str = "\x1b[0m";

/// One stretch of a comparison of two texts.
#[derive(Debug, Clone, PartialEq, Eq)]
pub enum DiffPiece {
    /// Text that both hold.
    Same(String),
    /// Text that only the second holds.
    Add(String),
    /// Text that only the first holds.
    Rem(String),
}

/// The mathematical content of a [`DiffPiece`].
pub enum DiffSpan {
    Same(Seq<char>),
    Add(Seq<char>),
    Rem(Seq<char>),
}

impl View for DiffPiece {
    type V = DiffSpan;

    open spec fn view(&self) -> DiffSpan {
        match self {
            DiffPiece::Same(text) => DiffSpan::Same(text@),
            DiffPiece::Add(text) => DiffSpan::Add(text@),
            DiffPiece::Rem(text) => DiffSpan::Rem(text@),
        }
    }
}

/// The stretches held by a list of pieces, in order.
pub open spec fn spans_of(pieces: Seq<DiffPiece>) -> Seq<DiffSpan> {
    pieces.map_values(|p: DiffPiece| p@)
}

/// The field `diffs` of `difference::Changeset::new(original, edited, split)`.
pub uninterp spec fn changeset_diffs(
    original: Seq<char>,
    edited: Seq<char>,
    split: Seq<char>,
) -> Seq<DiffSpan>;

/// Whether the table that a character-wise comparison of `original` and
/// `edited` fills, one machine word for each pair of characters, has a size
/// that an allocation can have.
pub open spec fn diff_fits(original: Seq<char>, edited: Seq<char>) -> bool {
    original.len() * edited.len() * 8 <= isize::MAX
}

/// How one stretch is shown: common text as it is, added text in green,
/// removed text in red.
pub open spec fn render_span(span: DiffSpan) -> Seq<char> {
    match span {
        DiffSpan::Same(text) => text,
        DiffSpan::Add(text) => ADDED_START@ + text + COLOUR_END@,
        DiffSpan::Rem(text) => REMOVED_START@ + text + COLOUR_END@,
    }
}

/// How the stretches are shown, one after the other.
pub open spec fn render_spans(spans: Seq<DiffSpan>) -> Seq<char>
    decreases spans.len(),
{
    if spans.len() == 0 {
        Seq::empty()
    } else {
        render_spans(spans.drop_last()) + render_span(spans.last())
    }
}

/// Compares two texts with `difference::Changeset::new` and hands out its
/// `diffs`, each moved into the piece of the same kind. The contract names
/// the outcome of a comparison that splits between all characters. It asks
/// for a table that can be allocated, since the outside function panics on
/// one that cannot.
#[verifier::external_body]
fn changeset(original: &str, edited: &str, split: &str) -> (pieces: Vec<DiffPiece>)
    requires
        split@.len() == 0,
        diff_fits(original@, edited@),
    ensures
        spans_of(pieces@) == changeset_diffs(original@, edited@, split@),
{
    let found = difference::Changeset::new(original, edited, split);
    found.diffs.into_iter().map(|d| match d {
        difference::Difference::Same(text) => DiffPiece::Same(text),
        difference::Difference::Add(text) => DiffPiece::Add(text),
        difference::Difference::Rem(text) => DiffPiece::Rem(text),
    }).collect()
}

/// Shows the pieces one after the other: common text as it is, added text
/// between [`ADDED_START`] and [`COLOUR_END`], removed text between
/// [`REMOVED_START`] and [`COLOUR_END`].
pub fn render_diff(pieces: &Vec<DiffPiece>) -> (out: String)
    ensures
        out@ == render_spans(spans_of(pieces@)),
{
    let mut out = String::new();
    let mut i: usize = 0;
    assert(render_spans(spans_of(pieces@).take(0)) =~= out@);
    while i < pieces.len()
        invariant
            i <= pieces.len(),
            out@ == render_spans(spans_of(pieces@).take(i as int)),
        decreases pieces.len() - i,
    {
        let ghost before = spans_of(pieces@).take(i as int);
        let ghost after = spans_of(pieces@).take(i + 1);
        let ghost entry = out@;
        assert(after.drop_last() =~= before);
        assert(after.last() == pieces@[i as int]@);
        match &pieces[i] {
            DiffPiece::Same(text) => {
                out.append(text.as_str());
            },
            DiffPiece::Add(text) => {
                out.append(ADDED_START);
                out.append(text.as_str());
                out.append(COLOUR_END);
                assert(out@ =~= entry + (ADDED_START@ + text@ + COLOUR_END@));
            },
            DiffPiece::Rem(text) => {
                out.append(REMOVED_START);
                out.append(text.as_str());
                out.append(COLOUR_END);
                assert(out@ =~= entry + (REMOVED_START@ + text@ + COLOUR_END@));
            },
        }
        i = i + 1;
    }
    assert(spans_of(pieces@).take(i as int) =~= spans_of(pieces@));
    out
}

/// Shows `formatted` against `original`, character by character: what both
/// hold as it is, what was added in green, what was removed in red.
pub fn highlight_diff(original: &str, formatted: &str) -> (out: String)
    requires
        diff_fits(original@, formatted@),
    ensures
        out@ == render_spans(changeset_diffs(original@, formatted@, Seq::empty())),
{
    let split = "";
    proof {
        reveal_strlit("");
        assert(split@ =~= Seq::<char>::empty());
    }
    let pieces = changeset(original, formatted, split);
    render_diff(&pieces)
}

/// [`highlight_diff`] for any two texts: `None` where the comparison table
/// would be larger than an allocation can be.
pub fn try_highlight_diff(original: &str, formatted: &str) -> (out: Option<String>)
    ensures
        out is Some <==> diff_fits(original@, formatted@),
        out matches Some(shown) ==> shown@ == render_spans(
            changeset_diffs(original@, formatted@, Seq::empty()),
        ),
{
    let n: usize = original.unicode_len();
    let m: usize = formatted.unicode_len();
    let cells: usize = (isize::MAX as usize) / 8;
    if m == 0 || n <= cells / m {
        proof {
            lemma_fits(n as int, m as int, cells as int);
        }
        Some(highlight_diff(original, formatted))
    } else {
        proof {
            lemma_fits(n as int, m as int, cells as int);
        }
        None
    }
}

/// A table of `n` rows and `m` columns of eight bytes each takes no more than
/// `8 * cells + 7` bytes exactly when it has no column, or no more rows than
/// `cells / m`.
proof fn lemma_fits(n: int, m: int, cells: int)
    requires
        0 <= n,
        0 <= m,
        0 <= cells,
    ensures
        (m == 0 || n <= cells / m) <==> n * m * 8 <= 8 * cells + 7,
{
    if m > 0 {
        assert(n <= cells / m <==> n * m <= cells) by (nonlinear_arith)
            requires
                0 <= n,
                0 < m,
                0 <= cells,
        ;
    } else {
        assert(n * m == 0) by (nonlinear_arith)
            requires
                m == 0,
        ;
    }
}

} // verus!
