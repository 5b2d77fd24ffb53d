//! What a failed parse of a whole text reports.

use vstd::prelude::*;
use crate::syntax::util::parsed_view;

verus! {

/// Why a text is not what it was parsed as.
#[derive(Debug, Clone, PartialEq, Eq)]
pub enum ParseErrorKind {
    /// The text does not start with what was expected.
    NoMatch,
    /// The text starts with what was expected, and more follows.
    TrailingInput,
    /// Two operators stand together that need parentheses. The message
    /// names the classes of both.
    Precedence(String),
}

/// A failed parse: the reason, and the byte offset where the text stopped
/// making sense.
#[derive(Debug, Clone, PartialEq, Eq)]
pub struct ParseError {
    pub position: usize,
    pub kind: ParseErrorKind,
}

/// A `ParseErrorKind` as mathematics.
pub enum ParseErrorKindView {
    NoMatch,
    TrailingInput,
    Precedence(Seq<char>),
}

/// A `ParseError` as mathematics.
pub struct ParseErrorView {
    pub position: int,
    pub kind: ParseErrorKindView,
}

impl View for ParseErrorKind {
    type V = ParseErrorKindView;

    open spec fn view(&self) -> ParseErrorKindView {
        match self {
            ParseErrorKind::NoMatch => ParseErrorKindView::NoMatch,
            ParseErrorKind::TrailingInput => ParseErrorKindView::TrailingInput,
            ParseErrorKind::Precedence(msg) => ParseErrorKindView::Precedence(msg@),
        }
    }
}

impl View for ParseError {
    type V = ParseErrorView;

    open spec fn view(&self) -> ParseErrorView {
        ParseErrorView { position: self.position as int, kind: self.kind@ }
    }
}

/// The result of a parse of a whole text, as mathematics.
pub open spec fn result_view<T: View>(r: Result<T, ParseError>) -> Result<T::V, ParseErrorView> {
    match r {
        Ok(t) => Ok(t@),
        Err(e) => Err(e@),
    }
}

/// What a parse of a whole text of `len` bytes gives, from what the
/// grammar rule gave at offset 0. The tree, if the rule matched and
/// consumed everything. `TrailingInput` at the offset where the rule
/// stopped, if it stopped early. `NoMatch` at offset 0 if it did not match.
pub open spec fn spec_complete<V>(r: Option<(V, int)>, len: int) -> Result<V, ParseErrorView> {
    match r {
        Some((v, end)) => if end == len {
            Ok(v)
        } else {
            Err(ParseErrorView { position: end, kind: ParseErrorKindView::TrailingInput })
        },
        None => Err(ParseErrorView { position: 0, kind: ParseErrorKindView::NoMatch }),
    }
}

/// Turns what a grammar rule gave at offset 0 into the result of a parse of
/// the whole text of `len` bytes.
pub fn complete<T: View>(r: Option<(T, usize)>, len: usize) -> (out: Result<T, ParseError>)
    ensures
        result_view(out) == spec_complete(parsed_view(r), len as int),
        out matches Ok(t) ==> r matches Some((found, _)) && found == t,
{
    match r {
        Some((t, end)) => if end == len {
            Ok(t)
        } else {
            Err(ParseError { position: end, kind: ParseErrorKind::TrailingInput })
        },
        None => Err(ParseError { position: 0, kind: ParseErrorKind::NoMatch }),
    }
}

} // verus!
