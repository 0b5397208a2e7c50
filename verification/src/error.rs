//! What can keep a document from being reported on.

use vstd::prelude::*;
use vstd::string::StringExecFns;

verus! {

/// Why a sequence of bytes could not be read as an SVG document.
#[derive(Debug)]
pub enum ParseFailure {
    /// The text is not UTF-8.
    NotUtf8,
    /// The bytes start like a gzip stream and cannot be unpacked.
    MalformedGzip,
    /// The document has more elements than the parser is willing to hold.
    TooManyElements,
    /// The document's width or height is zero or negative, or it has no
    /// size at all.
    InvalidSize,
    /// The text is not well-formed XML; the parser's words on it.
    Malformed(String),
}

/// Why no report could be made of a document.
#[derive(Debug)]
pub enum ReportError {
    /// The bytes are not a document that can be read.
    Parse(ParseFailure),
    /// The document has no extent that a pixel grid can be made for: a side
    /// is zero, or too long to render.
    DegenerateSize,
}

impl ParseFailure {
    /// The error that this failure is reported as: a document without a
    /// valid size is degenerate, everything else is a parse error.
    pub open spec fn reported_as(self) -> ReportError {
        match self {
            ParseFailure::InvalidSize => ReportError::DegenerateSize,
            other => ReportError::Parse(other),
        }
    }

    /// Computes [`ParseFailure::reported_as`].
    pub fn into_error(self) -> (error: ReportError)
        ensures
            error == self.reported_as(),
    {
        match self {
            ParseFailure::InvalidSize => ReportError::DegenerateSize,
            other => ReportError::Parse(other),
        }
    }

    /// A short description of the failure.
    pub open spec fn text(self) -> Seq<char> {
        match self {
            ParseFailure::NotUtf8 => "the document is not UTF-8 text"@,
            ParseFailure::MalformedGzip => "the document is not a valid gzip stream"@,
            ParseFailure::TooManyElements => "the document has too many elements"@,
            ParseFailure::InvalidSize => "the document has no valid size"@,
            ParseFailure::Malformed(cause) => "the document is malformed: "@ + cause@,
        }
    }

    /// Computes [`ParseFailure::text`].
    pub fn describe(&self) -> (text: String)
        ensures
            text@ == self.text(),
    {
        match self {
            ParseFailure::NotUtf8 => String::from_str("the document is not UTF-8 text"),
            ParseFailure::MalformedGzip => String::from_str(
                "the document is not a valid gzip stream",
            ),
            ParseFailure::TooManyElements => String::from_str("the document has too many elements"),
            ParseFailure::InvalidSize => String::from_str("the document has no valid size"),
            ParseFailure::Malformed(cause) => {
                let mut text: String = String::from_str("the document is malformed: ");
                text.append(cause.as_str());
                text
            },
        }
    }
}

/// A failure is reported as a degenerate size exactly if it is an invalid
/// size; every other failure is reported as the parse error that holds it.
pub proof fn lemma_only_invalid_size_is_degenerate(failure: ParseFailure)
    ensures
        failure.reported_as() is DegenerateSize <==> failure is InvalidSize,
        failure !is InvalidSize ==> failure.reported_as() == ReportError::Parse(failure),
{
}

impl ReportError {
    /// A short description of the error.
    pub open spec fn text(self) -> Seq<char> {
        match self {
            ReportError::Parse(failure) => failure.text(),
            ReportError::DegenerateSize => "the document has no size that can be rendered"@,
        }
    }

    /// Computes [`ReportError::text`].
    pub fn describe(&self) -> (text: String)
        ensures
            text@ == self.text(),
    {
        match self {
            ReportError::Parse(failure) => failure.describe(),
            ReportError::DegenerateSize => String::from_str(
                "the document has no size that can be rendered",
            ),
        }
    }
}

} // verus!
