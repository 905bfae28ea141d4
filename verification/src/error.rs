use crate::syntax::SourceSpan;
use vstd::prelude::*;
use vstd::string::StringExecFns;

verus! {

/// What went wrong while an entry was decoded.
#[derive(Clone, Copy, Debug, PartialEq, Eq, Structural)]
pub enum SpefErrorKind {
    /// The text, once its sentinels are removed, is no number.
    FloatDecodeError,
    /// A text field is absent.
    StringDecodeError,
    /// A direction or a connection type is none of the known letters.
    EnumDecodeError,
    /// A coordinate pair has not exactly two numbers.
    CoordinatePairError,
    /// A section name is none of the known keywords.
    UnknownSectionKeyword,
    /// A connection stands where no net has been opened.
    ConnectionOutsideNet,
}

/// A failure of the load: what went wrong and the place to report.
#[derive(Clone, Copy, Debug, PartialEq, Eq, Structural)]
pub struct SpefError {
    pub kind: SpefErrorKind,
    pub span: SourceSpan,
}

impl SpefErrorKind {
    /// The sentence that describes the kind of failure.
    pub open spec fn description(self) -> Seq<char> {
        match self {
            SpefErrorKind::FloatDecodeError => "Failed to parse float"@,
            SpefErrorKind::StringDecodeError => "Failed to parse string"@,
            SpefErrorKind::EnumDecodeError => "Failed to parse enum literal"@,
            SpefErrorKind::CoordinatePairError => "Failed to parse xy_coordinates"@,
            SpefErrorKind::UnknownSectionKeyword => "Unknown section keyword"@,
            SpefErrorKind::ConnectionOutsideNet => "Connection outside of a net"@,
        }
    }
}

impl SpefError {
    pub fn new(kind: SpefErrorKind, span: SourceSpan) -> (e: SpefError)
        ensures
            e == (SpefError { kind, span }),
    {
        SpefError { kind, span }
    }

    /// The same failure, reported at the place of an enclosing node.
    pub fn at(self, span: SourceSpan) -> (e: SpefError)
        ensures
            e == (SpefError { kind: self.kind, span }),
    {
        SpefError { kind: self.kind, span }
    }

    /// The line to report.
    pub fn line_no(&self) -> (line: usize)
        ensures
            line == self.span.start_line,
    {
        self.span.start_line
    }

    /// A sentence for the user.
    pub fn message(&self) -> (s: String)
        ensures
            s@ == self.kind.description(),
    {
        match self.kind {
            SpefErrorKind::FloatDecodeError => String::from_str("Failed to parse float"),
            SpefErrorKind::StringDecodeError => String::from_str("Failed to parse string"),
            SpefErrorKind::EnumDecodeError => String::from_str("Failed to parse enum literal"),
            SpefErrorKind::CoordinatePairError => String::from_str(
                "Failed to parse xy_coordinates",
            ),
            SpefErrorKind::UnknownSectionKeyword => String::from_str("Unknown section keyword"),
            SpefErrorKind::ConnectionOutsideNet => String::from_str("Connection outside of a net"),
        }
    }
}

} // verus!
