use vstd::prelude::*;

verus! {

/// Where a piece of the document sits: first and last position, lines and
/// columns counted from one.
#[derive(Clone, Copy, Debug, PartialEq, Eq, Structural)]
pub struct SourceSpan {
    pub start_line: usize,
    pub start_col: usize,
    pub end_line: usize,
    pub end_col: usize,
}

/// The grammar production that a syntax node was matched by.
#[derive(Clone, Copy, Debug, PartialEq, Eq, Structural)]
pub enum NodeKind {
    HeaderEntry,
    NameMapEntry,
    PortsEntry,
    DnetEntry,
    ConnEntry,
    CapEntry,
    ResEntry,
    EndOfInput,
    SectionEntry,
    /// Any production below an entry: a number, a name, a coordinate pair.
    Token,
}

/// What 64-bit floating point makes of the number that a token spells,
/// once the sentinels are taken from its text: how the number prints, and
/// the number cut to a whole and held to the range of an index. The library
/// holds no floating point, so the tokenizer works both out and hands them
/// over with the token. They mean nothing where the token spells no number.
#[derive(Debug, PartialEq, Eq)]
pub struct FloatReading {
    pub printed: String,
    pub truncated: usize,
}

/// One node of the tokenizer's output: the production, the text it matched,
/// where it matched, the nodes matched inside it, in order, and what
/// floating point makes of the text.
#[derive(Debug)]
pub struct SyntaxNode {
    pub kind: NodeKind,
    pub text: String,
    pub span: SourceSpan,
    pub children: Vec<SyntaxNode>,
    pub reading: FloatReading,
}

impl NodeKind {
    /// The kinds that may stand in the stream of entries of a document.
    pub open spec fn is_entry(self) -> bool {
        match self {
            NodeKind::SectionEntry | NodeKind::Token => false,
            _ => true,
        }
    }

    /// Tells whether a node of this kind may stand in the stream of entries.
    pub fn can_be_entry(&self) -> (r: bool)
        ensures
            r == self.is_entry(),
    {
        match self {
            NodeKind::SectionEntry | NodeKind::Token => false,
            _ => true,
        }
    }
}

impl SyntaxNode {
    /// A node that spells no number.
    pub fn new(kind: NodeKind, text: String, span: SourceSpan, children: Vec<SyntaxNode>) -> (node:
        SyntaxNode)
        ensures
            node.kind == kind,
            node.text == text,
            node.span == span,
            node.children == children,
            node.reading.printed@ == Seq::<char>::empty(),
            node.reading.truncated == 0,
    {
        SyntaxNode {
            kind,
            text,
            span,
            children,
            reading: FloatReading { printed: String::new(), truncated: 0 },
        }
    }

    /// A token that spells a number which prints as `printed` and has
    /// `truncated` for its whole part.
    pub fn number(text: String, span: SourceSpan, printed: String, truncated: usize) -> (node:
        SyntaxNode)
        ensures
            node.kind == NodeKind::Token,
            node.text == text,
            node.span == span,
            node.children@ == Seq::<SyntaxNode>::empty(),
            node.reading == (FloatReading { printed, truncated }),
    {
        SyntaxNode {
            kind: NodeKind::Token,
            text,
            span,
            children: Vec::new(),
            reading: FloatReading { printed, truncated },
        }
    }

    /// The line on which the node starts.
    pub fn line_no(&self) -> (line: usize)
        ensures
            line == self.span.start_line,
    {
        self.span.start_line
    }
}

} // verus!
