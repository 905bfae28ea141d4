use crate::error::{SpefError, SpefErrorKind};
use crate::number::is_number_literal;
use crate::spef_data::{pair_view, ConnectionDirection, ConnectionType, SpefFloatValue};
use crate::syntax::SyntaxNode;
use crate::text::{same_text, strip_sentinels, without_sentinels};
use vstd::prelude::*;

verus! {

/// `result` is what `expected` says: the same failure, or a value with the
/// expected view.
pub open spec fn agrees<T: View, E>(result: Result<T, E>, expected: Result<T::V, E>) -> bool {
    match result {
        Ok(value) => expected == Ok::<T::V, E>(value@),
        Err(e) => expected == Err::<T::V, E>(e),
    }
}

/// The failure of kind `kind` at `node`.
pub open spec fn failure_at(node: SyntaxNode, kind: SpefErrorKind) -> SpefError {
    SpefError { kind, span: node.span }
}

/// The number that `node` spells: its text without sentinels, where that is
/// a number literal.
pub open spec fn float_of(node: SyntaxNode) -> Result<Seq<char>, SpefError> {
    let cleaned = without_sentinels(node.text@);
    if is_number_literal(cleaned) {
        Ok(cleaned)
    } else {
        Err(failure_at(node, SpefErrorKind::FloatDecodeError))
    }
}

/// The text of `node`, as it stands.
pub open spec fn string_of(node: SyntaxNode) -> Result<Seq<char>, SpefError> {
    Ok(node.text@)
}

/// The point that `node` spells: the numbers of its two children.
pub open spec fn coordinates_of(node: SyntaxNode) -> Result<(Seq<char>, Seq<char>), SpefError> {
    if node.children@.len() == 2 && float_of(node.children@[0]) is Ok && float_of(
        node.children@[1],
    ) is Ok {
        Ok((float_of(node.children@[0])->Ok_0, float_of(node.children@[1])->Ok_0))
    } else {
        Err(failure_at(node, SpefErrorKind::CoordinatePairError))
    }
}

/// The direction that `node` spells: `I`, `O` or `B` and nothing else.
pub open spec fn direction_of(node: SyntaxNode) -> Result<ConnectionDirection, SpefError> {
    if node.text@ == "I"@ {
        Ok(ConnectionDirection::INPUT)
    } else if node.text@ == "O"@ {
        Ok(ConnectionDirection::OUTPUT)
    } else if node.text@ == "B"@ {
        Ok(ConnectionDirection::INOUT)
    } else {
        Err(failure_at(node, SpefErrorKind::EnumDecodeError))
    }
}

/// The connection type that `node` spells: `*I` or `*P` and nothing else.
pub open spec fn conn_type_of(node: SyntaxNode) -> Result<ConnectionType, SpefError> {
    if node.text@ == "*I"@ {
        Ok(ConnectionType::INTERNAL)
    } else if node.text@ == "*P"@ {
        Ok(ConnectionType::EXTERNAL)
    } else {
        Err(failure_at(node, SpefErrorKind::EnumDecodeError))
    }
}

/// Decodes a number: every sentinel is removed from the text of the node,
/// and what is left must be a number literal.
pub fn process_float(node: &SyntaxNode) -> (r: Result<SpefFloatValue, SpefError>)
    ensures
        agrees(r, float_of(*node)),
{
    let cleaned = strip_sentinels(node.text.as_str());
    match SpefFloatValue::from_literal(cleaned.as_str()) {
        Some(value) => Ok(value),
        None => Err(SpefError::new(SpefErrorKind::FloatDecodeError, node.span)),
    }
}

/// Decodes a text field: the text of the node, unchanged.
pub fn process_string(node: &SyntaxNode) -> (r: Result<String, SpefError>)
    ensures
        agrees(r, string_of(*node)),
        r is Ok,
{
    Ok(node.text.clone())
}

/// Decodes a coordinate pair from a node with exactly two numbers below it.
pub fn process_coordinates(node: &SyntaxNode) -> (r: Result<
    (SpefFloatValue, SpefFloatValue),
    SpefError,
>)
    ensures
        match r {
            Ok(pair) => coordinates_of(*node) == Ok::<_, SpefError>(pair_view(pair)),
            Err(e) => coordinates_of(*node) == Err::<(Seq<char>, Seq<char>), _>(e),
        },
{
    if node.children.len() != 2 {
        return Err(SpefError::new(SpefErrorKind::CoordinatePairError, node.span));
    }
    match (process_float(&node.children[0]), process_float(&node.children[1])) {
        (Ok(x), Ok(y)) => Ok((x, y)),
        _ => Err(SpefError::new(SpefErrorKind::CoordinatePairError, node.span)),
    }
}

/// Decodes the direction of a connection.
pub fn process_conn_dir_enum(node: &SyntaxNode) -> (r: Result<ConnectionDirection, SpefError>)
    ensures
        r == direction_of(*node),
{
    let text = node.text.as_str();
    if same_text(text, "I") {
        Ok(ConnectionDirection::INPUT)
    } else if same_text(text, "O") {
        Ok(ConnectionDirection::OUTPUT)
    } else if same_text(text, "B") {
        Ok(ConnectionDirection::INOUT)
    } else {
        Err(SpefError::new(SpefErrorKind::EnumDecodeError, node.span))
    }
}

/// Decodes the type of a connection.
pub fn process_conn_type_enum(node: &SyntaxNode) -> (r: Result<ConnectionType, SpefError>)
    ensures
        r == conn_type_of(*node),
{
    let text = node.text.as_str();
    if same_text(text, "*I") {
        Ok(ConnectionType::INTERNAL)
    } else if same_text(text, "*P") {
        Ok(ConnectionType::EXTERNAL)
    } else {
        Err(SpefError::new(SpefErrorKind::EnumDecodeError, node.span))
    }
}

} // verus!
