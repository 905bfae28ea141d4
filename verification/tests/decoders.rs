use spef_parser::decode::{
    process_conn_dir_enum, process_conn_type_enum, process_coordinates, process_float,
    process_string,
};
use spef_parser::error::{SpefError, SpefErrorKind};
use spef_parser::spef_data::{ConnectionDirection, ConnectionType};
use spef_parser::syntax::{NodeKind, SourceSpan, SyntaxNode};

fn at(line: usize, col: usize, width: usize) -> SourceSpan {
    SourceSpan { start_line: line, start_col: col, end_line: line, end_col: col + width }
}

fn leaf(text: &str, line: usize, col: usize) -> SyntaxNode {
    SyntaxNode::new(NodeKind::Token, text.to_string(), at(line, col, text.len()), Vec::new())
}

fn node(text: &str, line: usize, col: usize, children: Vec<SyntaxNode>) -> SyntaxNode {
    SyntaxNode::new(NodeKind::Token, text.to_string(), at(line, col, text.len()), children)
}

#[test]
fn float_with_and_without_sentinel_is_the_same_value() {
    let marked = process_float(&leaf("*1.7460", 3, 1)).unwrap();
    let plain = process_float(&leaf("1.7460", 9, 4)).unwrap();
    assert_eq!(marked, plain);
    assert_eq!(marked.literal(), "1.7460");
    assert_eq!(marked.literal().parse::<f64>().unwrap(), 1.7460);
    assert_eq!(plain.literal().parse::<f64>().unwrap(), 1.7460);
}

#[test]
fn float_strips_every_sentinel() {
    let value = process_float(&leaf("*6*33.8*4*", 1, 1)).unwrap();
    assert_eq!(value.literal(), "633.84");
    assert_eq!(value.literal().parse::<f64>().unwrap(), 633.84);
}

#[test]
fn float_failure_carries_the_span_of_the_token() {
    for text in ["", "*", "**", "abc", "1e", "1e+", "*1.2.3", "1 2", "0x1F", "*e5"] {
        let token = leaf(text, 14, 7);
        let err = process_float(&token).unwrap_err();
        assert_eq!(
            err,
            SpefError { kind: SpefErrorKind::FloatDecodeError, span: at(14, 7, text.len()) }
        );
        assert_eq!(err.line_no(), 14);
        assert_eq!(err.message(), "Failed to parse float");
    }
}

#[test]
fn string_is_the_text_verbatim() {
    let cell = "sky130_fd_sc_hd__dfxtp_2";
    assert_eq!(process_string(&leaf(cell, 1, 1)).unwrap(), cell);
    assert_eq!(process_string(&leaf("\"top\"", 1, 1)).unwrap(), "\"top\"");
    assert_eq!(process_string(&leaf("*33272:Q", 1, 1)).unwrap(), "*33272:Q");
    assert_eq!(process_string(&leaf("", 1, 1)).unwrap(), "");
    assert_eq!(process_string(&leaf("us21\\/_1057_", 1, 1)).unwrap(), "us21\\/_1057_");
}

#[test]
fn coordinates_of_a_well_formed_pair() {
    let tight = node("*C 1.5 2.25", 4, 9, vec![leaf("1.5", 4, 12), leaf("2.25", 4, 16)]);
    let loose = node("*C   1.5\t 2.25", 8, 2, vec![leaf("1.5", 8, 7), leaf("2.25", 8, 13)]);
    let a = process_coordinates(&tight).unwrap();
    let b = process_coordinates(&loose).unwrap();
    assert_eq!(a, b);
    assert_eq!(a.0.literal().parse::<f64>().unwrap(), 1.5);
    assert_eq!(a.1.literal().parse::<f64>().unwrap(), 2.25);
    assert_eq!(process_coordinates(&tight).unwrap(), a);
}

#[test]
fn coordinates_want_exactly_two_numbers() {
    let expect =
        |n: &SyntaxNode| SpefError { kind: SpefErrorKind::CoordinatePairError, span: n.span };
    let none = node("*C", 5, 3, vec![]);
    assert_eq!(process_coordinates(&none).unwrap_err(), expect(&none));
    let one = node("*C 1.5", 5, 3, vec![leaf("1.5", 5, 6)]);
    assert_eq!(process_coordinates(&one).unwrap_err(), expect(&one));
    let three = node(
        "*C 1 2 3",
        5,
        3,
        vec![leaf("1", 5, 6), leaf("2", 5, 8), leaf("3", 5, 10)],
    );
    assert_eq!(process_coordinates(&three).unwrap_err(), expect(&three));
    let bad_x = node("*C x 2", 5, 3, vec![leaf("x", 5, 6), leaf("2", 5, 8)]);
    assert_eq!(process_coordinates(&bad_x).unwrap_err(), expect(&bad_x));
    let bad_y = node("*C 1 y", 5, 3, vec![leaf("1", 5, 6), leaf("y", 5, 8)]);
    let err = process_coordinates(&bad_y).unwrap_err();
    assert_eq!(err, expect(&bad_y));
    assert_eq!(err.message(), "Failed to parse xy_coordinates");
}

#[test]
fn direction_is_one_of_three_letters() {
    assert_eq!(process_conn_dir_enum(&leaf("I", 1, 1)), Ok(ConnectionDirection::INPUT));
    assert_eq!(process_conn_dir_enum(&leaf("O", 1, 1)), Ok(ConnectionDirection::OUTPUT));
    assert_eq!(process_conn_dir_enum(&leaf("B", 1, 1)), Ok(ConnectionDirection::INOUT));
}

#[test]
fn direction_is_exact() {
    for text in ["i", "o", "b", "X", "", "II", "I ", " I", "IO", "*I", "INPUT", "In", "0", "Ｉ"] {
        let token = leaf(text, 30, 11);
        assert_eq!(
            process_conn_dir_enum(&token),
            Err(SpefError { kind: SpefErrorKind::EnumDecodeError, span: token.span }),
            "text {:?}",
            text
        );
    }
}

#[test]
fn connection_type_is_one_of_two_marks() {
    assert_eq!(process_conn_type_enum(&leaf("*I", 1, 1)), Ok(ConnectionType::INTERNAL));
    assert_eq!(process_conn_type_enum(&leaf("*P", 1, 1)), Ok(ConnectionType::EXTERNAL));
    for text in ["I", "P", "*i", "*p", "**I", "*I ", "", "*", "*IP", "*X"] {
        let token = leaf(text, 2, 5);
        let err = process_conn_type_enum(&token).unwrap_err();
        assert_eq!(err, SpefError { kind: SpefErrorKind::EnumDecodeError, span: token.span });
        assert_eq!(err.message(), "Failed to parse enum literal");
    }
}
