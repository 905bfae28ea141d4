use spef_parser::entry::{
    process_conn_entry, process_dnet_entry, process_header_entry, process_namemap_entry,
    process_port_entry, process_section_entry,
};
use spef_parser::error::{SpefError, SpefErrorKind};
use spef_parser::spef_data::{
    ConnectionDirection, ConnectionType, SectionType, SpefEntryTrait, SpefFloatValue, SpefNet,
};
use spef_parser::syntax::{FloatReading, NodeKind, SourceSpan, SyntaxNode};
use spef_parser::text::strip_sentinels;

fn place(line: usize, col: usize, width: usize) -> SourceSpan {
    SourceSpan { start_line: line, start_col: col, end_line: line, end_col: col + width }
}

fn reading_of(text: &str) -> FloatReading {
    match strip_sentinels(text).parse::<f64>() {
        Ok(value) => FloatReading { printed: value.to_string(), truncated: value as usize },
        Err(_) => FloatReading { printed: String::new(), truncated: 0 },
    }
}

fn word(text: &str, line: usize) -> SyntaxNode {
    SyntaxNode {
        kind: NodeKind::Token,
        text: text.to_string(),
        span: place(line, 40, text.len()),
        children: Vec::new(),
        reading: reading_of(text),
    }
}

fn line_of(kind: NodeKind, text: &str, line: usize, children: Vec<SyntaxNode>) -> SyntaxNode {
    SyntaxNode::new(kind, text.to_string(), place(line, 1, text.len()), children)
}

fn point(x: &str, y: &str, line: usize) -> SyntaxNode {
    line_of(NodeKind::Token, "*C", line, vec![word(x, line), word(y, line)])
}

fn failure(kind: SpefErrorKind, entry: &SyntaxNode) -> SpefError {
    SpefError { kind, span: entry.span }
}

fn conn_fields(line: usize) -> Vec<SyntaxNode> {
    vec![
        word("*I", line),
        word("*33272:Q", line),
        word("O", line),
        point("635.66", "405.835", line),
        word("0", line),
        word("sky130_fd_sc_hd__dfxtp_1", line),
    ]
}

#[test]
fn section_markers() {
    let cases = [
        ("NAME_MAP", SectionType::NAMEMAP),
        ("PORTS", SectionType::PORTS),
        ("CONN", SectionType::CONN),
        ("CAP", SectionType::CAP),
        ("RES", SectionType::RES),
        ("END", SectionType::END),
    ];
    for (name, expected) in cases {
        let marker = line_of(NodeKind::SectionEntry, "*", 5, vec![word(name, 5)]);
        let section = process_section_entry("chip.spef", &marker).unwrap();
        assert_eq!(*section.get_section_type(), expected);
        assert_eq!(section.get_basic_info().get_line_no(), 5);
        assert_eq!(section.get_basic_info().get_file_name(), "chip.spef");
        assert!(section.is_section_entry());
        assert!(!section.is_header_entry());
    }
}

#[test]
fn unknown_section_keyword() {
    for name in ["HEADER", "name_map", "NAMEMAP", "*PORTS", "", "PORT", "ENDS", "D_NET"] {
        let marker = line_of(NodeKind::SectionEntry, "*", 5, vec![word(name, 5)]);
        let err = process_section_entry("chip.spef", &marker).unwrap_err();
        assert_eq!(err, failure(SpefErrorKind::UnknownSectionKeyword, &marker));
        assert_eq!(err.message(), "Unknown section keyword");
    }
    let empty = line_of(NodeKind::SectionEntry, "*", 5, vec![]);
    assert_eq!(
        process_section_entry("chip.spef", &empty).unwrap_err(),
        failure(SpefErrorKind::StringDecodeError, &empty)
    );
}

#[test]
fn header_line() {
    let entry = line_of(
        NodeKind::HeaderEntry,
        "*T_UNIT 1 NS",
        9,
        vec![word("T_UNIT", 9), word("1 NS", 9)],
    );
    let header = process_header_entry("chip.spef", &entry).unwrap();
    assert_eq!(header.get_header_key(), "T_UNIT");
    assert_eq!(header.get_header_value(), "1 NS");
    assert_eq!(header.get_basic_info().get_line_no(), 9);
    assert_eq!(header.get_basic_info().get_file_name(), "chip.spef");
    assert!(header.is_header_entry());
    assert!(!header.is_section_entry());
    assert_eq!(header.clone(), header);
}

#[test]
fn header_line_with_a_field_missing() {
    let only_key = line_of(NodeKind::HeaderEntry, "*DESIGN", 2, vec![word("DESIGN", 2)]);
    let err = process_header_entry("chip.spef", &only_key).unwrap_err();
    assert_eq!(err, failure(SpefErrorKind::StringDecodeError, &only_key));
    assert_eq!(err.message(), "Failed to parse string");
    let nothing = line_of(NodeKind::HeaderEntry, "*", 2, vec![]);
    assert_eq!(
        process_header_entry("chip.spef", &nothing).unwrap_err(),
        failure(SpefErrorKind::StringDecodeError, &nothing)
    );
}

#[test]
fn name_map_line_with_a_whole_index() {
    let entry = line_of(
        NodeKind::NameMapEntry,
        "*43353 us21\\/_1057_",
        77,
        vec![word("*43353", 77), word("us21\\/_1057_", 77)],
    );
    let name = process_namemap_entry("chip.spef", &entry).unwrap();
    assert_eq!(name.get_index(), 43353);
    assert_eq!(name.get_name(), "us21\\/_1057_");
    assert_eq!(name.get_basic_info().get_line_no(), 77);
    assert!(name.is_namemap_entry());
}

#[test]
fn name_map_line_with_a_fraction_in_its_index() {
    let entry = line_of(
        NodeKind::NameMapEntry,
        "*12.75 clk",
        3,
        vec![word("*12.75", 3), word("clk", 3)],
    );
    let name = process_namemap_entry("chip.spef", &entry).unwrap();
    assert_eq!(name.get_index(), 12);
    assert_eq!(name.get_index(), "12.75".parse::<f64>().unwrap() as usize);
    assert_eq!(name.get_name(), "clk");
}

#[test]
fn name_map_index_is_the_float_cut_to_a_whole() {
    let cases = [
        ("*1", 1),
        ("*007", 7),
        ("*1e3", 1000),
        ("*2.5e2", 250),
        ("*0.5", 0),
        ("*99.999999", 99),
        ("*0.99999999999999999999", 1),
        ("*9007199254740993", 9007199254740992),
        ("*-3", 0),
        ("*nan", 0),
        ("*inf", usize::MAX),
        ("*1e30", usize::MAX),
        ("*18446744073709551614", usize::MAX),
    ];
    for (text, index) in cases {
        let entry = line_of(NodeKind::NameMapEntry, text, 3, vec![word(text, 3), word("n", 3)]);
        let name = process_namemap_entry("chip.spef", &entry).unwrap();
        assert_eq!(name.get_index(), index, "index text {:?}", text);
        assert_eq!(name.get_index(), text[1..].parse::<f64>().unwrap() as usize);
    }
}

#[test]
fn name_map_index_is_what_comes_with_the_token() {
    let span = place(3, 1, 2);
    let index = SyntaxNode::number("*7".to_string(), span, "7".to_string(), 7);
    let entry = line_of(NodeKind::NameMapEntry, "*7 n", 3, vec![index, word("n", 3)]);
    assert_eq!(process_namemap_entry("chip.spef", &entry).unwrap().get_index(), 7);
    let index = SyntaxNode::number("*7".to_string(), span, "seven".to_string(), 70);
    let entry = line_of(NodeKind::NameMapEntry, "*7 n", 3, vec![index, word("n", 3)]);
    assert_eq!(process_namemap_entry("chip.spef", &entry).unwrap().get_index(), 70);
}

#[test]
fn name_map_line_that_fails() {
    let bad_index =
        line_of(NodeKind::NameMapEntry, "*x clk", 3, vec![word("*x", 3), word("clk", 3)]);
    assert_eq!(
        process_namemap_entry("chip.spef", &bad_index).unwrap_err(),
        failure(SpefErrorKind::FloatDecodeError, &bad_index)
    );
    let no_name = line_of(NodeKind::NameMapEntry, "*1", 3, vec![word("*1", 3)]);
    assert_eq!(
        process_namemap_entry("chip.spef", &no_name).unwrap_err(),
        failure(SpefErrorKind::StringDecodeError, &no_name)
    );
    let nothing = line_of(NodeKind::NameMapEntry, "", 3, vec![]);
    assert_eq!(
        process_namemap_entry("chip.spef", &nothing).unwrap_err(),
        failure(SpefErrorKind::FloatDecodeError, &nothing)
    );
}

#[test]
fn port_line() {
    let entry = line_of(
        NodeKind::PortsEntry,
        "*37 I *C 633.84 0.242",
        101,
        vec![word("*37", 101), word("I", 101), point("633.84", "0.242", 101)],
    );
    let port = process_port_entry("chip.spef", &entry).unwrap();
    assert_eq!(port.get_name(), "37");
    assert_eq!(port.get_name(), "37".parse::<f64>().unwrap().to_string());
    assert_eq!(*port.get_direction(), ConnectionDirection::INPUT);
    assert_eq!(port.get_coordinates().0.literal().parse::<f64>().unwrap(), 633.84);
    assert_eq!(port.get_coordinates().1.literal().parse::<f64>().unwrap(), 0.242);
    assert_eq!(port.get_basic_info().get_line_no(), 101);
    assert!(port.is_port_entry());
    assert!(!port.is_conn_entry());
    assert_eq!(port.clone(), port);
}

#[test]
fn port_is_named_as_its_index_prints() {
    let cases = [
        ("*37", "37"),
        ("*37.0", "37"),
        ("*1e2", "100"),
        ("*037", "37"),
        ("*+37", "37"),
        ("*1.5", "1.5"),
        ("*.5", "0.5"),
        ("*-0", "-0"),
        ("*INF", "inf"),
        ("*nan", "NaN"),
        ("*1e400", "inf"),
    ];
    for (text, name) in cases {
        let entry = line_of(
            NodeKind::PortsEntry,
            text,
            8,
            vec![word(text, 8), word("O", 8), point("1", "2", 8)],
        );
        let port = process_port_entry("chip.spef", &entry).unwrap();
        assert_eq!(port.get_name(), name, "index text {:?}", text);
        assert_eq!(port.get_name(), text[1..].parse::<f64>().unwrap().to_string());
    }
}

#[test]
fn port_name_is_what_comes_with_the_token() {
    let index = SyntaxNode::number("*37.0".to_string(), place(8, 1, 5), "37".to_string(), 37);
    let entry = line_of(
        NodeKind::PortsEntry,
        "*37.0 I *C 1 2",
        8,
        vec![index, word("I", 8), point("1", "2", 8)],
    );
    assert_eq!(process_port_entry("chip.spef", &entry).unwrap().get_name(), "37");
}

#[test]
fn port_line_fails_on_its_first_bad_field() {
    let all_bad = line_of(
        NodeKind::PortsEntry,
        "*x X *C",
        8,
        vec![word("*x", 8), word("X", 8), point("a", "b", 8)],
    );
    assert_eq!(
        process_port_entry("chip.spef", &all_bad).unwrap_err(),
        failure(SpefErrorKind::FloatDecodeError, &all_bad)
    );
    let bad_direction = line_of(
        NodeKind::PortsEntry,
        "*1 X *C",
        8,
        vec![word("*1", 8), word("X", 8), point("a", "b", 8)],
    );
    assert_eq!(
        process_port_entry("chip.spef", &bad_direction).unwrap_err(),
        failure(SpefErrorKind::EnumDecodeError, &bad_direction)
    );
    let bad_point = line_of(
        NodeKind::PortsEntry,
        "*1 B *C",
        8,
        vec![word("*1", 8), word("B", 8), point("1", "b", 8)],
    );
    assert_eq!(
        process_port_entry("chip.spef", &bad_point).unwrap_err(),
        failure(SpefErrorKind::CoordinatePairError, &bad_point)
    );
    let no_point = line_of(NodeKind::PortsEntry, "*1 B", 8, vec![word("*1", 8), word("B", 8)]);
    assert_eq!(
        process_port_entry("chip.spef", &no_point).unwrap_err(),
        failure(SpefErrorKind::CoordinatePairError, &no_point)
    );
    let no_direction = line_of(NodeKind::PortsEntry, "*1", 8, vec![word("*1", 8)]);
    assert_eq!(
        process_port_entry("chip.spef", &no_direction).unwrap_err(),
        failure(SpefErrorKind::EnumDecodeError, &no_direction)
    );
}

#[test]
fn net_open_line_resets_the_net() {
    let nine = SpefFloatValue::from_literal("9").unwrap();
    let mut current = SpefNet::new(4, "old".to_string(), nine);
    let conn = process_conn_entry(
        "chip.spef",
        &line_of(NodeKind::ConnEntry, "", 5, conn_fields(5)),
    )
    .unwrap();
    current.add_connection(&conn);
    current.add_cap(("a".to_string(), "b".to_string(), SpefFloatValue::zero()));
    current.add_res(("a".to_string(), "b".to_string(), SpefFloatValue::zero()));
    let entry = line_of(
        NodeKind::DnetEntry,
        "*D_NET *1:2 0.000520945",
        30,
        vec![word("*1:2", 30), word("0.000520945", 30)],
    );
    current.add_res(("b".to_string(), "c".to_string(), SpefFloatValue::from_literal("7").unwrap()));
    let net = process_dnet_entry(&entry, &mut current).unwrap();
    assert_eq!(net, current);
    assert_eq!(current.name, "*1:2");
    assert_eq!(current.line_no, 30);
    assert_eq!(current.lcap.literal().parse::<f64>().unwrap(), 0.000520945);
    assert!(current.get_connections().is_empty());
    // what is no connection stays under the net
    assert_eq!(current.get_caps().len(), 1);
    assert_eq!(current.get_caps()[0].0, "a");
    assert_eq!(current.get_ress().len(), 2);
    assert_eq!(current.get_ress()[1].2.literal(), "7");
    assert_eq!(net.get_caps().len(), 1);
    assert_eq!(net.get_ress().len(), 2);
}

#[test]
fn net_open_line_that_fails_leaves_the_net() {
    let nine = SpefFloatValue::from_literal("9").unwrap();
    let mut current = SpefNet::new(4, "old".to_string(), nine);
    let conn = process_conn_entry(
        "chip.spef",
        &line_of(NodeKind::ConnEntry, "", 5, conn_fields(5)),
    )
    .unwrap();
    current.add_connection(&conn);
    let before = current.clone();
    let bad_cap = line_of(
        NodeKind::DnetEntry,
        "*D_NET *1:2 much",
        30,
        vec![word("*1:2", 30), word("much", 30)],
    );
    assert_eq!(
        process_dnet_entry(&bad_cap, &mut current).unwrap_err(),
        failure(SpefErrorKind::FloatDecodeError, &bad_cap)
    );
    assert_eq!(current, before);
    let no_name = line_of(NodeKind::DnetEntry, "*D_NET", 30, vec![]);
    assert_eq!(
        process_dnet_entry(&no_name, &mut current).unwrap_err(),
        failure(SpefErrorKind::StringDecodeError, &no_name)
    );
    assert_eq!(current, before);
    assert_eq!(current.get_connections().len(), 1);
}

#[test]
fn connection_line() {
    let entry = line_of(
        NodeKind::ConnEntry,
        "*I *33272:Q O *C 635.66 405.835 *L 0 *D sky130_fd_sc_hd__dfxtp_1",
        31,
        conn_fields(31),
    );
    let conn = process_conn_entry("chip.spef", &entry).unwrap();
    assert_eq!(conn.conn_type, ConnectionType::INTERNAL);
    assert_eq!(*conn.get_conn_type(), ConnectionType::INTERNAL);
    assert_eq!(conn.conn_direction, ConnectionDirection::OUTPUT);
    assert_eq!(*conn.get_conn_direction(), ConnectionDirection::OUTPUT);
    assert_eq!(conn.name, "*33272:Q");
    assert_eq!(conn.get_name(), "*33272:Q");
    assert_eq!(conn.driving_cell, "sky130_fd_sc_hd__dfxtp_1");
    assert_eq!(conn.load.literal().parse::<f64>().unwrap(), 0.0);
    assert_eq!(conn.layer, 0);
    assert_eq!(conn.get_coordinates().0.literal().parse::<f64>().unwrap(), 635.66);
    assert_eq!(conn.get_coordinates().1.literal().parse::<f64>().unwrap(), 405.835);
    assert_eq!(conn.ll_coordinate.0.literal().parse::<f64>().unwrap(), 0.0);
    assert_eq!(conn.ll_coordinate.1.literal().parse::<f64>().unwrap(), 0.0);
    assert_eq!(conn.ur_coordinate.0.literal().parse::<f64>().unwrap(), 0.0);
    assert_eq!(conn.ur_coordinate.1.literal().parse::<f64>().unwrap(), 0.0);
    assert_eq!(conn.get_driving_cell(), "sky130_fd_sc_hd__dfxtp_1");
    assert_eq!(conn.get_load().literal(), "0");
    assert_eq!(conn.get_layer(), 0);
    assert_eq!(conn.get_ll_coordinate().0.literal(), "0");
    assert_eq!(conn.get_ur_coordinate().1.literal(), "0");
    assert_eq!(conn.get_basic_info().get_line_no(), 31);
    assert_eq!(conn.get_basic_info().get_file_name(), "chip.spef");
    assert!(conn.is_conn_entry());
    assert!(!conn.is_dnet_entry());
    assert!(!conn.is_cap_entry());
    assert!(!conn.is_res_entry());
}

#[test]
fn connection_line_fails_on_its_first_bad_field() {
    let kinds = [
        SpefErrorKind::EnumDecodeError,
        SpefErrorKind::StringDecodeError,
        SpefErrorKind::EnumDecodeError,
        SpefErrorKind::CoordinatePairError,
        SpefErrorKind::FloatDecodeError,
        SpefErrorKind::StringDecodeError,
    ];
    // with only the first `count` fields there, the next one cannot be decoded
    for count in 0..6 {
        let mut fields = conn_fields(31);
        fields.truncate(count);
        let entry = line_of(NodeKind::ConnEntry, "", 31, fields);
        assert_eq!(
            process_conn_entry("chip.spef", &entry).unwrap_err(),
            failure(kinds[count], &entry),
            "with {} fields",
            count
        );
    }
    let bad = [
        (0, word("I", 31), SpefErrorKind::EnumDecodeError),
        (2, word("X", 31), SpefErrorKind::EnumDecodeError),
        (3, point("1", "", 31), SpefErrorKind::CoordinatePairError),
        (3, word("1 2", 31), SpefErrorKind::CoordinatePairError),
        (4, word("heavy", 31), SpefErrorKind::FloatDecodeError),
    ];
    for (at, field, kind) in bad {
        let mut fields = conn_fields(31);
        fields[at] = field;
        let entry = line_of(NodeKind::ConnEntry, "", 31, fields);
        assert_eq!(process_conn_entry("chip.spef", &entry).unwrap_err(), failure(kind, &entry));
    }
    // the first bad field decides
    let mut fields = conn_fields(31);
    fields[4] = word("heavy", 31);
    fields[2] = word("X", 31);
    let entry = line_of(NodeKind::ConnEntry, "", 31, fields);
    assert_eq!(
        process_conn_entry("chip.spef", &entry).unwrap_err(),
        failure(SpefErrorKind::EnumDecodeError, &entry)
    );
}

#[test]
fn fields_beyond_those_of_the_entry_are_not_read() {
    let entry = line_of(
        NodeKind::HeaderEntry,
        "",
        1,
        vec![word("DESIGN", 1), word("top", 1), word("more", 1)],
    );
    let header = process_header_entry("chip.spef", &entry).unwrap();
    assert_eq!(header.get_header_key(), "DESIGN");
    assert_eq!(header.get_header_value(), "top");
}
