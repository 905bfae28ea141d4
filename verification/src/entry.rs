use crate::decode::{
    agrees, conn_type_of, coordinates_of, direction_of, failure_at, float_of, process_conn_dir_enum,
    process_conn_type_enum, process_coordinates, process_float, process_string, string_of,
};
use crate::error::{SpefError, SpefErrorKind};
use crate::spef_data::{
    origin, pair_view, BasicInfoView, ConnEntryView, ConnectionDirection, ConnectionType,
    HeaderEntryView, NameMapEntryView, NetView, PortEntryView, SectionEntryView, SectionType,
    SpefConnEntry, SpefFloatValue, SpefHeaderEntry, SpefNameMapEntry, SpefNet, SpefPortEntry,
    SpefSectionEntry,
};
use crate::syntax::SyntaxNode;
use crate::text::same_text;
use vstd::prelude::*;

verus! {

/// The outcome of decoding a field, reported at the entry it belongs to.
pub open spec fn at_entry<T>(outcome: Result<T, SpefError>, entry: SyntaxNode) -> Result<
    T,
    SpefError,
> {
    match outcome {
        Ok(value) => Ok(value),
        Err(e) => Err(failure_at(entry, e.kind)),
    }
}

/// The `i`-th field of `entry` as a text; a field that is absent cannot be
/// decoded.
pub open spec fn string_field(entry: SyntaxNode, i: int) -> Result<Seq<char>, SpefError> {
    if 0 <= i < entry.children@.len() {
        at_entry(string_of(entry.children@[i]), entry)
    } else {
        Err(failure_at(entry, SpefErrorKind::StringDecodeError))
    }
}

/// The `i`-th field of `entry` as a number.
pub open spec fn float_field(entry: SyntaxNode, i: int) -> Result<Seq<char>, SpefError> {
    if 0 <= i < entry.children@.len() {
        at_entry(float_of(entry.children@[i]), entry)
    } else {
        Err(failure_at(entry, SpefErrorKind::FloatDecodeError))
    }
}

/// The `i`-th field of `entry` as a direction.
pub open spec fn direction_field(entry: SyntaxNode, i: int) -> Result<
    ConnectionDirection,
    SpefError,
> {
    if 0 <= i < entry.children@.len() {
        at_entry(direction_of(entry.children@[i]), entry)
    } else {
        Err(failure_at(entry, SpefErrorKind::EnumDecodeError))
    }
}

/// The `i`-th field of `entry` as a connection type.
pub open spec fn conn_type_field(entry: SyntaxNode, i: int) -> Result<ConnectionType, SpefError> {
    if 0 <= i < entry.children@.len() {
        at_entry(conn_type_of(entry.children@[i]), entry)
    } else {
        Err(failure_at(entry, SpefErrorKind::EnumDecodeError))
    }
}

/// The `i`-th field of `entry` as a coordinate pair.
pub open spec fn coordinates_field(entry: SyntaxNode, i: int) -> Result<
    (Seq<char>, Seq<char>),
    SpefError,
> {
    if 0 <= i < entry.children@.len() {
        at_entry(coordinates_of(entry.children@[i]), entry)
    } else {
        Err(failure_at(entry, SpefErrorKind::CoordinatePairError))
    }
}

/// The section that a keyword opens.
pub open spec fn section_type_of(name: Seq<char>) -> Option<SectionType> {
    if name == "NAME_MAP"@ {
        Some(SectionType::NAMEMAP)
    } else if name == "PORTS"@ {
        Some(SectionType::PORTS)
    } else if name == "CONN"@ {
        Some(SectionType::CONN)
    } else if name == "CAP"@ {
        Some(SectionType::CAP)
    } else if name == "RES"@ {
        Some(SectionType::RES)
    } else if name == "END"@ {
        Some(SectionType::END)
    } else {
        None
    }
}

/// What a section marker decodes to: fields are the section name.
pub open spec fn section_of(file: Seq<char>, entry: SyntaxNode) -> Result<
    SectionEntryView,
    SpefError,
> {
    match string_field(entry, 0) {
        Err(e) => Err(e),
        Ok(name) => match section_type_of(name) {
            Some(section_type) => Ok(
                SectionEntryView {
                    basic_info: BasicInfoView { file_name: file, line_no: entry.span.start_line },
                    section_type,
                },
            ),
            None => Err(failure_at(entry, SpefErrorKind::UnknownSectionKeyword)),
        },
    }
}

/// What a header line decodes to: fields are the keyword and its value.
pub open spec fn header_of(file: Seq<char>, entry: SyntaxNode) -> Result<
    HeaderEntryView,
    SpefError,
> {
    match string_field(entry, 0) {
        Err(e) => Err(e),
        Ok(header_key) => match string_field(entry, 1) {
            Err(e) => Err(e),
            Ok(header_value) => Ok(
                HeaderEntryView {
                    basic_info: BasicInfoView { file_name: file, line_no: entry.span.start_line },
                    header_key,
                    header_value,
                },
            ),
        },
    }
}

/// What a line of the name map decodes to: fields are the index, a number
/// of which the whole part counts as floating point cuts it, and the name.
pub open spec fn namemap_of(file: Seq<char>, entry: SyntaxNode) -> Result<
    NameMapEntryView,
    SpefError,
> {
    match float_field(entry, 0) {
        Err(e) => Err(e),
        Ok(_) => match string_field(entry, 1) {
            Err(e) => Err(e),
            Ok(name) => Ok(
                NameMapEntryView {
                    basic_info: BasicInfoView { file_name: file, line_no: entry.span.start_line },
                    index: entry.children@[0].reading.truncated,
                    name,
                },
            ),
        },
    }
}

/// What a line of the ports section decodes to: fields are the index, a
/// number that names the port as floating point prints it, the direction
/// and the place.
pub open spec fn port_of(file: Seq<char>, entry: SyntaxNode) -> Result<PortEntryView, SpefError> {
    match float_field(entry, 0) {
        Err(e) => Err(e),
        Ok(_) => match direction_field(entry, 1) {
            Err(e) => Err(e),
            Ok(direction) => match coordinates_field(entry, 2) {
                Err(e) => Err(e),
                Ok(coordinates) => Ok(
                    PortEntryView {
                        basic_info: BasicInfoView {
                            file_name: file,
                            line_no: entry.span.start_line,
                        },
                        name: entry.children@[0].reading.printed@,
                        direction,
                        coordinates,
                    },
                ),
            },
        },
    }
}

/// The net that a net-open line starts: fields are the name and the lumped
/// capacitance; nothing is recorded under the net yet.
pub open spec fn net_of(entry: SyntaxNode) -> Result<NetView, SpefError> {
    match string_field(entry, 0) {
        Err(e) => Err(e),
        Ok(name) => match float_field(entry, 1) {
            Err(e) => Err(e),
            Ok(lcap) => Ok(
                NetView {
                    name,
                    line_no: entry.span.start_line,
                    lcap,
                    connection: Seq::empty(),
                    caps: Seq::empty(),
                    ress: Seq::empty(),
                },
            ),
        },
    }
}

/// The net `current` once a net-open line has been decoded into it: under
/// the name, the line and the capacitance of the entry, without its
/// connections, and with all else that it held.
pub open spec fn net_onto(entry: SyntaxNode, current: NetView) -> Result<NetView, SpefError> {
    match net_of(entry) {
        Err(e) => Err(e),
        Ok(net) => Ok(
            NetView {
                name: net.name,
                line_no: net.line_no,
                lcap: net.lcap,
                connection: Seq::empty(),
                ..current
            },
        ),
    }
}

/// What a connection line decodes to: fields are the connection type, the
/// pin, the direction, the place, the load and the driving cell.
pub open spec fn conn_of(file: Seq<char>, entry: SyntaxNode) -> Result<ConnEntryView, SpefError> {
    match conn_type_field(entry, 0) {
        Err(e) => Err(e),
        Ok(conn_type) => match string_field(entry, 1) {
            Err(e) => Err(e),
            Ok(name) => match direction_field(entry, 2) {
                Err(e) => Err(e),
                Ok(conn_direction) => match coordinates_field(entry, 3) {
                    Err(e) => Err(e),
                    Ok(coordinates) => match float_field(entry, 4) {
                        Err(e) => Err(e),
                        Ok(load) => match string_field(entry, 5) {
                            Err(e) => Err(e),
                            Ok(driving_cell) => Ok(
                                ConnEntryView {
                                    basic_info: BasicInfoView {
                                        file_name: file,
                                        line_no: entry.span.start_line,
                                    },
                                    conn_type,
                                    conn_direction,
                                    name,
                                    driving_cell,
                                    load,
                                    layer: 0,
                                    coordinates,
                                    ll_coordinate: origin(),
                                    ur_coordinate: origin(),
                                },
                            ),
                        },
                    },
                },
            },
        },
    }
}

fn read_string_field(entry: &SyntaxNode, i: usize) -> (r: Result<String, SpefError>)
    ensures
        agrees(r, string_field(*entry, i as int)),
{
    if i >= entry.children.len() {
        return Err(SpefError::new(SpefErrorKind::StringDecodeError, entry.span));
    }
    match process_string(&entry.children[i]) {
        Ok(text) => Ok(text),
        Err(e) => Err(e.at(entry.span)),
    }
}

fn read_float_field(entry: &SyntaxNode, i: usize) -> (r: Result<SpefFloatValue, SpefError>)
    ensures
        agrees(r, float_field(*entry, i as int)),
{
    if i >= entry.children.len() {
        return Err(SpefError::new(SpefErrorKind::FloatDecodeError, entry.span));
    }
    match process_float(&entry.children[i]) {
        Ok(value) => Ok(value),
        Err(e) => Err(e.at(entry.span)),
    }
}

fn read_direction_field(entry: &SyntaxNode, i: usize) -> (r: Result<ConnectionDirection, SpefError>)
    ensures
        r == direction_field(*entry, i as int),
{
    if i >= entry.children.len() {
        return Err(SpefError::new(SpefErrorKind::EnumDecodeError, entry.span));
    }
    match process_conn_dir_enum(&entry.children[i]) {
        Ok(direction) => Ok(direction),
        Err(e) => Err(e.at(entry.span)),
    }
}

fn read_conn_type_field(entry: &SyntaxNode, i: usize) -> (r: Result<ConnectionType, SpefError>)
    ensures
        r == conn_type_field(*entry, i as int),
{
    if i >= entry.children.len() {
        return Err(SpefError::new(SpefErrorKind::EnumDecodeError, entry.span));
    }
    match process_conn_type_enum(&entry.children[i]) {
        Ok(conn_type) => Ok(conn_type),
        Err(e) => Err(e.at(entry.span)),
    }
}

fn read_coordinates_field(entry: &SyntaxNode, i: usize) -> (r: Result<
    (SpefFloatValue, SpefFloatValue),
    SpefError,
>)
    ensures
        match r {
            Ok(pair) => coordinates_field(*entry, i as int) == Ok::<_, SpefError>(pair_view(pair)),
            Err(e) => coordinates_field(*entry, i as int) == Err::<(Seq<char>, Seq<char>), _>(e),
        },
{
    if i >= entry.children.len() {
        return Err(SpefError::new(SpefErrorKind::CoordinatePairError, entry.span));
    }
    match process_coordinates(&entry.children[i]) {
        Ok(pair) => Ok(pair),
        Err(e) => Err(e.at(entry.span)),
    }
}

fn section_type_for(name: &str) -> (r: Option<SectionType>)
    ensures
        r == section_type_of(name@),
{
    if same_text(name, "NAME_MAP") {
        Some(SectionType::NAMEMAP)
    } else if same_text(name, "PORTS") {
        Some(SectionType::PORTS)
    } else if same_text(name, "CONN") {
        Some(SectionType::CONN)
    } else if same_text(name, "CAP") {
        Some(SectionType::CAP)
    } else if same_text(name, "RES") {
        Some(SectionType::RES)
    } else if same_text(name, "END") {
        Some(SectionType::END)
    } else {
        None
    }
}

/// Builds the record of a section marker.
pub fn process_section_entry(file_name: &str, entry: &SyntaxNode) -> (r: Result<
    SpefSectionEntry,
    SpefError,
>)
    ensures
        agrees(r, section_of(file_name@, *entry)),
{
    let name = match read_string_field(entry, 0) {
        Ok(name) => name,
        Err(e) => { return Err(e); },
    };
    match section_type_for(name.as_str()) {
        Some(section_type) => Ok(SpefSectionEntry::new(file_name, entry.line_no(), section_type)),
        None => Err(SpefError::new(SpefErrorKind::UnknownSectionKeyword, entry.span)),
    }
}

/// Builds the record of a header line.
pub fn process_header_entry(file_name: &str, entry: &SyntaxNode) -> (r: Result<
    SpefHeaderEntry,
    SpefError,
>)
    ensures
        agrees(r, header_of(file_name@, *entry)),
{
    let header_key = match read_string_field(entry, 0) {
        Ok(text) => text,
        Err(e) => { return Err(e); },
    };
    let header_value = match read_string_field(entry, 1) {
        Ok(text) => text,
        Err(e) => { return Err(e); },
    };
    Ok(SpefHeaderEntry::new(file_name, entry.line_no(), header_key, header_value))
}

/// Builds the record of a line of the name map.
pub fn process_namemap_entry(file_name: &str, entry: &SyntaxNode) -> (r: Result<
    SpefNameMapEntry,
    SpefError,
>)
    ensures
        agrees(r, namemap_of(file_name@, *entry)),
{
    match read_float_field(entry, 0) {
        Ok(_) => {},
        Err(e) => { return Err(e); },
    }
    let name = match read_string_field(entry, 1) {
        Ok(text) => text,
        Err(e) => { return Err(e); },
    };
    let index = entry.children[0].reading.truncated;
    Ok(SpefNameMapEntry::new(file_name, entry.line_no(), index, name.as_str()))
}

/// Builds the record of a line of the ports section.
pub fn process_port_entry(file_name: &str, entry: &SyntaxNode) -> (r: Result<
    SpefPortEntry,
    SpefError,
>)
    ensures
        agrees(r, port_of(file_name@, *entry)),
{
    match read_float_field(entry, 0) {
        Ok(_) => {},
        Err(e) => { return Err(e); },
    }
    let direction = match read_direction_field(entry, 1) {
        Ok(direction) => direction,
        Err(e) => { return Err(e); },
    };
    let coordinates = match read_coordinates_field(entry, 2) {
        Ok(pair) => pair,
        Err(e) => { return Err(e); },
    };
    let name = entry.children[0].reading.printed.clone();
    Ok(SpefPortEntry::new(file_name, entry.line_no(), name, direction, coordinates))
}

/// Decodes a net-open line into `current_net`: the net gets the name, the
/// line and the lumped capacitance of the entry, and the connections that
/// were recorded under it are gone; its capacitances and resistances stay.
/// Returns a copy of the net. Where the entry cannot be decoded,
/// `current_net` stays as it is.
pub fn process_dnet_entry(entry: &SyntaxNode, current_net: &mut SpefNet) -> (r: Result<
    SpefNet,
    SpefError,
>)
    ensures
        agrees(r, net_onto(*entry, old(current_net)@)),
        r matches Ok(net) ==> final(current_net)@ == net@,
        r is Err ==> final(current_net)@ == old(current_net)@,
{
    let name = match read_string_field(entry, 0) {
        Ok(text) => text,
        Err(e) => { return Err(e); },
    };
    let lcap = match read_float_field(entry, 1) {
        Ok(value) => value,
        Err(e) => { return Err(e); },
    };
    current_net.reset(entry.line_no(), name, lcap);
    Ok(current_net.clone())
}

/// Builds the record of a connection line.
pub fn process_conn_entry(file_name: &str, entry: &SyntaxNode) -> (r: Result<
    SpefConnEntry,
    SpefError,
>)
    ensures
        agrees(r, conn_of(file_name@, *entry)),
{
    let conn_type = match read_conn_type_field(entry, 0) {
        Ok(conn_type) => conn_type,
        Err(e) => { return Err(e); },
    };
    let pin_name = match read_string_field(entry, 1) {
        Ok(text) => text,
        Err(e) => { return Err(e); },
    };
    let conn_dir = match read_direction_field(entry, 2) {
        Ok(direction) => direction,
        Err(e) => { return Err(e); },
    };
    let coordinates = match read_coordinates_field(entry, 3) {
        Ok(pair) => pair,
        Err(e) => { return Err(e); },
    };
    let load = match read_float_field(entry, 4) {
        Ok(value) => value,
        Err(e) => { return Err(e); },
    };
    let driver = match read_string_field(entry, 5) {
        Ok(text) => text,
        Err(e) => { return Err(e); },
    };
    Ok(
        SpefConnEntry::new(
            file_name,
            entry.line_no(),
            conn_type,
            conn_dir,
            pin_name,
            driver,
            load,
            coordinates,
        ),
    )
}

} // verus!
