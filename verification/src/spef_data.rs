use crate::number::{is_number_literal, scan_literal};
use crate::text::{chars_of, string_of};
use vstd::prelude::*;
use vstd::string::StringExecFns;

verus! {

/// A text value of the document, kept as it was written.
#[derive(Debug, PartialEq, Eq)]
pub struct SpefStringValue {
    pub value: String,
}

impl View for SpefStringValue {
    type V = Seq<char>;

    open spec fn view(&self) -> Seq<char> {
        self.value@
    }
}

impl Clone for SpefStringValue {
    fn clone(&self) -> (r: Self)
        ensures
            r == *self,
    {
        SpefStringValue { value: self.value.clone() }
    }
}

impl SpefStringValue {
    pub fn new(value: &str) -> (r: SpefStringValue)
        ensures
            r@ == value@,
    {
        SpefStringValue { value: String::from_str(value) }
    }

    pub fn is_string(&self) -> (r: bool)
        ensures
            r,
    {
        true
    }

    pub fn get_str_value(&self) -> (r: &str)
        ensures
            r@ == self@,
    {
        self.value.as_str()
    }
}

/// A number of the document, kept as the literal that spells it. What the
/// value holds is always a number literal.
#[derive(Debug, PartialEq, Eq)]
pub struct SpefFloatValue {
    literal: String,
}

impl View for SpefFloatValue {
    type V = Seq<char>;

    closed spec fn view(&self) -> Seq<char> {
        self.literal@
    }
}

impl Clone for SpefFloatValue {
    fn clone(&self) -> (r: Self)
        ensures
            r == *self,
    {
        proof {
            use_type_invariant(self);
        }
        SpefFloatValue { literal: self.literal.clone() }
    }
}

impl SpefFloatValue {
    #[verifier::type_invariant]
    spec fn is_literal(self) -> bool {
        is_number_literal(self.literal@)
    }

    /// The value that `text` spells, if it is a number literal.
    pub fn from_literal(text: &str) -> (r: Option<SpefFloatValue>)
        ensures
            r is Some == is_number_literal(text@),
            r matches Some(value) ==> value@ == text@,
    {
        if scan_literal(&chars_of(text)) {
            Some(SpefFloatValue { literal: String::from_str(text) })
        } else {
            None
        }
    }

    /// The number zero.
    pub fn zero() -> (r: SpefFloatValue)
        ensures
            r@ == seq!['0'],
    {
        let mut v: Vec<char> = Vec::new();
        v.push('0');
        proof {
            assert(v@ =~= seq!['0']);
            lemma_zero_is_literal();
        }
        SpefFloatValue { literal: string_of(&v) }
    }

    pub fn is_float(&self) -> (r: bool)
        ensures
            r,
    {
        true
    }

    /// The literal, ready to be read as a number.
    pub fn literal(&self) -> (r: &str)
        ensures
            r@ == self@,
            is_number_literal(self@),
    {
        proof {
            use_type_invariant(self);
        }
        self.literal.as_str()
    }
}

pub proof fn lemma_zero_is_literal()
    ensures
        is_number_literal(seq!['0']),
{
    let s = seq!['0'];
    reveal_strlit("nan");
    reveal_strlit("NAN");
    reveal_strlit("inf");
    reveal_strlit("INF");
    reveal_strlit("infinity");
    reveal_strlit("INFINITY");
    assert(s.skip(0).len() == 1);
    reveal_with_fuel(crate::number::digits_end, 3);
}

/// The views of the two numbers of a pair.
pub open spec fn pair_view(pair: (SpefFloatValue, SpefFloatValue)) -> (Seq<char>, Seq<char>) {
    (pair.0@, pair.1@)
}

/// Copies a pair of numbers.
pub fn clone_pair(pair: &(SpefFloatValue, SpefFloatValue)) -> (r: (SpefFloatValue, SpefFloatValue))
    ensures
        r == *pair,
{
    (pair.0.clone(), pair.1.clone())
}

/// A point of the layout: its x and its y.
#[derive(Debug, PartialEq, Eq)]
pub struct SpefCoordinatesValue {
    pub value: (SpefFloatValue, SpefFloatValue),
}

impl View for SpefCoordinatesValue {
    type V = (Seq<char>, Seq<char>);

    open spec fn view(&self) -> (Seq<char>, Seq<char>) {
        pair_view(self.value)
    }
}

impl Clone for SpefCoordinatesValue {
    fn clone(&self) -> (r: Self)
        ensures
            r == *self,
    {
        SpefCoordinatesValue { value: clone_pair(&self.value) }
    }
}

impl SpefCoordinatesValue {
    pub fn new(x: SpefFloatValue, y: SpefFloatValue) -> (r: SpefCoordinatesValue)
        ensures
            r.value == (x, y),
    {
        SpefCoordinatesValue { value: (x, y) }
    }

    pub fn is_coordinates(&self) -> (r: bool)
        ensures
            r,
    {
        true
    }

    pub fn get_coordinates(&self) -> (r: &(SpefFloatValue, SpefFloatValue))
        ensures
            *r == self.value,
    {
        &self.value
    }
}

/// What every entry records of its origin.
pub struct BasicInfoView {
    pub file_name: Seq<char>,
    pub line_no: usize,
}

/// The file an entry was read from and the line on which it starts.
#[derive(Debug, PartialEq, Eq)]
pub struct SpefEntryBasicInfo {
    file_name: SpefStringValue,
    line_no: usize,
}

impl View for SpefEntryBasicInfo {
    type V = BasicInfoView;

    closed spec fn view(&self) -> BasicInfoView {
        BasicInfoView { file_name: self.file_name@, line_no: self.line_no }
    }
}

impl Clone for SpefEntryBasicInfo {
    fn clone(&self) -> (r: Self)
        ensures
            r == *self,
    {
        SpefEntryBasicInfo { file_name: self.file_name.clone(), line_no: self.line_no }
    }
}

impl SpefEntryBasicInfo {
    pub fn new(file_name: &str, line_no: usize) -> (r: SpefEntryBasicInfo)
        ensures
            r@ == (BasicInfoView { file_name: file_name@, line_no }),
    {
        SpefEntryBasicInfo { file_name: SpefStringValue::new(file_name), line_no }
    }

    pub fn get_file_name(&self) -> (r: &str)
        ensures
            r@ == self@.file_name,
    {
        self.file_name.get_str_value()
    }

    pub fn get_line_no(&self) -> (r: usize)
        ensures
            r == self@.line_no,
    {
        self.line_no
    }
}

/// The sections of a document.
#[derive(Clone, Copy, Debug, PartialEq, Eq, Structural)]
pub enum SectionType {
    HEADER,
    PORTS,
    NAMEMAP,
    CONN,
    CAP,
    RES,
    END,
}

pub struct SectionEntryView {
    pub basic_info: BasicInfoView,
    pub section_type: SectionType,
}

/// The marker that opens a section.
#[derive(Debug, PartialEq, Eq)]
pub struct SpefSectionEntry {
    basic_info: SpefEntryBasicInfo,
    section_type: SectionType,
}

impl View for SpefSectionEntry {
    type V = SectionEntryView;

    closed spec fn view(&self) -> SectionEntryView {
        SectionEntryView { basic_info: self.basic_info@, section_type: self.section_type }
    }
}

impl Clone for SpefSectionEntry {
    fn clone(&self) -> (r: Self)
        ensures
            r == *self,
    {
        SpefSectionEntry { basic_info: self.basic_info.clone(), section_type: self.section_type }
    }
}

impl SpefSectionEntry {
    pub fn new(file_name: &str, line_no: usize, section_type: SectionType) -> (r: SpefSectionEntry)
        ensures
            r@ == (SectionEntryView {
                basic_info: BasicInfoView { file_name: file_name@, line_no },
                section_type,
            }),
    {
        SpefSectionEntry { basic_info: SpefEntryBasicInfo::new(file_name, line_no), section_type }
    }

    pub fn get_basic_info(&self) -> (r: &SpefEntryBasicInfo)
        ensures
            r@ == self@.basic_info,
    {
        &self.basic_info
    }

    pub fn get_section_type(&self) -> (r: &SectionType)
        ensures
            *r == self@.section_type,
    {
        &self.section_type
    }
}

pub struct HeaderEntryView {
    pub basic_info: BasicInfoView,
    pub header_key: Seq<char>,
    pub header_value: Seq<char>,
}

/// One line of the header: a keyword and what it is set to.
#[derive(Debug, PartialEq, Eq)]
pub struct SpefHeaderEntry {
    basic_info: SpefEntryBasicInfo,
    header_key: SpefStringValue,
    header_value: SpefStringValue,
}

impl View for SpefHeaderEntry {
    type V = HeaderEntryView;

    closed spec fn view(&self) -> HeaderEntryView {
        HeaderEntryView {
            basic_info: self.basic_info@,
            header_key: self.header_key@,
            header_value: self.header_value@,
        }
    }
}

impl Clone for SpefHeaderEntry {
    fn clone(&self) -> (r: Self)
        ensures
            r == *self,
    {
        SpefHeaderEntry {
            basic_info: self.basic_info.clone(),
            header_key: self.header_key.clone(),
            header_value: self.header_value.clone(),
        }
    }
}

impl SpefHeaderEntry {
    pub fn new(file_name: &str, line_no: usize, header_key: String, header_value: String) -> (r:
        SpefHeaderEntry)
        ensures
            r@ == (HeaderEntryView {
                basic_info: BasicInfoView { file_name: file_name@, line_no },
                header_key: header_key@,
                header_value: header_value@,
            }),
    {
        SpefHeaderEntry {
            basic_info: SpefEntryBasicInfo::new(file_name, line_no),
            header_key: SpefStringValue { value: header_key },
            header_value: SpefStringValue { value: header_value },
        }
    }

    pub fn get_basic_info(&self) -> (r: &SpefEntryBasicInfo)
        ensures
            r@ == self@.basic_info,
    {
        &self.basic_info
    }

    pub fn get_header_key(&self) -> (r: &str)
        ensures
            r@ == self@.header_key,
    {
        self.header_key.get_str_value()
    }

    pub fn get_header_value(&self) -> (r: &str)
        ensures
            r@ == self@.header_value,
    {
        self.header_value.get_str_value()
    }
}

pub struct NameMapEntryView {
    pub basic_info: BasicInfoView,
    pub index: usize,
    pub name: Seq<char>,
}

/// One line of the name map: the index that stands for a name elsewhere in
/// the document, and the name.
#[derive(Debug, PartialEq, Eq)]
pub struct SpefNameMapEntry {
    basic_info: SpefEntryBasicInfo,
    index: usize,
    name: String,
}

impl View for SpefNameMapEntry {
    type V = NameMapEntryView;

    closed spec fn view(&self) -> NameMapEntryView {
        NameMapEntryView { basic_info: self.basic_info@, index: self.index, name: self.name@ }
    }
}

impl Clone for SpefNameMapEntry {
    fn clone(&self) -> (r: Self)
        ensures
            r == *self,
    {
        SpefNameMapEntry {
            basic_info: self.basic_info.clone(),
            index: self.index,
            name: self.name.clone(),
        }
    }
}

impl SpefNameMapEntry {
    pub fn new(file_name: &str, line_no: usize, index: usize, name: &str) -> (r: SpefNameMapEntry)
        ensures
            r@ == (NameMapEntryView {
                basic_info: BasicInfoView { file_name: file_name@, line_no },
                index,
                name: name@,
            }),
    {
        SpefNameMapEntry {
            basic_info: SpefEntryBasicInfo::new(file_name, line_no),
            index,
            name: String::from_str(name),
        }
    }

    pub fn get_basic_info(&self) -> (r: &SpefEntryBasicInfo)
        ensures
            r@ == self@.basic_info,
    {
        &self.basic_info
    }

    pub fn get_index(&self) -> (r: usize)
        ensures
            r == self@.index,
    {
        self.index
    }

    pub fn get_name(&self) -> (r: &str)
        ensures
            r@ == self@.name,
    {
        self.name.as_str()
    }
}

/// The way a signal passes a pin.
#[derive(Clone, Copy, Debug, PartialEq, Eq, Structural)]
pub enum ConnectionDirection {
    INPUT,
    OUTPUT,
    INOUT,
}

pub struct PortEntryView {
    pub basic_info: BasicInfoView,
    pub name: Seq<char>,
    pub direction: ConnectionDirection,
    pub coordinates: (Seq<char>, Seq<char>),
}

/// One line of the ports section.
#[derive(Debug, PartialEq, Eq)]
pub struct SpefPortEntry {
    basic_info: SpefEntryBasicInfo,
    name: String,
    direction: ConnectionDirection,
    coordinates: (SpefFloatValue, SpefFloatValue),
}

impl View for SpefPortEntry {
    type V = PortEntryView;

    closed spec fn view(&self) -> PortEntryView {
        PortEntryView {
            basic_info: self.basic_info@,
            name: self.name@,
            direction: self.direction,
            coordinates: pair_view(self.coordinates),
        }
    }
}

impl Clone for SpefPortEntry {
    fn clone(&self) -> (r: Self)
        ensures
            r == *self,
    {
        SpefPortEntry {
            basic_info: self.basic_info.clone(),
            name: self.name.clone(),
            direction: self.direction,
            coordinates: clone_pair(&self.coordinates),
        }
    }
}

impl SpefPortEntry {
    pub fn new(
        file_name: &str,
        line_no: usize,
        name: String,
        direction: ConnectionDirection,
        coordinates: (SpefFloatValue, SpefFloatValue),
    ) -> (r: SpefPortEntry)
        ensures
            r@ == (PortEntryView {
                basic_info: BasicInfoView { file_name: file_name@, line_no },
                name: name@,
                direction,
                coordinates: pair_view(coordinates),
            }),
    {
        SpefPortEntry {
            basic_info: SpefEntryBasicInfo::new(file_name, line_no),
            name,
            direction,
            coordinates,
        }
    }

    pub fn get_basic_info(&self) -> (r: &SpefEntryBasicInfo)
        ensures
            r@ == self@.basic_info,
    {
        &self.basic_info
    }

    pub fn get_name(&self) -> (r: &str)
        ensures
            r@ == self@.name,
    {
        self.name.as_str()
    }

    pub fn get_direction(&self) -> (r: &ConnectionDirection)
        ensures
            *r == self@.direction,
    {
        &self.direction
    }

    pub fn get_coordinates(&self) -> (r: &(SpefFloatValue, SpefFloatValue))
        ensures
            pair_view(*r) == self@.coordinates,
    {
        &self.coordinates
    }
}

/// Whether a connection ends at a pin inside the design or at a port.
#[derive(Clone, Copy, Debug, PartialEq, Eq, Structural)]
pub enum ConnectionType {
    INTERNAL,
    EXTERNAL,
}

pub struct ConnEntryView {
    pub basic_info: BasicInfoView,
    pub conn_type: ConnectionType,
    pub conn_direction: ConnectionDirection,
    pub name: Seq<char>,
    pub driving_cell: Seq<char>,
    pub load: Seq<char>,
    pub layer: usize,
    pub coordinates: (Seq<char>, Seq<char>),
    pub ll_coordinate: (Seq<char>, Seq<char>),
    pub ur_coordinate: (Seq<char>, Seq<char>),
}

/// One connection of a net.
#[derive(Debug, PartialEq, Eq)]
pub struct SpefConnEntry {
    basic_info: SpefEntryBasicInfo,
    pub conn_type: ConnectionType,
    pub conn_direction: ConnectionDirection,
    pub name: String,
    pub driving_cell: String,
    pub load: SpefFloatValue,
    pub layer: usize,
    pub coordinates: (SpefFloatValue, SpefFloatValue),
    pub ll_coordinate: (SpefFloatValue, SpefFloatValue),
    pub ur_coordinate: (SpefFloatValue, SpefFloatValue),
}

impl View for SpefConnEntry {
    type V = ConnEntryView;

    closed spec fn view(&self) -> ConnEntryView {
        ConnEntryView {
            basic_info: self.basic_info@,
            conn_type: self.conn_type,
            conn_direction: self.conn_direction,
            name: self.name@,
            driving_cell: self.driving_cell@,
            load: self.load@,
            layer: self.layer,
            coordinates: pair_view(self.coordinates),
            ll_coordinate: pair_view(self.ll_coordinate),
            ur_coordinate: pair_view(self.ur_coordinate),
        }
    }
}

impl Clone for SpefConnEntry {
    fn clone(&self) -> (r: Self)
        ensures
            r == *self,
    {
        SpefConnEntry {
            basic_info: self.basic_info.clone(),
            conn_type: self.conn_type,
            conn_direction: self.conn_direction,
            name: self.name.clone(),
            driving_cell: self.driving_cell.clone(),
            load: self.load.clone(),
            layer: self.layer,
            coordinates: clone_pair(&self.coordinates),
            ll_coordinate: clone_pair(&self.ll_coordinate),
            ur_coordinate: clone_pair(&self.ur_coordinate),
        }
    }
}

/// The point from which the bounding box of a connection starts out.
pub open spec fn origin() -> (Seq<char>, Seq<char>) {
    (seq!['0'], seq!['0'])
}

impl SpefConnEntry {
    /// A connection as the document states it: on layer zero, its bounding
    /// box at the origin.
    pub fn new(
        file_name: &str,
        line_no: usize,
        conn_type: ConnectionType,
        conn_direction: ConnectionDirection,
        name: String,
        driving_cell: String,
        load: SpefFloatValue,
        coordinates: (SpefFloatValue, SpefFloatValue),
    ) -> (r: SpefConnEntry)
        ensures
            r@ == (ConnEntryView {
                basic_info: BasicInfoView { file_name: file_name@, line_no },
                conn_type,
                conn_direction,
                name: name@,
                driving_cell: driving_cell@,
                load: load@,
                layer: 0,
                coordinates: pair_view(coordinates),
                ll_coordinate: origin(),
                ur_coordinate: origin(),
            }),
    {
        SpefConnEntry {
            basic_info: SpefEntryBasicInfo::new(file_name, line_no),
            conn_type,
            conn_direction,
            name,
            driving_cell,
            load,
            layer: 0,
            coordinates,
            ll_coordinate: (SpefFloatValue::zero(), SpefFloatValue::zero()),
            ur_coordinate: (SpefFloatValue::zero(), SpefFloatValue::zero()),
        }
    }

    pub fn get_basic_info(&self) -> (r: &SpefEntryBasicInfo)
        ensures
            r@ == self@.basic_info,
    {
        &self.basic_info
    }

    pub fn get_name(&self) -> (r: &str)
        ensures
            r@ == self@.name,
    {
        self.name.as_str()
    }

    pub fn get_conn_direction(&self) -> (r: &ConnectionDirection)
        ensures
            *r == self@.conn_direction,
    {
        &self.conn_direction
    }

    pub fn get_conn_type(&self) -> (r: &ConnectionType)
        ensures
            *r == self@.conn_type,
    {
        &self.conn_type
    }

    pub fn get_coordinates(&self) -> (r: &(SpefFloatValue, SpefFloatValue))
        ensures
            pair_view(*r) == self@.coordinates,
    {
        &self.coordinates
    }

    pub fn get_driving_cell(&self) -> (r: &str)
        ensures
            r@ == self@.driving_cell,
    {
        self.driving_cell.as_str()
    }

    pub fn get_load(&self) -> (r: &SpefFloatValue)
        ensures
            r@ == self@.load,
    {
        &self.load
    }

    pub fn get_layer(&self) -> (r: usize)
        ensures
            r == self@.layer,
    {
        self.layer
    }

    pub fn get_ll_coordinate(&self) -> (r: &(SpefFloatValue, SpefFloatValue))
        ensures
            pair_view(*r) == self@.ll_coordinate,
    {
        &self.ll_coordinate
    }

    pub fn get_ur_coordinate(&self) -> (r: &(SpefFloatValue, SpefFloatValue))
        ensures
            pair_view(*r) == self@.ur_coordinate,
    {
        &self.ur_coordinate
    }

    pub fn set_layer(&mut self, layer: usize)
        ensures
            final(self)@ == (ConnEntryView { layer, ..old(self)@ }),
    {
        self.layer = layer;
    }

    pub fn set_ll_corr(&mut self, coordinates: (SpefFloatValue, SpefFloatValue))
        ensures
            final(self)@ == (ConnEntryView { ll_coordinate: pair_view(coordinates), ..old(self)@ }),
    {
        self.ll_coordinate = coordinates;
    }

    pub fn set_ur_corr(&mut self, coordinates: (SpefFloatValue, SpefFloatValue))
        ensures
            final(self)@ == (ConnEntryView { ur_coordinate: pair_view(coordinates), ..old(self)@ }),
    {
        self.ur_coordinate = coordinates;
    }
}

/// Two node names and the capacitance or the resistance between them.
pub open spec fn triple_view(t: (String, String, SpefFloatValue)) -> (
    Seq<char>,
    Seq<char>,
    Seq<char>,
) {
    (t.0@, t.1@, t.2@)
}

pub struct NetView {
    pub name: Seq<char>,
    pub line_no: usize,
    pub lcap: Seq<char>,
    pub connection: Seq<ConnEntryView>,
    pub caps: Seq<(Seq<char>, Seq<char>, Seq<char>)>,
    pub ress: Seq<(Seq<char>, Seq<char>, Seq<char>)>,
}

/// A net: its name, its lumped capacitance, and what was recorded under it.
#[derive(Debug, PartialEq, Eq)]
pub struct SpefNet {
    pub name: String,
    pub line_no: usize,
    pub lcap: SpefFloatValue,
    connection: Vec<SpefConnEntry>,
    caps: Vec<(String, String, SpefFloatValue)>,
    ress: Vec<(String, String, SpefFloatValue)>,
}

impl View for SpefNet {
    type V = NetView;

    closed spec fn view(&self) -> NetView {
        NetView {
            name: self.name@,
            line_no: self.line_no,
            lcap: self.lcap@,
            connection: self.connection@.map_values(|c: SpefConnEntry| c@),
            caps: self.caps@.map_values(|t: (String, String, SpefFloatValue)| triple_view(t)),
            ress: self.ress@.map_values(|t: (String, String, SpefFloatValue)| triple_view(t)),
        }
    }
}

fn clone_triples(v: &Vec<(String, String, SpefFloatValue)>) -> (r: Vec<
    (String, String, SpefFloatValue),
>)
    ensures
        r@ == v@,
{
    let mut r: Vec<(String, String, SpefFloatValue)> = Vec::new();
    let n = v.len();
    for i in 0..n
        invariant
            n == v.len(),
            r@ == v@.take(i as int),
    {
        r.push((v[i].0.clone(), v[i].1.clone(), v[i].2.clone()));
        assert(v@.take(i + 1) =~= v@.take(i as int).push(v@[i as int]));
    }
    assert(v@.take(n as int) =~= v@);
    r
}

impl Clone for SpefNet {
    fn clone(&self) -> (r: Self)
        ensures
            r@ == self@,
    {
        let mut connection: Vec<SpefConnEntry> = Vec::new();
        let n = self.connection.len();
        for i in 0..n
            invariant
                n == self.connection.len(),
                connection@ == self.connection@.take(i as int),
        {
            connection.push(self.connection[i].clone());
            assert(self.connection@.take(i + 1) =~= self.connection@.take(i as int).push(
                self.connection@[i as int],
            ));
        }
        assert(self.connection@.take(n as int) =~= self.connection@);
        SpefNet {
            name: self.name.clone(),
            line_no: self.line_no,
            lcap: self.lcap.clone(),
            connection,
            caps: clone_triples(&self.caps),
            ress: clone_triples(&self.ress),
        }
    }
}

impl Default for SpefNet {
    fn default() -> (r: Self)
        ensures
            r@ == (NetView {
                name: Seq::empty(),
                line_no: 0,
                lcap: seq!['0'],
                connection: Seq::empty(),
                caps: Seq::empty(),
                ress: Seq::empty(),
            }),
    {
        SpefNet::new(0, String::new(), SpefFloatValue::zero())
    }
}

impl SpefNet {
    /// A net with nothing recorded under it yet.
    pub fn new(line_no: usize, name: String, lcap: SpefFloatValue) -> (r: SpefNet)
        ensures
            r@ == (NetView {
                name: name@,
                line_no,
                lcap: lcap@,
                connection: Seq::empty(),
                caps: Seq::empty(),
                ress: Seq::empty(),
            }),
    {
        let r = SpefNet {
            name,
            line_no,
            lcap,
            connection: Vec::new(),
            caps: Vec::new(),
            ress: Vec::new(),
        };
        assert(r@.connection =~= Seq::empty());
        assert(r@.caps =~= Seq::empty());
        assert(r@.ress =~= Seq::empty());
        r
    }

    /// Starts the net anew under another name: the connections that were
    /// recorded under it are gone; the capacitances and the resistances
    /// stay.
    pub fn reset(&mut self, line_no: usize, name: String, lcap: SpefFloatValue)
        ensures
            final(self)@ == (NetView {
                name: name@,
                line_no,
                lcap: lcap@,
                connection: Seq::empty(),
                ..old(self)@
            }),
    {
        self.name = name;
        self.line_no = line_no;
        self.lcap = lcap;
        self.connection.clear();
        assert(self@.connection =~= Seq::empty());
    }

    pub fn get_name(&self) -> (r: &str)
        ensures
            r@ == self@.name,
    {
        self.name.as_str()
    }

    pub fn get_line_no(&self) -> (r: usize)
        ensures
            r == self@.line_no,
    {
        self.line_no
    }

    pub fn get_lcap(&self) -> (r: &SpefFloatValue)
        ensures
            r@ == self@.lcap,
    {
        &self.lcap
    }

    /// Records a copy of `conn` as the last connection of the net.
    pub fn add_connection(&mut self, conn: &SpefConnEntry)
        ensures
            final(self)@ == (NetView {
                connection: old(self)@.connection.push(conn@),
                ..old(self)@
            }),
    {
        self.connection.push(conn.clone());
        assert(self@.connection =~= old(self)@.connection.push(conn@));
    }

    pub fn add_cap(&mut self, cap: (String, String, SpefFloatValue))
        ensures
            final(self)@ == (NetView {
                caps: old(self)@.caps.push(triple_view(cap)),
                ..old(self)@
            }),
    {
        self.caps.push(cap);
        assert(self@.caps =~= old(self)@.caps.push(triple_view(cap)));
    }

    pub fn add_res(&mut self, res: (String, String, SpefFloatValue))
        ensures
            final(self)@ == (NetView {
                ress: old(self)@.ress.push(triple_view(res)),
                ..old(self)@
            }),
    {
        self.ress.push(res);
        assert(self@.ress =~= old(self)@.ress.push(triple_view(res)));
    }

    /// The connections recorded under the net, in the order in which they came.
    pub fn get_connections(&self) -> (r: &Vec<SpefConnEntry>)
        ensures
            r@.map_values(|c: SpefConnEntry| c@) == self@.connection,
    {
        &self.connection
    }

    pub fn get_caps(&self) -> (r: &Vec<(String, String, SpefFloatValue)>)
        ensures
            r@.map_values(|t: (String, String, SpefFloatValue)| triple_view(t)) == self@.caps,
    {
        &self.caps
    }

    pub fn get_ress(&self) -> (r: &Vec<(String, String, SpefFloatValue)>)
        ensures
            r@.map_values(|t: (String, String, SpefFloatValue)| triple_view(t)) == self@.ress,
    {
        &self.ress
    }
}

pub struct ExchangeView {
    pub file_name: Seq<char>,
    pub header: Seq<HeaderEntryView>,
    pub namemap: Seq<NameMapEntryView>,
    pub ports: Seq<PortEntryView>,
    pub nets: Seq<NetView>,
}

/// All that was loaded from one document.
#[derive(Debug, PartialEq, Eq)]
pub struct SpefExchange {
    file_name: SpefStringValue,
    header: Vec<SpefHeaderEntry>,
    namemap: Vec<SpefNameMapEntry>,
    ports: Vec<SpefPortEntry>,
    nets: Vec<SpefNet>,
}

impl View for SpefExchange {
    type V = ExchangeView;

    closed spec fn view(&self) -> ExchangeView {
        ExchangeView {
            file_name: self.file_name@,
            header: self.header@.map_values(|e: SpefHeaderEntry| e@),
            namemap: self.namemap@.map_values(|e: SpefNameMapEntry| e@),
            ports: self.ports@.map_values(|e: SpefPortEntry| e@),
            nets: self.nets@.map_values(|e: SpefNet| e@),
        }
    }
}

impl Clone for SpefExchange {
    fn clone(&self) -> (r: Self)
        ensures
            r@ == self@,
    {
        let mut header: Vec<SpefHeaderEntry> = Vec::new();
        for i in 0..self.header.len()
            invariant
                header@ == self.header@.take(i as int),
        {
            header.push(self.header[i].clone());
            assert(self.header@.take(i + 1) =~= self.header@.take(i as int).push(
                self.header@[i as int],
            ));
        }
        let mut namemap: Vec<SpefNameMapEntry> = Vec::new();
        for i in 0..self.namemap.len()
            invariant
                namemap@ == self.namemap@.take(i as int),
        {
            namemap.push(self.namemap[i].clone());
            assert(self.namemap@.take(i + 1) =~= self.namemap@.take(i as int).push(
                self.namemap@[i as int],
            ));
        }
        let mut ports: Vec<SpefPortEntry> = Vec::new();
        for i in 0..self.ports.len()
            invariant
                ports@ == self.ports@.take(i as int),
        {
            ports.push(self.ports[i].clone());
            assert(self.ports@.take(i + 1) =~= self.ports@.take(i as int).push(
                self.ports@[i as int],
            ));
        }
        let mut nets: Vec<SpefNet> = Vec::new();
        for i in 0..self.nets.len()
            invariant
                nets@.map_values(|e: SpefNet| e@) == self.nets@.take(i as int).map_values(
                    |e: SpefNet| e@,
                ),
        {
            let ghost before = nets@;
            nets.push(self.nets[i].clone());
            assert(self.nets@.take(i + 1) =~= self.nets@.take(i as int).push(
                self.nets@[i as int],
            ));
            assert(nets@.map_values(|e: SpefNet| e@) =~= before.map_values(|e: SpefNet| e@).push(
                self.nets@[i as int]@,
            ));
            assert(self.nets@.take(i + 1).map_values(|e: SpefNet| e@) =~= self.nets@.take(
                i as int,
            ).map_values(|e: SpefNet| e@).push(self.nets@[i as int]@));
        }
        assert(self.header@.take(self.header@.len() as int) =~= self.header@);
        assert(self.namemap@.take(self.namemap@.len() as int) =~= self.namemap@);
        assert(self.ports@.take(self.ports@.len() as int) =~= self.ports@);
        assert(self.nets@.take(self.nets@.len() as int) =~= self.nets@);
        SpefExchange { file_name: self.file_name.clone(), header, namemap, ports, nets }
    }
}

impl SpefExchange {
    /// The empty result for the document named `file_name`.
    pub fn new(file_name: SpefStringValue) -> (r: SpefExchange)
        ensures
            r@ == (ExchangeView {
                file_name: file_name@,
                header: Seq::empty(),
                namemap: Seq::empty(),
                ports: Seq::empty(),
                nets: Seq::empty(),
            }),
    {
        let r = SpefExchange {
            file_name,
            header: Vec::new(),
            namemap: Vec::new(),
            ports: Vec::new(),
            nets: Vec::new(),
        };
        assert(r@.header =~= Seq::empty());
        assert(r@.namemap =~= Seq::empty());
        assert(r@.ports =~= Seq::empty());
        assert(r@.nets =~= Seq::empty());
        r
    }

    pub fn add_header_entry(&mut self, header: SpefHeaderEntry)
        ensures
            final(self)@ == (ExchangeView {
                header: old(self)@.header.push(header@),
                ..old(self)@
            }),
    {
        self.header.push(header);
        assert(self@.header =~= old(self)@.header.push(header@));
    }

    pub fn add_namemap_entry(&mut self, namemap_entry: SpefNameMapEntry)
        ensures
            final(self)@ == (ExchangeView {
                namemap: old(self)@.namemap.push(namemap_entry@),
                ..old(self)@
            }),
    {
        self.namemap.push(namemap_entry);
        assert(self@.namemap =~= old(self)@.namemap.push(namemap_entry@));
    }

    pub fn add_port_entry(&mut self, port_entry: SpefPortEntry)
        ensures
            final(self)@ == (ExchangeView {
                ports: old(self)@.ports.push(port_entry@),
                ..old(self)@
            }),
    {
        self.ports.push(port_entry);
        assert(self@.ports =~= old(self)@.ports.push(port_entry@));
    }

    pub fn add_net(&mut self, net: SpefNet)
        ensures
            final(self)@ == (ExchangeView { nets: old(self)@.nets.push(net@), ..old(self)@ }),
    {
        self.nets.push(net);
        assert(self@.nets =~= old(self)@.nets.push(net@));
    }

    pub fn get_file_name(&self) -> (r: &str)
        ensures
            r@ == self@.file_name,
    {
        self.file_name.get_str_value()
    }

    pub fn get_header(&self) -> (r: &Vec<SpefHeaderEntry>)
        ensures
            r@.map_values(|e: SpefHeaderEntry| e@) == self@.header,
    {
        &self.header
    }

    pub fn get_namemap(&self) -> (r: &Vec<SpefNameMapEntry>)
        ensures
            r@.map_values(|e: SpefNameMapEntry| e@) == self@.namemap,
    {
        &self.namemap
    }

    pub fn get_ports(&self) -> (r: &Vec<SpefPortEntry>)
        ensures
            r@.map_values(|e: SpefPortEntry| e@) == self@.ports,
    {
        &self.ports
    }

    pub fn get_nets(&self) -> (r: &Vec<SpefNet>)
        ensures
            r@.map_values(|e: SpefNet| e@) == self@.nets,
    {
        &self.nets
    }
}

/// A decoded value of the document: a text, a number or a point.
#[derive(Debug, PartialEq, Eq)]
pub enum SpefValue {
    StringValue(SpefStringValue),
    FloatValue(SpefFloatValue),
    CoordinatesValue(SpefCoordinatesValue),
}

impl Clone for SpefValue {
    fn clone(&self) -> (r: Self)
        ensures
            r == *self,
    {
        match self {
            SpefValue::StringValue(value) => SpefValue::StringValue(value.clone()),
            SpefValue::FloatValue(value) => SpefValue::FloatValue(value.clone()),
            SpefValue::CoordinatesValue(value) => SpefValue::CoordinatesValue(value.clone()),
        }
    }
}

impl SpefValue {
    pub fn is_string(&self) -> (r: bool)
        ensures
            r == (self is StringValue),
    {
        match self {
            SpefValue::StringValue(_) => true,
            _ => false,
        }
    }

    pub fn is_float(&self) -> (r: bool)
        ensures
            r == (self is FloatValue),
    {
        match self {
            SpefValue::FloatValue(_) => true,
            _ => false,
        }
    }

    /// No value is a name of its own kind: names are texts.
    pub fn is_name(&self) -> (r: bool)
        ensures
            !r,
    {
        false
    }

    pub fn is_coordinates(&self) -> (r: bool)
        ensures
            r == (self is CoordinatesValue),
    {
        match self {
            SpefValue::CoordinatesValue(_) => true,
            _ => false,
        }
    }

    pub fn get_float_value(&self) -> (r: &SpefFloatValue)
        requires
            self is FloatValue,
        ensures
            *r == self->FloatValue_0,
    {
        match self {
            SpefValue::FloatValue(value) => value,
            _ => vstd::pervasive::unreached(),
        }
    }

    pub fn get_str_value(&self) -> (r: &str)
        requires
            self is StringValue,
        ensures
            r@ == self->StringValue_0@,
    {
        match self {
            SpefValue::StringValue(value) => value.get_str_value(),
            _ => vstd::pervasive::unreached(),
        }
    }

    pub fn get_coordinates(&self) -> (r: &(SpefFloatValue, SpefFloatValue))
        requires
            self is CoordinatesValue,
        ensures
            *r == self->CoordinatesValue_0.value,
    {
        match self {
            SpefValue::CoordinatesValue(value) => value.get_coordinates(),
            _ => vstd::pervasive::unreached(),
        }
    }
}

/// What kind of entry a record is. Each probe answers no unless the record
/// is of that kind.
pub trait SpefEntryTrait {
    fn is_section_entry(&self) -> (r: bool)
        default_ensures
            !r,
    {
        false
    }

    fn is_header_entry(&self) -> (r: bool)
        default_ensures
            !r,
    {
        false
    }

    fn is_namemap_entry(&self) -> (r: bool)
        default_ensures
            !r,
    {
        false
    }

    fn is_port_entry(&self) -> (r: bool)
        default_ensures
            !r,
    {
        false
    }

    fn is_dnet_entry(&self) -> (r: bool)
        default_ensures
            !r,
    {
        false
    }

    fn is_conn_entry(&self) -> (r: bool)
        default_ensures
            !r,
    {
        false
    }

    fn is_cap_entry(&self) -> (r: bool)
        default_ensures
            !r,
    {
        false
    }

    fn is_res_entry(&self) -> (r: bool)
        default_ensures
            !r,
    {
        false
    }
}

impl SpefEntryTrait for SpefSectionEntry {
    fn is_section_entry(&self) -> (r: bool)
        ensures
            r,
    {
        true
    }
}

impl SpefEntryTrait for SpefHeaderEntry {
    fn is_header_entry(&self) -> (r: bool)
        ensures
            r,
    {
        true
    }
}

impl SpefEntryTrait for SpefNameMapEntry {
    fn is_namemap_entry(&self) -> (r: bool)
        ensures
            r,
    {
        true
    }
}

impl SpefEntryTrait for SpefPortEntry {
    fn is_port_entry(&self) -> (r: bool)
        ensures
            r,
    {
        true
    }
}

impl SpefEntryTrait for SpefConnEntry {
    fn is_conn_entry(&self) -> (r: bool)
        ensures
            r,
    {
        true
    }
}

/// Any record that a load produces.
#[derive(Debug, PartialEq, Eq)]
pub enum SpefParserData {
    SectionEntry(SpefSectionEntry),
    HeaderEntry(SpefHeaderEntry),
    NameMapEntry(SpefNameMapEntry),
    PortEntry(SpefPortEntry),
    ConnEntry(SpefConnEntry),
    NetEntry(SpefNet),
    Exchange(SpefExchange),
}

/// What a record holds, whatever its kind.
pub enum ParserDataView {
    SectionEntry(SectionEntryView),
    HeaderEntry(HeaderEntryView),
    NameMapEntry(NameMapEntryView),
    PortEntry(PortEntryView),
    ConnEntry(ConnEntryView),
    NetEntry(NetView),
    Exchange(ExchangeView),
}

impl View for SpefParserData {
    type V = ParserDataView;

    open spec fn view(&self) -> ParserDataView {
        match self {
            SpefParserData::SectionEntry(e) => ParserDataView::SectionEntry(e@),
            SpefParserData::HeaderEntry(e) => ParserDataView::HeaderEntry(e@),
            SpefParserData::NameMapEntry(e) => ParserDataView::NameMapEntry(e@),
            SpefParserData::PortEntry(e) => ParserDataView::PortEntry(e@),
            SpefParserData::ConnEntry(e) => ParserDataView::ConnEntry(e@),
            SpefParserData::NetEntry(e) => ParserDataView::NetEntry(e@),
            SpefParserData::Exchange(e) => ParserDataView::Exchange(e@),
        }
    }
}

impl Clone for SpefParserData {
    fn clone(&self) -> (r: Self)
        ensures
            r@ == self@,
    {
        match self {
            SpefParserData::SectionEntry(e) => SpefParserData::SectionEntry(e.clone()),
            SpefParserData::HeaderEntry(e) => SpefParserData::HeaderEntry(e.clone()),
            SpefParserData::NameMapEntry(e) => SpefParserData::NameMapEntry(e.clone()),
            SpefParserData::PortEntry(e) => SpefParserData::PortEntry(e.clone()),
            SpefParserData::ConnEntry(e) => SpefParserData::ConnEntry(e.clone()),
            SpefParserData::NetEntry(e) => SpefParserData::NetEntry(e.clone()),
            SpefParserData::Exchange(e) => SpefParserData::Exchange(e.clone()),
        }
    }
}

impl SpefEntryTrait for SpefParserData {
    fn is_section_entry(&self) -> (r: bool)
        ensures
            r == (self is SectionEntry),
    {
        match self {
            SpefParserData::SectionEntry(_) => true,
            _ => false,
        }
    }

    fn is_header_entry(&self) -> (r: bool)
        ensures
            r == (self is HeaderEntry),
    {
        match self {
            SpefParserData::HeaderEntry(_) => true,
            _ => false,
        }
    }

    fn is_namemap_entry(&self) -> (r: bool)
        ensures
            r == (self is NameMapEntry),
    {
        match self {
            SpefParserData::NameMapEntry(_) => true,
            _ => false,
        }
    }

    fn is_port_entry(&self) -> (r: bool)
        ensures
            r == (self is PortEntry),
    {
        match self {
            SpefParserData::PortEntry(_) => true,
            _ => false,
        }
    }

    fn is_dnet_entry(&self) -> (r: bool)
        ensures
            r == (self is NetEntry),
    {
        match self {
            SpefParserData::NetEntry(_) => true,
            _ => false,
        }
    }

    fn is_conn_entry(&self) -> (r: bool)
        ensures
            r == (self is ConnEntry),
    {
        match self {
            SpefParserData::ConnEntry(_) => true,
            _ => false,
        }
    }
}

} // verus!
