use crate::decode::{agrees, failure_at};
use crate::entry::{
    conn_of, header_of, namemap_of, net_of, port_of, process_conn_entry, process_dnet_entry,
    process_header_entry, process_namemap_entry, process_port_entry,
};
use crate::error::{SpefError, SpefErrorKind};
use crate::spef_data::{
    ExchangeView, NetView, SpefConnEntry, SpefExchange, SpefFloatValue, SpefNet, SpefStringValue,
};
use crate::syntax::{NodeKind, SyntaxNode};
use vstd::prelude::*;
use vstd::string::StringExecFns;

verus! {

/// How far a load has come: what stands in the result, and the net that is
/// open, if one is.
pub struct LoadView {
    pub exchange: ExchangeView,
    pub open_net: Option<NetView>,
}

/// The load of the document `file` before its first entry.
pub open spec fn start(file: Seq<char>) -> LoadView {
    LoadView {
        exchange: ExchangeView {
            file_name: file,
            header: Seq::empty(),
            namemap: Seq::empty(),
            ports: Seq::empty(),
            nets: Seq::empty(),
        },
        open_net: None,
    }
}

/// The result once the open net, if there is one, has been added to it.
pub open spec fn committed(state: LoadView) -> ExchangeView {
    match state.open_net {
        Some(net) => ExchangeView { nets: state.exchange.nets.push(net), ..state.exchange },
        None => state.exchange,
    }
}

/// The load after one more entry. A header, a name or a port is added to
/// the result. A net-open entry commits the open net and opens its own. A
/// connection goes to the open net, and is refused where none is open. All
/// else passes without a trace.
pub open spec fn step(state: LoadView, entry: SyntaxNode) -> Result<LoadView, SpefError> {
    let file = state.exchange.file_name;
    match entry.kind {
        NodeKind::HeaderEntry => match header_of(file, entry) {
            Err(e) => Err(e),
            Ok(header) => Ok(
                LoadView {
                    exchange: ExchangeView {
                        header: state.exchange.header.push(header),
                        ..state.exchange
                    },
                    ..state
                },
            ),
        },
        NodeKind::NameMapEntry => match namemap_of(file, entry) {
            Err(e) => Err(e),
            Ok(name) => Ok(
                LoadView {
                    exchange: ExchangeView {
                        namemap: state.exchange.namemap.push(name),
                        ..state.exchange
                    },
                    ..state
                },
            ),
        },
        NodeKind::PortsEntry => match port_of(file, entry) {
            Err(e) => Err(e),
            Ok(port) => Ok(
                LoadView {
                    exchange: ExchangeView {
                        ports: state.exchange.ports.push(port),
                        ..state.exchange
                    },
                    ..state
                },
            ),
        },
        NodeKind::DnetEntry => match net_of(entry) {
            Err(e) => Err(e),
            Ok(net) => Ok(LoadView { exchange: committed(state), open_net: Some(net) }),
        },
        NodeKind::ConnEntry => match conn_of(file, entry) {
            Err(e) => Err(e),
            Ok(conn) => match state.open_net {
                Some(net) => Ok(
                    LoadView {
                        open_net: Some(NetView { connection: net.connection.push(conn), ..net }),
                        ..state
                    },
                ),
                None => Err(failure_at(entry, SpefErrorKind::ConnectionOutsideNet)),
            },
        },
        _ => Ok(state),
    }
}

/// The load after the entries from position `from` up to the end-of-input
/// marker or the end of the stream, or the first failure among them.
pub open spec fn run(state: LoadView, entries: Seq<SyntaxNode>, from: int) -> Result<
    LoadView,
    SpefError,
>
    decreases entries.len() - from,
{
    if from < 0 || from >= entries.len() || entries[from].kind == NodeKind::EndOfInput {
        Ok(state)
    } else {
        match step(state, entries[from]) {
            Err(e) => Err(e),
            Ok(next) => run(next, entries, from + 1),
        }
    }
}

/// What a document decodes to: all its entries in order, the net that is
/// open at the end committed as the last one.
pub open spec fn exchange_of(file: Seq<char>, entries: Seq<SyntaxNode>) -> Result<
    ExchangeView,
    SpefError,
> {
    match run(start(file), entries, 0) {
        Ok(state) => Ok(committed(state)),
        Err(e) => Err(e),
    }
}

/// Every node of the stream is of a kind that the stream of entries holds.
pub open spec fn all_entries(entries: Seq<SyntaxNode>) -> bool {
    forall|i: int| 0 <= i < entries.len() ==> (#[trigger] entries[i]).kind.is_entry()
}

/// The net that is being filled. No net is open before the first net-open
/// entry.
#[derive(Debug)]
pub struct NetAccumulator {
    current_net: SpefNet,
    net_open: bool,
}

impl View for NetAccumulator {
    type V = Option<NetView>;

    closed spec fn view(&self) -> Option<NetView> {
        if self.net_open {
            Some(self.current_net@)
        } else {
            None
        }
    }
}

impl NetAccumulator {
    /// The accumulator with no net open.
    pub fn new() -> (r: NetAccumulator)
        ensures
            r@ is None,
    {
        NetAccumulator {
            current_net: SpefNet::new(0, String::from_str("None"), SpefFloatValue::zero()),
            net_open: false,
        }
    }

    pub fn is_open(&self) -> (r: bool)
        ensures
            r == (self@ is Some),
    {
        self.net_open
    }

    /// Opens `net` in place of the net that was open, and hands that one
    /// back.
    pub fn open_net(&mut self, net: SpefNet) -> (previous: Option<SpefNet>)
        ensures
            final(self)@ == Some(net@),
            agrees_option(previous, old(self)@),
    {
        let mut net = net;
        core::mem::swap(&mut self.current_net, &mut net);
        let was_open = self.net_open;
        self.net_open = true;
        if was_open {
            Some(net)
        } else {
            None
        }
    }

    /// Records `conn` under the open net. Where no net is open, nothing
    /// changes and the answer is `false`.
    pub fn add_connection(&mut self, conn: &SpefConnEntry) -> (added: bool)
        ensures
            added == (old(self)@ is Some),
            final(self)@ == match old(self)@ {
                Some(net) => Some(NetView { connection: net.connection.push(conn@), ..net }),
                None => None,
            },
    {
        if self.net_open {
            self.current_net.add_connection(conn);
            true
        } else {
            false
        }
    }

    /// Hands out the open net, if there is one.
    pub fn close(self) -> (net: Option<SpefNet>)
        ensures
            agrees_option(net, self@),
    {
        if self.net_open {
            Some(self.current_net)
        } else {
            None
        }
    }
}

/// `net` is what `expected` says: none, or a net with the expected view.
pub open spec fn agrees_option(net: Option<SpefNet>, expected: Option<NetView>) -> bool {
    match net {
        Some(n) => expected == Some(n@),
        None => expected is None,
    }
}

/// Takes one entry into the load. Where the entry cannot be decoded, or is
/// a connection outside of a net, the load stays as it is.
pub fn process_entry(
    entry: &SyntaxNode,
    exchange: &mut SpefExchange,
    accumulator: &mut NetAccumulator,
) -> (r: Result<(), SpefError>)
    requires
        entry.kind.is_entry(),
    ensures
        match step(LoadView { exchange: old(exchange)@, open_net: old(accumulator)@ }, *entry) {
            Ok(next) => {
                &&& r is Ok
                &&& final(exchange)@ == next.exchange
                &&& final(accumulator)@ == next.open_net
            },
            Err(e) => {
                &&& r == Err::<(), _>(e)
                &&& final(exchange)@ == old(exchange)@
                &&& final(accumulator)@ == old(accumulator)@
            },
        },
{
    match entry.kind {
        NodeKind::HeaderEntry => {
            match process_header_entry(exchange.get_file_name(), entry) {
                Ok(header) => {
                    exchange.add_header_entry(header);
                    Ok(())
                },
                Err(e) => Err(e),
            }
        },
        NodeKind::NameMapEntry => {
            match process_namemap_entry(exchange.get_file_name(), entry) {
                Ok(name) => {
                    exchange.add_namemap_entry(name);
                    Ok(())
                },
                Err(e) => Err(e),
            }
        },
        NodeKind::PortsEntry => {
            match process_port_entry(exchange.get_file_name(), entry) {
                Ok(port) => {
                    exchange.add_port_entry(port);
                    Ok(())
                },
                Err(e) => Err(e),
            }
        },
        NodeKind::DnetEntry => {
            let mut current_net = SpefNet::default();
            match process_dnet_entry(entry, &mut current_net) {
                Ok(_) => {
                    match accumulator.open_net(current_net) {
                        Some(previous) => exchange.add_net(previous),
                        None => {},
                    }
                    Ok(())
                },
                Err(e) => Err(e),
            }
        },
        NodeKind::ConnEntry => {
            match process_conn_entry(exchange.get_file_name(), entry) {
                Ok(conn) => {
                    if accumulator.add_connection(&conn) {
                        Ok(())
                    } else {
                        Err(SpefError::new(SpefErrorKind::ConnectionOutsideNet, entry.span))
                    }
                },
                Err(e) => Err(e),
            }
        },
        _ => Ok(()),
    }
}

/// Tells whether every node of the stream is of a kind that the stream of
/// entries holds.
pub fn check_entries(entries: &Vec<SyntaxNode>) -> (r: bool)
    ensures
        r == all_entries(entries@),
{
    let n = entries.len();
    for i in 0..n
        invariant
            n == entries.len(),
            forall|j: int| 0 <= j < i ==> (#[trigger] entries@[j]).kind.is_entry(),
    {
        if !entries[i].kind.can_be_entry() {
            return false;
        }
    }
    true
}

/// Loads a document from the stream of its entries: each entry in order up
/// to the end-of-input marker, the first failure ending the load.
pub fn parse_spef_entries(file_name: &str, entries: &Vec<SyntaxNode>) -> (r: Result<
    SpefExchange,
    SpefError,
>)
    requires
        all_entries(entries@),
    ensures
        agrees(r, exchange_of(file_name@, entries@)),
{
    let mut exchange = SpefExchange::new(SpefStringValue::new(file_name));
    let mut accumulator = NetAccumulator::new();
    let n = entries.len();
    let mut i: usize = 0;
    while i < n && !is_end_of_input(&entries[i])
        invariant
            n == entries.len(),
            i <= n,
            all_entries(entries@),
            run(start(file_name@), entries@, 0) == run(
                LoadView { exchange: exchange@, open_net: accumulator@ },
                entries@,
                i as int,
            ),
        decreases n - i,
    {
        match process_entry(&entries[i], &mut exchange, &mut accumulator) {
            Ok(()) => {},
            Err(e) => { return Err(e); },
        }
        i = i + 1;
    }
    match accumulator.close() {
        Some(net) => exchange.add_net(net),
        None => {},
    }
    Ok(exchange)
}

fn is_end_of_input(entry: &SyntaxNode) -> (r: bool)
    ensures
        r == (entry.kind == NodeKind::EndOfInput),
{
    match entry.kind {
        NodeKind::EndOfInput => true,
        _ => false,
    }
}

} // verus!
