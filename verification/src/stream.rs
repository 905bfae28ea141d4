use crate::driver::{committed, exchange_of, run, start, step, LoadView};
use crate::entry::{conn_of, header_of, namemap_of, net_of, port_of};
use crate::decode::failure_at;
use crate::error::{SpefError, SpefErrorKind};
use crate::spef_data::{
    ConnEntryView, ExchangeView, HeaderEntryView, NameMapEntryView, NetView, PortEntryView,
};
use crate::syntax::{NodeKind, SyntaxNode};
use vstd::prelude::*;

verus! {

/// The entries of one kind.
pub open spec fn of_kind(kind: NodeKind) -> spec_fn(SyntaxNode) -> bool {
    |entry: SyntaxNode| entry.kind == kind
}

/// What a header entry of the document `file` decodes to.
pub open spec fn header_in(file: Seq<char>) -> spec_fn(SyntaxNode) -> HeaderEntryView {
    |entry: SyntaxNode| header_of(file, entry)->Ok_0
}

/// What a line of the name map of the document `file` decodes to.
pub open spec fn name_in(file: Seq<char>) -> spec_fn(SyntaxNode) -> NameMapEntryView {
    |entry: SyntaxNode| namemap_of(file, entry)->Ok_0
}

/// What a line of the ports section of the document `file` decodes to.
pub open spec fn port_in(file: Seq<char>) -> spec_fn(SyntaxNode) -> PortEntryView {
    |entry: SyntaxNode| port_of(file, entry)->Ok_0
}

/// What a connection line of the document `file` decodes to.
pub open spec fn conn_in(file: Seq<char>) -> spec_fn(SyntaxNode) -> ConnEntryView {
    |entry: SyntaxNode| conn_of(file, entry)->Ok_0
}

/// The net that a net-open entry starts.
pub open spec fn net_in() -> spec_fn(SyntaxNode) -> NetView {
    |entry: SyntaxNode| net_of(entry)->Ok_0
}

/// A net without what was recorded under it.
pub open spec fn bare() -> spec_fn(NetView) -> NetView {
    |net: NetView| NetView { connection: Seq::empty(), ..net }
}

/// Where the load of `entries` from `from` on ends: at the first
/// end-of-input marker, or where the stream ends.
pub open spec fn end_of_load(entries: Seq<SyntaxNode>, from: int) -> int
    decreases entries.len() - from,
{
    if 0 <= from < entries.len() && entries[from].kind != NodeKind::EndOfInput {
        end_of_load(entries, from + 1)
    } else {
        from
    }
}

/// The entries that a load reads: those before the end of the load.
pub open spec fn read_part(entries: Seq<SyntaxNode>) -> Seq<SyntaxNode> {
    entries.take(end_of_load(entries, 0))
}

/// The load after the first `count` entries.
pub open spec fn state_at(file: Seq<char>, entries: Seq<SyntaxNode>, count: int) -> Result<
    LoadView,
    SpefError,
> {
    run(start(file), entries.take(count), 0)
}

/// The end of a load lies within the stream, behind entries that are no
/// end-of-input marker, and at such a marker or at the end of the stream.
pub proof fn lemma_end_of_load(entries: Seq<SyntaxNode>, from: int)
    requires
        0 <= from <= entries.len(),
    ensures
        from <= end_of_load(entries, from) <= entries.len(),
        forall|i: int|
            from <= i < end_of_load(entries, from) ==> (#[trigger] entries[i]).kind
                != NodeKind::EndOfInput,
        end_of_load(entries, from) == entries.len() || entries[end_of_load(entries, from)].kind
            == NodeKind::EndOfInput,
    decreases entries.len() - from,
{
    if from < entries.len() && entries[from].kind != NodeKind::EndOfInput {
        lemma_end_of_load(entries, from + 1);
    }
}

/// A load reads nothing at or behind its end.
pub proof fn lemma_run_reads_read_part(state: LoadView, entries: Seq<SyntaxNode>, from: int)
    requires
        0 <= from <= entries.len(),
    ensures
        run(state, entries, from) == run(
            state,
            entries.take(end_of_load(entries, from)),
            from,
        ),
    decreases entries.len() - from,
{
    let stop = end_of_load(entries, from);
    lemma_end_of_load(entries, from);
    if from < entries.len() && entries[from].kind != NodeKind::EndOfInput {
        assert(entries.take(stop)[from] == entries[from]);
        match step(state, entries[from]) {
            Ok(next) => {
                lemma_run_reads_read_part(next, entries, from + 1);
            },
            Err(_) => {},
        }
    }
}

/// One more entry at the end of a stream without marker is one more step
/// at the end of the load.
pub proof fn lemma_run_push(state: LoadView, entries: Seq<SyntaxNode>, last: SyntaxNode, from: int)
    requires
        0 <= from <= entries.len(),
        forall|i: int|
            from <= i < entries.len() ==> (#[trigger] entries[i]).kind != NodeKind::EndOfInput,
        last.kind != NodeKind::EndOfInput,
    ensures
        run(state, entries.push(last), from) == match run(state, entries, from) {
            Ok(reached) => step(reached, last),
            Err(e) => Err(e),
        },
    decreases entries.len() - from,
{
    let longer = entries.push(last);
    if from == entries.len() {
        assert(longer[from] == last);
        match step(state, last) {
            Ok(next) => {
                assert(run(next, longer, from + 1) == Ok::<_, SpefError>(next));
            },
            Err(_) => {},
        }
    } else {
        assert(longer[from] == entries[from]);
        match step(state, entries[from]) {
            Ok(next) => {
                lemma_run_push(next, entries, last, from + 1);
            },
            Err(_) => {},
        }
    }
}

/// The load after one entry more is a step from the load before it.
pub proof fn lemma_state_step(file: Seq<char>, entries: Seq<SyntaxNode>, count: int)
    requires
        0 <= count < end_of_load(entries, 0),
    ensures
        state_at(file, entries, count + 1) == match state_at(file, entries, count) {
            Ok(reached) => step(reached, entries[count]),
            Err(e) => Err(e),
        },
{
    lemma_end_of_load(entries, 0);
    let before = entries.take(count);
    assert(entries.take(count + 1) =~= before.push(entries[count]));
    assert forall|i: int| 0 <= i < before.len() implies (#[trigger] before[i]).kind
        != NodeKind::EndOfInput by {
        assert(before[i] == entries[i]);
    }
    lemma_run_push(start(file), before, entries[count], 0);
}

/// Where a load succeeds, it has succeeded after each of its entries.
pub proof fn lemma_state_is_ok(file: Seq<char>, entries: Seq<SyntaxNode>, count: int)
    requires
        0 <= count <= end_of_load(entries, 0),
        exchange_of(file, entries) is Ok,
    ensures
        state_at(file, entries, count) is Ok,
    decreases end_of_load(entries, 0) - count,
{
    lemma_end_of_load(entries, 0);
    if count == end_of_load(entries, 0) {
        lemma_run_reads_read_part(start(file), entries, 0);
    } else {
        lemma_state_is_ok(file, entries, count + 1);
        lemma_state_step(file, entries, count);
    }
}

/// The result of a load is what stands committed at its end.
pub proof fn lemma_exchange_is_last_state(file: Seq<char>, entries: Seq<SyntaxNode>)
    ensures
        exchange_of(file, entries) == match state_at(file, entries, end_of_load(entries, 0)) {
            Ok(reached) => Ok::<_, SpefError>(committed(reached)),
            Err(e) => Err(e),
        },
{
    lemma_run_reads_read_part(start(file), entries, 0);
}

/// Of a stream with one entry more, those of a kind and what they decode
/// to are those of the stream, and the last entry if it is of the kind.
pub proof fn lemma_select_push<B>(
    entries: Seq<SyntaxNode>,
    last: SyntaxNode,
    kind: NodeKind,
    decode: spec_fn(SyntaxNode) -> B,
)
    ensures
        entries.push(last).filter(of_kind(kind)).map_values(decode) == if last.kind == kind {
            entries.filter(of_kind(kind)).map_values(decode).push(decode(last))
        } else {
            entries.filter(of_kind(kind)).map_values(decode)
        },
{
    reveal(Seq::filter);
    let longer = entries.push(last);
    assert(longer.drop_last() =~= entries);
    assert(longer.last() == last);
    let chosen = entries.filter(of_kind(kind));
    if last.kind == kind {
        assert(longer.filter(of_kind(kind)) == chosen.push(last));
        assert(chosen.push(last).map_values(decode) =~= chosen.map_values(decode).push(
            decode(last),
        ));
    } else {
        assert(longer.filter(of_kind(kind)) == chosen);
    }
}

/// What holds of a load after its first `count` entries.
pub open spec fn summed_up(
    file: Seq<char>,
    entries: Seq<SyntaxNode>,
    count: int,
    reached: LoadView,
) -> bool {
    let read = entries.take(count);
    &&& reached.exchange.file_name == file
    &&& reached.exchange.header == read.filter(of_kind(NodeKind::HeaderEntry)).map_values(
        header_in(file),
    )
    &&& reached.exchange.namemap == read.filter(of_kind(NodeKind::NameMapEntry)).map_values(
        name_in(file),
    )
    &&& reached.exchange.ports == read.filter(of_kind(NodeKind::PortsEntry)).map_values(
        port_in(file),
    )
    &&& committed(reached).nets.map_values(bare()) == read.filter(
        of_kind(NodeKind::DnetEntry),
    ).map_values(net_in())
    &&& reached.open_net is None ==> reached.exchange.nets.len() == 0
}

/// After each entry of a load that succeeds, the result holds what the
/// entries read so far decode to, kind by kind and in their order.
pub proof fn lemma_summed_up(file: Seq<char>, entries: Seq<SyntaxNode>, count: int)
    requires
        0 <= count <= end_of_load(entries, 0),
        state_at(file, entries, count) is Ok,
    ensures
        summed_up(file, entries, count, state_at(file, entries, count)->Ok_0),
    decreases count,
{
    let reached = state_at(file, entries, count)->Ok_0;
    lemma_end_of_load(entries, 0);
    if count == 0 {
        reveal(Seq::filter);
        assert(entries.take(0) =~= Seq::<SyntaxNode>::empty());
        let none = Seq::<SyntaxNode>::empty();
        assert(reached == start(file));
        assert(none.filter(of_kind(NodeKind::HeaderEntry)).map_values(header_in(file))
            =~= reached.exchange.header);
        assert(none.filter(of_kind(NodeKind::NameMapEntry)).map_values(name_in(file))
            =~= reached.exchange.namemap);
        assert(none.filter(of_kind(NodeKind::PortsEntry)).map_values(port_in(file))
            =~= reached.exchange.ports);
        assert(none.filter(of_kind(NodeKind::DnetEntry)).map_values(net_in()) =~= committed(
            reached,
        ).nets.map_values(bare()));
    } else {
        lemma_state_step(file, entries, count - 1);
        let before = state_at(file, entries, count - 1)->Ok_0;
        lemma_summed_up(file, entries, count - 1);
        let read = entries.take(count - 1);
        let last = entries[count - 1];
        assert(entries.take(count) =~= read.push(last));
        lemma_select_push(read, last, NodeKind::HeaderEntry, header_in(file));
        lemma_select_push(read, last, NodeKind::NameMapEntry, name_in(file));
        lemma_select_push(read, last, NodeKind::PortsEntry, port_in(file));
        lemma_select_push(read, last, NodeKind::DnetEntry, net_in());
        assert(step(before, last) == Ok::<_, SpefError>(reached));
        let nets = committed(before).nets;
        match last.kind {
            NodeKind::DnetEntry => {
                let net = net_of(last)->Ok_0;
                assert(committed(reached).nets == nets.push(net));
                assert(bare()(net) == net);
                assert(nets.push(net).map_values(bare()) =~= nets.map_values(bare()).push(net));
            },
            NodeKind::ConnEntry => {
                let open = before.open_net->Some_0;
                let conn = conn_of(file, last)->Ok_0;
                let grown = NetView { connection: open.connection.push(conn), ..open };
                assert(bare()(grown) == bare()(open));
                assert(committed(reached).nets =~= before.exchange.nets.push(grown));
                assert(nets =~= before.exchange.nets.push(open));
                assert(committed(reached).nets.map_values(bare()) =~= nets.map_values(bare()));
            },
            _ => {},
        }
    }
}

/// The load out of the first `count` entries of the stream.
pub proof fn lemma_reached(file: Seq<char>, entries: Seq<SyntaxNode>, count: int) -> (reached:
    LoadView)
    requires
        0 <= count <= end_of_load(entries, 0),
        exchange_of(file, entries) is Ok,
    ensures
        state_at(file, entries, count) == Ok::<_, SpefError>(reached),
        summed_up(file, entries, count, reached),
{
    lemma_state_is_ok(file, entries, count);
    lemma_summed_up(file, entries, count);
    state_at(file, entries, count)->Ok_0
}

/// The headers of the result are what the header entries decode to, in the
/// order of the stream; so with the lines of the name map and with the
/// ports.
pub proof fn law_result_holds_entries_in_order(file: Seq<char>, entries: Seq<SyntaxNode>)
    requires
        exchange_of(file, entries) is Ok,
    ensures
        exchange_of(file, entries)->Ok_0.file_name == file,
        exchange_of(file, entries)->Ok_0.header == read_part(entries).filter(
            of_kind(NodeKind::HeaderEntry),
        ).map_values(header_in(file)),
        exchange_of(file, entries)->Ok_0.namemap == read_part(entries).filter(
            of_kind(NodeKind::NameMapEntry),
        ).map_values(name_in(file)),
        exchange_of(file, entries)->Ok_0.ports == read_part(entries).filter(
            of_kind(NodeKind::PortsEntry),
        ).map_values(port_in(file)),
{
    lemma_end_of_load(entries, 0);
    lemma_exchange_is_last_state(file, entries);
    let reached = lemma_reached(file, entries, end_of_load(entries, 0));
}

/// The nets of the result are those that the net-open entries start, in
/// the order of the stream: one net for each, under its name, its line and
/// its capacitance.
pub proof fn law_result_holds_a_net_for_each_net_entry(file: Seq<char>, entries: Seq<SyntaxNode>)
    requires
        exchange_of(file, entries) is Ok,
    ensures
        exchange_of(file, entries)->Ok_0.nets.map_values(bare()) == read_part(entries).filter(
            of_kind(NodeKind::DnetEntry),
        ).map_values(net_in()),
{
    lemma_end_of_load(entries, 0);
    lemma_exchange_is_last_state(file, entries);
    let reached = lemma_reached(file, entries, end_of_load(entries, 0));
}

/// How many nets were opened before the entry at position `at`.
pub open spec fn nets_before(entries: Seq<SyntaxNode>, at: int) -> nat {
    entries.take(at).filter(of_kind(NodeKind::DnetEntry)).len()
}

/// As many nets stand committed, the open one counted, as were opened.
pub proof fn lemma_count_of_nets(file: Seq<char>, entries: Seq<SyntaxNode>, count: int)
    requires
        0 <= count <= end_of_load(entries, 0),
        state_at(file, entries, count) is Ok,
    ensures
        committed(state_at(file, entries, count)->Ok_0).nets.len() == nets_before(entries, count),
        state_at(file, entries, count)->Ok_0.open_net is Some <==> nets_before(entries, count) > 0,
{
    lemma_summed_up(file, entries, count);
    let reached = state_at(file, entries, count)->Ok_0;
    assert(committed(reached).nets.map_values(bare()).len() == committed(reached).nets.len());
}

/// The net that was opened last, as it stands after the connections that
/// followed it up to position `upto`.
pub open spec fn net_at(file: Seq<char>, entries: Seq<SyntaxNode>, at: int, upto: int) -> NetView {
    NetView {
        connection: entries.subrange(at + 1, upto).filter(
            of_kind(NodeKind::ConnEntry),
        ).map_values(conn_in(file)),
        ..net_of(entries[at])->Ok_0
    }
}

/// Between a net-open entry and the next one, the open net is the one that
/// the entry opened, and it holds the connections read since.
pub proof fn lemma_open_net_grows(file: Seq<char>, entries: Seq<SyntaxNode>, at: int, upto: int)
    requires
        exchange_of(file, entries) is Ok,
        0 <= at < upto <= end_of_load(entries, 0),
        entries[at].kind == NodeKind::DnetEntry,
        forall|i: int| at < i < upto ==> (#[trigger] entries[i]).kind != NodeKind::DnetEntry,
    ensures
        state_at(file, entries, upto) is Ok,
        state_at(file, entries, upto)->Ok_0.open_net == Some(net_at(file, entries, at, upto)),
        state_at(file, entries, upto)->Ok_0.exchange.nets.len() == nets_before(entries, at),
    decreases upto - at,
{
    lemma_end_of_load(entries, 0);
    lemma_state_is_ok(file, entries, upto);
    lemma_state_is_ok(file, entries, upto - 1);
    lemma_state_step(file, entries, upto - 1);
    let before = state_at(file, entries, upto - 1)->Ok_0;
    let last = entries[upto - 1];
    if upto == at + 1 {
        reveal(Seq::filter);
        lemma_count_of_nets(file, entries, at);
        let none = entries.subrange(at + 1, upto);
        assert(none =~= Seq::<SyntaxNode>::empty());
        assert(none.filter(of_kind(NodeKind::ConnEntry)).map_values(conn_in(file))
            =~= Seq::<ConnEntryView>::empty());
    } else {
        lemma_open_net_grows(file, entries, at, upto - 1);
        lemma_summed_up(file, entries, upto - 1);
        let read = entries.subrange(at + 1, upto - 1);
        assert(entries.subrange(at + 1, upto) =~= read.push(last));
        lemma_select_push(read, last, NodeKind::ConnEntry, conn_in(file));
    }
}

/// A net that stands in the result stays where and as it is.
pub proof fn lemma_net_stays(
    file: Seq<char>,
    entries: Seq<SyntaxNode>,
    since: int,
    upto: int,
    number: int,
)
    requires
        exchange_of(file, entries) is Ok,
        0 <= since <= upto <= end_of_load(entries, 0),
        0 <= number < state_at(file, entries, since)->Ok_0.exchange.nets.len(),
    ensures
        state_at(file, entries, upto) is Ok,
        number < state_at(file, entries, upto)->Ok_0.exchange.nets.len(),
        state_at(file, entries, upto)->Ok_0.exchange.nets[number] == state_at(
            file,
            entries,
            since,
        )->Ok_0.exchange.nets[number],
    decreases upto - since,
{
    lemma_state_is_ok(file, entries, upto);
    if since < upto {
        lemma_net_stays(file, entries, since, upto - 1, number);
        lemma_state_is_ok(file, entries, upto - 1);
        lemma_state_step(file, entries, upto - 1);
    }
}

/// The net that the entry at position `at` opened holds the connections
/// that stand between that entry and the next net-open entry, or the end
/// of the load where none follows, in their order, and nothing else.
pub proof fn law_net_holds_the_connections_behind_it(
    file: Seq<char>,
    entries: Seq<SyntaxNode>,
    at: int,
    next: int,
)
    requires
        exchange_of(file, entries) is Ok,
        0 <= at < next <= end_of_load(entries, 0),
        entries[at].kind == NodeKind::DnetEntry,
        forall|i: int| at < i < next ==> (#[trigger] entries[i]).kind != NodeKind::DnetEntry,
        next == end_of_load(entries, 0) || entries[next].kind == NodeKind::DnetEntry,
    ensures
        nets_before(entries, at) < exchange_of(file, entries)->Ok_0.nets.len(),
        exchange_of(file, entries)->Ok_0.nets[nets_before(entries, at) as int] == net_at(
            file,
            entries,
            at,
            next,
        ),
{
    let stop = end_of_load(entries, 0);
    let number = nets_before(entries, at) as int;
    lemma_end_of_load(entries, 0);
    lemma_exchange_is_last_state(file, entries);
    lemma_open_net_grows(file, entries, at, next);
    lemma_state_is_ok(file, entries, stop);
    if next < stop {
        lemma_state_is_ok(file, entries, next + 1);
        lemma_state_step(file, entries, next);
        lemma_net_stays(file, entries, next + 1, stop, number);
    }
}

/// The failure that the entry at position `at` raises, if it raises one:
/// that of its decoding, or, for a connection that decodes, that no net was
/// opened before it.
pub open spec fn failure_of(file: Seq<char>, entries: Seq<SyntaxNode>, at: int) -> Option<
    SpefError,
> {
    let entry = entries[at];
    match entry.kind {
        NodeKind::HeaderEntry => match header_of(file, entry) {
            Err(e) => Some(e),
            Ok(_) => None,
        },
        NodeKind::NameMapEntry => match namemap_of(file, entry) {
            Err(e) => Some(e),
            Ok(_) => None,
        },
        NodeKind::PortsEntry => match port_of(file, entry) {
            Err(e) => Some(e),
            Ok(_) => None,
        },
        NodeKind::DnetEntry => match net_of(entry) {
            Err(e) => Some(e),
            Ok(_) => None,
        },
        NodeKind::ConnEntry => match conn_of(file, entry) {
            Err(e) => Some(e),
            Ok(_) => if nets_before(entries, at) > 0 {
                None
            } else {
                Some(failure_at(entry, SpefErrorKind::ConnectionOutsideNet))
            },
        },
        _ => None,
    }
}

/// A step fails with the failure of its entry, and with no other.
pub proof fn lemma_step_fails_as_entry(file: Seq<char>, entries: Seq<SyntaxNode>, at: int)
    requires
        0 <= at < end_of_load(entries, 0),
        state_at(file, entries, at) is Ok,
    ensures
        match failure_of(file, entries, at) {
            Some(e) => state_at(file, entries, at + 1) == Err::<LoadView, _>(e),
            None => state_at(file, entries, at + 1) is Ok,
        },
{
    lemma_state_step(file, entries, at);
    lemma_summed_up(file, entries, at);
    lemma_count_of_nets(file, entries, at);
}

/// As long as no entry raises a failure, the load goes on.
pub proof fn lemma_load_goes_on(file: Seq<char>, entries: Seq<SyntaxNode>, count: int)
    requires
        0 <= count <= end_of_load(entries, 0),
        forall|i: int| 0 <= i < count ==> failure_of(file, entries, i) is None,
    ensures
        state_at(file, entries, count) is Ok,
    decreases count,
{
    if count == 0 {
        assert(entries.take(0) =~= Seq::<SyntaxNode>::empty());
    } else {
        lemma_load_goes_on(file, entries, count - 1);
        lemma_step_fails_as_entry(file, entries, count - 1);
    }
}

/// A load that has failed stays failed.
pub proof fn lemma_failure_stays(file: Seq<char>, entries: Seq<SyntaxNode>, since: int, upto: int)
    requires
        0 <= since <= upto <= end_of_load(entries, 0),
        state_at(file, entries, since) is Err,
    ensures
        state_at(file, entries, upto) == state_at(file, entries, since),
    decreases upto - since,
{
    if since < upto {
        lemma_failure_stays(file, entries, since, upto - 1);
        lemma_state_step(file, entries, upto - 1);
    }
}

/// A load succeeds where none of the entries that it reads raises a
/// failure, and nowhere else.
pub proof fn law_load_succeeds_unless_an_entry_fails(file: Seq<char>, entries: Seq<SyntaxNode>)
    ensures
        exchange_of(file, entries) is Ok <==> forall|i: int|
            0 <= i < end_of_load(entries, 0) ==> failure_of(file, entries, i) is None,
{
    let stop = end_of_load(entries, 0);
    lemma_end_of_load(entries, 0);
    lemma_exchange_is_last_state(file, entries);
    if exchange_of(file, entries) is Ok {
        assert forall|i: int| 0 <= i < stop implies failure_of(file, entries, i) is None by {
            lemma_state_is_ok(file, entries, i);
            lemma_state_is_ok(file, entries, i + 1);
            lemma_step_fails_as_entry(file, entries, i);
        }
    }
    if forall|i: int| 0 <= i < stop ==> failure_of(file, entries, i) is None {
        lemma_load_goes_on(file, entries, stop);
    }
}

/// A load fails with the failure of the first entry that raises one.
pub proof fn law_load_fails_with_the_first_failure(
    file: Seq<char>,
    entries: Seq<SyntaxNode>,
    at: int,
)
    requires
        0 <= at < end_of_load(entries, 0),
        forall|i: int| 0 <= i < at ==> failure_of(file, entries, i) is None,
        failure_of(file, entries, at) is Some,
    ensures
        exchange_of(file, entries) == Err::<ExchangeView, _>(
            failure_of(file, entries, at)->Some_0,
        ),
{
    let stop = end_of_load(entries, 0);
    lemma_end_of_load(entries, 0);
    lemma_exchange_is_last_state(file, entries);
    lemma_load_goes_on(file, entries, at);
    lemma_step_fails_as_entry(file, entries, at);
    lemma_failure_stays(file, entries, at + 1, stop);
}

} // verus!
