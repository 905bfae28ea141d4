use crate::decode::{coordinates_of, direction_of, float_of};
use crate::driver::{exchange_of, run, start, step, LoadView};
use crate::entry::{conn_of, header_of, namemap_of, net_of, port_of};
use crate::error::SpefError;
use crate::number::is_number_literal;
use crate::spef_data::{
    BasicInfoView, ConnEntryView, ConnectionDirection, ExchangeView, HeaderEntryView,
    NameMapEntryView, NetView, PortEntryView,
};
use crate::syntax::{NodeKind, SyntaxNode};
use crate::text::{is_sentinel, lemma_leading_sentinel_is_stripped, without_sentinels};
use vstd::prelude::*;

verus! {

/// A header entry with a keyword and a value decodes to exactly these two
/// texts, under the line on which the entry starts.
pub proof fn law_header_keeps_key_and_value(file: Seq<char>, entry: SyntaxNode)
    requires
        entry.children@.len() >= 2,
    ensures
        header_of(file, entry) == Ok::<_, SpefError>(
            HeaderEntryView {
                basic_info: BasicInfoView { file_name: file, line_no: entry.span.start_line },
                header_key: entry.children@[0].text@,
                header_value: entry.children@[1].text@,
            },
        ),
{
}

/// A line of the name map whose index is a number, whole or not, decodes
/// without failure: to the name as written, and to the whole part of the
/// number as floating point cuts it, which comes with the token.
pub proof fn law_namemap_keeps_index_and_name(file: Seq<char>, entry: SyntaxNode)
    requires
        entry.children@.len() >= 2,
        is_number_literal(without_sentinels(entry.children@[0].text@)),
    ensures
        namemap_of(file, entry) == Ok::<_, SpefError>(
            NameMapEntryView {
                basic_info: BasicInfoView { file_name: file, line_no: entry.span.start_line },
                index: entry.children@[0].reading.truncated,
                name: entry.children@[1].text@,
            },
        ),
{
}

/// A line of the ports section whose fields decode is named by its index
/// as floating point prints it, which comes with the token: by no other
/// spelling of the number, and not by its text.
pub proof fn law_port_is_named_as_its_index_prints(file: Seq<char>, entry: SyntaxNode)
    requires
        entry.children@.len() >= 3,
        float_of(entry.children@[0]) is Ok,
        direction_of(entry.children@[1]) is Ok,
        coordinates_of(entry.children@[2]) is Ok,
    ensures
        port_of(file, entry) == Ok::<_, SpefError>(
            PortEntryView {
                basic_info: BasicInfoView { file_name: file, line_no: entry.span.start_line },
                name: entry.children@[0].reading.printed@,
                direction: direction_of(entry.children@[1])->Ok_0,
                coordinates: coordinates_of(entry.children@[2])->Ok_0,
            },
        ),
{
}

/// The point that a coordinate node spells depends on the texts of its two
/// numbers alone: not on the text of the node itself, nor on where it
/// stands.
pub proof fn law_coordinates_depend_on_numbers(a: SyntaxNode, b: SyntaxNode)
    requires
        a.children@.len() == 2,
        b.children@.len() == 2,
        a.children@[0].text@ == b.children@[0].text@,
        a.children@[1].text@ == b.children@[1].text@,
    ensures
        coordinates_of(a) is Ok == coordinates_of(b) is Ok,
        coordinates_of(a) is Ok ==> coordinates_of(a)->Ok_0 == coordinates_of(b)->Ok_0,
        coordinates_of(a) is Ok ==> coordinates_of(a)->Ok_0 == (
            without_sentinels(a.children@[0].text@),
            without_sentinels(a.children@[1].text@),
        ),
{
}

/// Two texts that differ in their sentinels alone decode to the same
/// number, or both to none.
pub proof fn law_float_ignores_sentinels(a: SyntaxNode, b: SyntaxNode)
    requires
        without_sentinels(a.text@) == without_sentinels(b.text@),
    ensures
        float_of(a) is Ok == float_of(b) is Ok,
        float_of(a) is Ok ==> float_of(a)->Ok_0 == float_of(b)->Ok_0,
{
}

/// A sentinel in front of a text changes nothing of the number that the
/// text decodes to.
pub proof fn law_float_ignores_leading_sentinel(marked: SyntaxNode, plain: SyntaxNode)
    requires
        marked.text@ == seq!['*'] + plain.text@,
    ensures
        float_of(marked) is Ok == float_of(plain) is Ok,
        float_of(marked) is Ok ==> float_of(marked)->Ok_0 == float_of(plain)->Ok_0,
{
    lemma_leading_sentinel_is_stripped(plain.text@);
}

/// No number that was decoded holds a sentinel.
pub proof fn law_float_holds_no_sentinel(node: SyntaxNode, i: int)
    requires
        float_of(node) is Ok,
        0 <= i < float_of(node)->Ok_0.len(),
    ensures
        !is_sentinel(float_of(node)->Ok_0[i]),
{
    let keep = |c: char| !is_sentinel(c);
    node.text@.lemma_filter_pred(keep, i);
}

/// A direction is decoded from the one letter `I`, `O` or `B`, and from no
/// other text: none longer or shorter, none in lower case.
pub proof fn law_direction_is_exact(node: SyntaxNode)
    ensures
        direction_of(node) == Ok::<_, SpefError>(ConnectionDirection::INPUT)
            <==> node.text@ == seq!['I'],
        direction_of(node) == Ok::<_, SpefError>(ConnectionDirection::OUTPUT)
            <==> node.text@ == seq!['O'],
        direction_of(node) == Ok::<_, SpefError>(ConnectionDirection::INOUT)
            <==> node.text@ == seq!['B'],
        direction_of(node) is Ok <==> node.text@.len() == 1 && (node.text@[0] == 'I'
            || node.text@[0] == 'O' || node.text@[0] == 'B'),
{
    reveal_strlit("I");
    reveal_strlit("O");
    reveal_strlit("B");
    assert("I"@ =~= seq!['I']);
    assert("O"@ =~= seq!['O']);
    assert("B"@ =~= seq!['B']);
    if node.text@.len() == 1 {
        assert(node.text@ =~= seq![node.text@[0]]);
    }
}

/// The net that `net` becomes once the first `count` of `conns` are
/// recorded under it.
pub open spec fn net_with(
    net: NetView,
    file: Seq<char>,
    conns: Seq<SyntaxNode>,
    count: int,
) -> NetView {
    NetView {
        connection: net.connection + conns.take(count).map_values(
            |c: SyntaxNode| conn_of(file, c)->Ok_0,
        ),
        ..net
    }
}

/// While a net is open, connections that decode are recorded under it one
/// after the other, and nothing else changes.
pub proof fn lemma_run_records_connections(
    exchange: ExchangeView,
    net: NetView,
    conns: Seq<SyntaxNode>,
    entries: Seq<SyntaxNode>,
    offset: int,
    done: int,
)
    requires
        0 <= offset,
        0 <= done <= conns.len(),
        offset + conns.len() <= entries.len(),
        forall|i: int| 0 <= i < conns.len() ==> entries[offset + i] == conns[i],
        forall|i: int|
            0 <= i < conns.len() ==> (#[trigger] conns[i]).kind == NodeKind::ConnEntry && conn_of(
                exchange.file_name,
                conns[i],
            ) is Ok,
    ensures
        run(
            LoadView { exchange, open_net: Some(net_with(net, exchange.file_name, conns, done)) },
            entries,
            offset + done,
        ) == run(
            LoadView {
                exchange,
                open_net: Some(net_with(net, exchange.file_name, conns, conns.len() as int)),
            },
            entries,
            offset + conns.len(),
        ),
    decreases conns.len() - done,
{
    if done < conns.len() {
        let file = exchange.file_name;
        let f = |c: SyntaxNode| conn_of(file, c)->Ok_0;
        let state = LoadView { exchange, open_net: Some(net_with(net, file, conns, done)) };
        let next = LoadView { exchange, open_net: Some(net_with(net, file, conns, done + 1)) };
        assert(entries[offset + done] == conns[done]);
        assert(conns.take(done + 1).map_values(f) =~= conns.take(done).map_values(f).push(
            f(conns[done]),
        ));
        assert(net_with(net, file, conns, done + 1).connection =~= net_with(
            net,
            file,
            conns,
            done,
        ).connection.push(f(conns[done])));
        assert(step(state, conns[done]) == Ok::<_, SpefError>(next));
        lemma_run_records_connections(exchange, net, conns, entries, offset, done + 1);
    }
}

/// A net-open entry, then connections, then the end of the input: the
/// result holds one net, the one that the entry opened, and under it the
/// connections in the order in which they stood.
pub proof fn law_connections_belong_to_their_net(
    file: Seq<char>,
    net_entry: SyntaxNode,
    conns: Seq<SyntaxNode>,
    rest: Seq<SyntaxNode>,
)
    requires
        net_entry.kind == NodeKind::DnetEntry,
        net_of(net_entry) is Ok,
        forall|i: int|
            0 <= i < conns.len() ==> (#[trigger] conns[i]).kind == NodeKind::ConnEntry && conn_of(
                file,
                conns[i],
            ) is Ok,
        rest.len() == 0 || rest[0].kind == NodeKind::EndOfInput,
    ensures
        exchange_of(file, seq![net_entry] + conns + rest) == Ok::<_, SpefError>(
            ExchangeView {
                nets: seq![
                    NetView {
                        connection: conns.map_values(|c: SyntaxNode| conn_of(file, c)->Ok_0),
                        ..net_of(net_entry)->Ok_0
                    },
                ],
                ..start(file).exchange
            },
        ),
{
    let entries = seq![net_entry] + conns + rest;
    let net = net_of(net_entry)->Ok_0;
    let exchange = start(file).exchange;
    let f = |c: SyntaxNode| conn_of(file, c)->Ok_0;
    let n = conns.len() as int;
    assert(entries[0] == net_entry);
    assert(conns.take(0).map_values(f) =~= Seq::<ConnEntryView>::empty());
    assert(net.connection + conns.take(0).map_values(f) =~= net.connection);
    assert(net_with(net, file, conns, 0) == net);
    assert(step(start(file), net_entry) == Ok::<_, SpefError>(
        LoadView { exchange, open_net: Some(net) },
    ));
    lemma_run_records_connections(exchange, net, conns, entries, 1, 0);
    assert(conns.take(n) =~= conns);
    assert(net.connection + conns.map_values(f) =~= conns.map_values(f));
    let last = LoadView { exchange, open_net: Some(net_with(net, file, conns, n)) };
    assert(run(last, entries, 1 + n) == Ok::<_, SpefError>(last)) by {
        if rest.len() > 0 {
            assert(entries[1 + n] == rest[0]);
        }
    }
    assert(exchange.nets.push(net_with(net, file, conns, n)) =~= seq![
        net_with(net, file, conns, n),
    ]);
}

} // verus!
